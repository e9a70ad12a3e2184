//! Where and how a request that no plugin answers is forwarded upstream.
use vstd::prelude::*;
use vstd::string::*;
use crate::error::InterposerError;
use crate::text::{
    chars_of, dec, decimal_string, eq_str, last_index, lemma_last_index_bounds, lowercase, parse_unsigned,
    parse_unsigned_chars, rfind_char, string_of, subrange_chars, to_lowercase,
};

verus! {

/// Hop-by-hop headers that should not be forwarded: they concern a single connection.
pub open spec fn hop_by_hop_names() -> Seq<Seq<char>> {
    seq![
        "connection"@,
        "keep-alive"@,
        "proxy-authenticate"@,
        "proxy-authorization"@,
        "te"@,
        "trailers"@,
        "transfer-encoding"@,
        "upgrade"@,
    ]
}

/// Whether an already lower-cased header name is hop-by-hop.
pub fn is_hop_by_hop_lowercase(lower: &str) -> (r: bool)
    ensures
        r == hop_by_hop_names().contains(lower@),
{
    let names: [&str; 8] = [
        "connection",
        "keep-alive",
        "proxy-authenticate",
        "proxy-authorization",
        "te",
        "trailers",
        "transfer-encoding",
        "upgrade",
    ];
    let ghost spec_names = hop_by_hop_names();
    assert(spec_names[0] == names[0]@);
    assert(spec_names[1] == names[1]@);
    assert(spec_names[2] == names[2]@);
    assert(spec_names[3] == names[3]@);
    assert(spec_names[4] == names[4]@);
    assert(spec_names[5] == names[5]@);
    assert(spec_names[6] == names[6]@);
    assert(spec_names[7] == names[7]@);
    let mut i: usize = 0;
    while i < 8
        invariant
            i <= 8,
            spec_names == hop_by_hop_names(),
            forall|k: int| 0 <= k < 8 ==> #[trigger] spec_names[k] == names@[k]@,
            forall|k: int| 0 <= k < i ==> spec_names[k] != lower@,
        decreases 8 - i,
    {
        if eq_str(names[i], lower) {
            assert(spec_names[i as int] == lower@);
            return true;
        }
        i = i + 1;
    }
    assert forall|k: int| 0 <= k < spec_names.len() implies spec_names[k] != lower@ by {}
    false
}

/// Check if a header is a hop-by-hop header that should be filtered (names compare without
/// regard to case).
pub fn is_hop_by_hop_header(header: &str) -> (r: bool)
    ensures
        r == hop_by_hop_names().contains(lowercase(header@)),
{
    let lower = to_lowercase(header);
    is_hop_by_hop_lowercase(lower.as_str())
}

/// The headers that are forwarded: every header that is not hop-by-hop, in order.
pub open spec fn end_to_end_headers(h: Seq<(String, String)>) -> Seq<(String, String)>
    decreases h.len(),
{
    if h.len() == 0 {
        h
    } else if hop_by_hop_names().contains(lowercase(h.last().0@)) {
        end_to_end_headers(h.drop_last())
    } else {
        end_to_end_headers(h.drop_last()).push(h.last())
    }
}

/// Drops the hop-by-hop headers, keeping the others in order.
pub fn filter_hop_by_hop(headers: Vec<(String, String)>) -> (r: Vec<(String, String)>)
    ensures
        r@ == end_to_end_headers(headers@),
{
    let mut r: Vec<(String, String)> = Vec::new();
    let n = headers.len();
    let mut i: usize = 0;
    assert(headers@.take(0) == Seq::<(String, String)>::empty());
    while i < n
        invariant
            i <= n,
            n == headers@.len(),
            r@ == end_to_end_headers(headers@.take(i as int)),
        decreases n - i,
    {
        let entry = &headers[i];
        proof {
            let t = headers@.take(i + 1);
            assert(t.drop_last() == headers@.take(i as int));
            assert(t.last() == headers@[i as int]);
        }
        if !is_hop_by_hop_header(entry.0.as_str()) {
            let k = entry.0.clone();
            let v = entry.1.clone();
            r.push((k, v));
        }
        i = i + 1;
    }
    assert(headers@.take(n as int) == headers@);
    r
}

/// `http://{address}:{port}`.
pub open spec fn base_url(address: Seq<char>, port: u16) -> Seq<char> {
    "http://"@ + address + ":"@ + dec(port as nat)
}

/// Get the base URL for the upstream service
pub fn upstream_base_url(target_address: &str, target_port: u16) -> (r: String)
    ensures
        r@ == base_url(target_address@, target_port),
{
    let mut r = String::from_str("http://");
    r.append(target_address);
    r.append(":");
    let p = decimal_string(target_port as u64);
    r.append(p.as_str());
    r
}

/// Whether the proxy forwards to the address in each request's Host header rather than to a
/// fixed address: when the target address is empty or `0.0.0.0`.
pub open spec fn ip_agnostic(target_address: Seq<char>) -> bool {
    target_address.len() == 0 || target_address == "0.0.0.0"@
}

/// The value of the first header whose name, lower-cased, is `host`.
pub open spec fn first_host_header_from(h: Seq<(String, String)>, k: int) -> Option<Seq<char>>
    decreases h.len() - k,
{
    if k < 0 || k >= h.len() {
        None
    } else if lowercase(h[k].0@) == "host"@ {
        Some(h[k].1@)
    } else {
        first_host_header_from(h, k + 1)
    }
}

/// Host name and port of a Host header: split at its last `:` when there is one, the port
/// falling back to `default_port` when it does not parse.
pub open spec fn split_host(host: Seq<char>, default_port: u16) -> (Seq<char>, u16) {
    match last_index(host, ':') {
        Some(pos) => (host.take(pos), match parse_unsigned(host.skip(pos + 1), 65535) {
            Some(p) => p as u16,
            None => default_port,
        }),
        None => (host, default_port),
    }
}

/// The URL a request for `path` is forwarded to, or why there is none.
pub open spec fn upstream_url_spec(
    target_address: Seq<char>,
    target_port: u16,
    path: Seq<char>,
    headers: Seq<(String, String)>,
) -> std::result::Result<Seq<char>, Seq<char>> {
    if ip_agnostic(target_address) {
        match first_host_header_from(headers, 0) {
            None => Err("Host header required in IP-agnostic mode"@),
            Some(host) => {
                let (name, port) = split_host(host, target_port);
                Ok("http://"@ + name + ":"@ + dec(port as nat) + path)
            },
        }
    } else {
        Ok(base_url(target_address, target_port) + path)
    }
}

fn host_and_port(host: &str, default_port: u16) -> (r: (String, u16))
    ensures
        (r.0@, r.1) == split_host(host@, default_port),
{
    let chars = chars_of(host);
    proof {
        lemma_last_index_bounds(host@, ':');
    }
    match rfind_char(chars.as_slice(), ':') {
        Some(pos) => {
            let name = subrange_chars(chars.as_slice(), 0, pos);
            let port_chars = subrange_chars(chars.as_slice(), pos + 1, chars.len());
            assert(name@ == host@.take(pos as int));
            assert(port_chars@ == host@.skip(pos + 1));
            let port = match parse_unsigned_chars(port_chars.as_slice(), 65535) {
                Some(p) => p as u16,
                None => default_port,
            };
            (string_of(name.as_slice()), port)
        },
        None => (host.to_owned(), default_port),
    }
}

/// Determines the upstream URL for a request: the configured address, or in IP-agnostic mode
/// the host named by the request's Host header.
pub fn upstream_url(target_address: &str, target_port: u16, path: &str, headers: &Vec<(String, String)>) -> (r: std::result::Result<String, InterposerError>)
    ensures
        match (r, upstream_url_spec(target_address@, target_port, path@, headers@)) {
            (Ok(a), Ok(b)) => a@ == b,
            (Err(InterposerError::UpstreamRequest(a)), Err(b)) => a@ == b,
            _ => false,
        },
{
    if target_address.is_empty() || eq_str(target_address, "0.0.0.0") {
        let n = headers.len();
        let mut i: usize = 0;
        while i < n
            invariant
                i <= n,
                n == headers@.len(),
                first_host_header_from(headers@, 0) == first_host_header_from(headers@, i as int),
                ip_agnostic(target_address@),
            decreases n - i,
        {
            let lower = to_lowercase(headers[i].0.as_str());
            if eq_str(lower.as_str(), "host") {
                let (name, port) = host_and_port(headers[i].1.as_str(), target_port);
                assert(first_host_header_from(headers@, i as int) == Some(headers@[i as int].1@));
                let mut url = String::from_str("http://");
                url.append(name.as_str());
                url.append(":");
                let p = decimal_string(port as u64);
                url.append(p.as_str());
                url.append(path);
                return Ok(url);
            }
            i = i + 1;
        }
        Err(InterposerError::UpstreamRequest(String::from_str("Host header required in IP-agnostic mode")))
    } else {
        let mut url = upstream_base_url(target_address, target_port);
        url.append(path);
        Ok(url)
    }
}


/// What the hop-by-hop filter keeps holds no hop-by-hop header, and filtering it again
/// changes nothing.
pub proof fn lemma_end_to_end_filtered(h: Seq<(String, String)>)
    ensures
        forall|i: int| 0 <= i < end_to_end_headers(h).len() ==> !hop_by_hop_names().contains(
            lowercase((#[trigger] end_to_end_headers(h)[i]).0@),
        ),
        end_to_end_headers(end_to_end_headers(h)) == end_to_end_headers(h),
    decreases h.len(),
{
    if h.len() > 0 {
        lemma_end_to_end_filtered(h.drop_last());
        let p = end_to_end_headers(h.drop_last());
        if !hop_by_hop_names().contains(lowercase(h.last().0@)) {
            let q = p.push(h.last());
            assert(q.drop_last() == p);
            assert forall|i: int| 0 <= i < q.len() implies !hop_by_hop_names().contains(
                lowercase((#[trigger] q[i]).0@),
            ) by {
                if i < p.len() {
                    assert(q[i] == p[i]);
                }
            }
        }
    }
}

/// With a fixed target address the Host header plays no part: every request for a path goes
/// to the same URL.
pub proof fn lemma_fixed_target_ignores_headers(
    target_address: Seq<char>,
    target_port: u16,
    path: Seq<char>,
    a: Seq<(String, String)>,
    b: Seq<(String, String)>,
)
    requires
        !ip_agnostic(target_address),
    ensures
        upstream_url_spec(target_address, target_port, path, a) == upstream_url_spec(
            target_address,
            target_port,
            path,
            b,
        ),
        upstream_url_spec(target_address, target_port, path, a) == Ok::<Seq<char>, Seq<char>>(
            base_url(target_address, target_port) + path,
        ),
{
}


/// A Host header `name:port`, whose port is a decimal number up to 65535, names host `name`
/// and that port, whatever colons `name` holds (an IPv6 literal, say): the split is at the last
/// colon.
pub proof fn lemma_host_split_at_last_colon(name: Seq<char>, port: u16, default_port: u16)
    ensures
        split_host(name + ":"@ + dec(port as nat), default_port) == (name, port),
{
    reveal_strlit(":");
    let d = dec(port as nat);
    let h = name + ":"@ + d;
    let n = name.len() as int;
    crate::text::lemma_dec_digits(port as nat);
    assert forall|j: int| n + 1 <= j < h.len() implies #[trigger] h[j] != ':' by {
        assert(h[j] == d[j - n - 1]);
        assert(crate::text::is_ascii_digit(d[j - n - 1]));
    }
    crate::text::lemma_last_index_prefix(h, ':', n + 1);
    let t = h.take(n + 1);
    assert(t.last() == ':');
    assert(last_index(h, ':') == Some(n));
    assert(h.take(n) == name);
    assert(h.skip(n + 1) == d);
    crate::text::lemma_parse_dec(port as nat, 65535);
}

/// A Host header without a colon names the host alone, on the default port.
pub proof fn lemma_host_without_port(host: Seq<char>, default_port: u16)
    requires
        forall|i: int| 0 <= i < host.len() ==> #[trigger] host[i] != ':',
    ensures
        split_host(host, default_port) == (host, default_port),
{
    crate::text::lemma_last_index_prefix(host, ':', 0);
    assert(host.take(0).len() == 0);
}

proof fn lemma_host_header_skips(h: Seq<(String, String)>, k: int, m: int)
    requires
        0 <= k <= m <= h.len(),
        forall|i: int| k <= i < m ==> lowercase((#[trigger] h[i]).0@) != "host"@,
    ensures
        first_host_header_from(h, k) == first_host_header_from(h, m),
    decreases m - k,
{
    if k < m {
        lemma_host_header_skips(h, k + 1, m);
    }
}

/// The first header named `host` (in any case) is the one that counts: headers after it,
/// other `Host` headers among them, play no part.
pub proof fn lemma_first_host_header_counts(
    before: Seq<(String, String)>,
    name: String,
    value: String,
    after: Seq<(String, String)>,
)
    requires
        lowercase(name@) == "host"@,
        forall|i: int| 0 <= i < before.len() ==> lowercase((#[trigger] before[i]).0@) != "host"@,
    ensures
        first_host_header_from(before.push((name, value)) + after, 0) == Some(value@),
{
    let h = before.push((name, value)) + after;
    assert forall|i: int| 0 <= i < before.len() implies lowercase((#[trigger] h[i]).0@) != "host"@ by {
        assert(h[i] == before[i]);
    }
    lemma_host_header_skips(h, 0, before.len() as int);
    assert(h[before.len() as int] == (name, value));
}

/// In IP-agnostic mode a request goes to the host and port its first Host header names.
pub proof fn lemma_ip_agnostic_follows_host_header(
    target_address: Seq<char>,
    target_port: u16,
    path: Seq<char>,
    before: Seq<(String, String)>,
    name: String,
    value: String,
    after: Seq<(String, String)>,
    host: Seq<char>,
    port: u16,
)
    requires
        ip_agnostic(target_address),
        lowercase(name@) == "host"@,
        forall|i: int| 0 <= i < before.len() ==> lowercase((#[trigger] before[i]).0@) != "host"@,
        value@ == host + ":"@ + dec(port as nat),
    ensures
        upstream_url_spec(target_address, target_port, path, before.push((name, value)) + after)
            == Ok::<Seq<char>, Seq<char>>("http://"@ + host + ":"@ + dec(port as nat) + path),
{
    lemma_first_host_header_counts(before, name, value, after);
    lemma_host_split_at_last_colon(host, port, target_port);
}

proof fn lemma_end_to_end_append(a: Seq<(String, String)>, b: Seq<(String, String)>)
    ensures
        end_to_end_headers(a + b) == end_to_end_headers(a) + end_to_end_headers(b),
    decreases b.len(),
{
    if b.len() == 0 {
        assert(a + b == a);
        assert(end_to_end_headers(a) + end_to_end_headers(b) == end_to_end_headers(a));
    } else {
        let c = a + b;
        assert(c.drop_last() == a + b.drop_last());
        assert(c.last() == b.last());
        lemma_end_to_end_append(a, b.drop_last());
        let ea = end_to_end_headers(a);
        let eb = end_to_end_headers(b.drop_last());
        assert((ea + eb).push(b.last()) == ea + eb.push(b.last()));
    }
}

proof fn lemma_end_to_end_keeps_all(h: Seq<(String, String)>)
    requires
        forall|i: int| 0 <= i < h.len() ==> !hop_by_hop_names().contains(lowercase((#[trigger] h[i]).0@)),
    ensures
        end_to_end_headers(h) == h,
    decreases h.len(),
{
    if h.len() > 0 {
        assert forall|i: int| 0 <= i < h.drop_last().len() implies !hop_by_hop_names().contains(
            lowercase((#[trigger] h.drop_last()[i]).0@),
        ) by {
            assert(h.drop_last()[i] == h[i]);
        }
        lemma_end_to_end_keeps_all(h.drop_last());
        assert(!hop_by_hop_names().contains(lowercase(h[h.len() - 1].0@)));
        assert(h.drop_last().push(h.last()) == h);
    }
}

/// Dropping hop-by-hop headers keeps every other header, in order: headers with no hop-by-hop
/// name pass unchanged, and the filter works piece by piece over a concatenation.
pub proof fn lemma_end_to_end_kept(a: Seq<(String, String)>, b: Seq<(String, String)>)
    ensures
        end_to_end_headers(a + b) == end_to_end_headers(a) + end_to_end_headers(b),
        (forall|i: int| 0 <= i < a.len() ==> !hop_by_hop_names().contains(lowercase((#[trigger] a[i]).0@)))
            ==> end_to_end_headers(a) == a,
{
    lemma_end_to_end_append(a, b);
    if forall|i: int| 0 <= i < a.len() ==> !hop_by_hop_names().contains(lowercase((#[trigger] a[i]).0@)) {
        lemma_end_to_end_keeps_all(a);
    }
}

} // verus!
