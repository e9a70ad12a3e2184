//! Deciding how a request is answered: by the first plugin that accepts it, or by the
//! upstream service; and the answers the proxy gives of its own.
use vstd::prelude::*;
use vstd::string::*;
use crate::error::InterposerError;
use crate::headers::{collect_lowercase_headers, header_views, lowercase_header_map};
use crate::plugin::{opt_info, Plugin, PluginRegistry, PluginResponse, RequestContext};
use crate::process::{forwarded_process_headers, ProcessInfo};
use crate::text::parse_unsigned;

verus! {

/// The request target that plugins and the upstream see: the path, then `?` and the query
/// when there is one.
pub open spec fn full_path_spec(path: Seq<char>, query: Option<Seq<char>>) -> Seq<char> {
    match query {
        Some(q) => path + "?"@ + q,
        None => path,
    }
}

pub open spec fn opt_str(q: Option<&str>) -> Option<Seq<char>> {
    match q {
        Some(s) => Some(s@),
        None => None,
    }
}

/// The request target: the path, then `?` and the query when there is one.
pub fn full_path(path: &str, query: Option<&str>) -> (r: String)
    ensures
        r@ == full_path_spec(path@, opt_str(query)),
{
    let mut r = String::from_str(path);
    match query {
        Some(q) => {
            r.append("?");
            r.append(q);
            proof {
                reveal_strlit("?");
            }
        },
        None => {},
    }
    r
}

/// The headers sent upstream: the request's own, in order, then, when injection is enabled
/// and the client's process is known, the five process headers appended.
pub open spec fn upstream_headers_spec(
    headers: Seq<(Seq<char>, Seq<char>)>,
    inject: bool,
    info: Option<ProcessInfo>,
) -> Seq<(Seq<char>, Seq<char>)> {
    match info {
        Some(i) => if inject {
            headers + forwarded_process_headers(i)
        } else {
            headers
        },
        None => headers,
    }
}

/// The headers sent upstream for a request with headers `headers`.
pub fn upstream_request_headers(
    headers: Vec<(String, String)>,
    inject: bool,
    info: Option<&ProcessInfo>,
) -> (r: Vec<(String, String)>)
    ensures
        header_views(r@) == upstream_headers_spec(header_views(headers@), inject, opt_info(info)),
{
    let mut h = headers;
    let ghost h0 = header_views(h@);
    if inject {
        match info {
            Some(i) => {
                let f = i.forwarded_headers();
                let mut k: usize = 0;
                while k < 5
                    invariant
                        k <= 5,
                        f@.len() == 5,
                        forall|j: int| 0 <= j < 5 ==> (#[trigger] f@[j]).0@
                            == forwarded_process_headers(*i)[j].0 && f@[j].1@
                            == forwarded_process_headers(*i)[j].1,
                        header_views(h@) == h0 + forwarded_process_headers(*i).take(k as int),
                    decreases 5 - k,
                {
                    let name = f[k].0.clone();
                    let value = f[k].1.clone();
                    let ghost before = h@;
                    let ghost pair = (name@, value@);
                    h.push((name, value));
                    proof {
                        let fw = forwarded_process_headers(*i);
                        assert(f@[k as int].0@ == fw[k as int].0);
                        assert(pair == fw[k as int]);
                        assert(header_views(h@) =~= header_views(before).push(pair));
                        assert(fw.take(k + 1) == fw.take(k as int).push(fw[k as int]));
                        assert(header_views(h@) =~= h0 + fw.take(k + 1));
                    }
                    k = k + 1;
                }
                assert(forwarded_process_headers(*i).take(5) == forwarded_process_headers(*i));
            },
            None => {},
        }
    }
    h
}

/// The context handed to a plugin: method, request target, headers, body (empty when
/// there is none) and the client's process.
pub fn request_context(
    method: &str,
    path: &str,
    headers: &Vec<(String, String)>,
    body: Option<&[u8]>,
    info: Option<&ProcessInfo>,
) -> (r: RequestContext)
    ensures
        r.method@ == method@,
        r.path@ == path@,
        header_views(r.headers@) == header_views(headers@),
        r.body@ == match body {
            Some(b) => b@,
            None => Seq::<u8>::empty(),
        },
        r.process_info == opt_info(info),
{
    let hs = crate::headers::clone_headers(headers);
    let mut b: Vec<u8> = Vec::new();
    match body {
        Some(bytes) => {
            let mut j: usize = 0;
            while j < bytes.len()
                invariant
                    j <= bytes@.len(),
                    b@ == bytes@.take(j as int),
                decreases bytes@.len() - j,
            {
                b.push(bytes[j]);
                assert(bytes@.take(j + 1) == bytes@.take(j as int).push(bytes@[j as int]));
                j = j + 1;
            }
            assert(bytes@.take(bytes@.len() as int) == bytes@);
        },
        None => {},
    }
    let process_info = match info {
        Some(i) => Some(i.duplicate()),
        None => None,
    };
    RequestContext {
        method: String::from_str(method),
        path: String::from_str(path),
        headers: hs,
        body: b,
        process_info,
    }
}

/// Where a request goes.
pub enum Route<'a> {
    /// To this plugin, with this context.
    Intercept { plugin: &'a Plugin, context: RequestContext },
    /// To the upstream service, at this target, with these headers.
    Forward { path: String, headers: Vec<(String, String)> },
}

/// Decides where a request goes. `headers` are the request's headers whose values are text, in
/// order. The plugins see the path without the query, the client's process and the headers
/// with lower-cased names (a later value for a name replacing an earlier one); the first
/// plugin that accepts answers, with the full request in its context. Otherwise the request
/// is forwarded at its full target with its headers, the process headers appended when
/// `inject` is set and the process is known.
pub fn route_request<'a>(
    registry: &'a PluginRegistry<Plugin>,
    inject: bool,
    method: &str,
    path: &str,
    query: Option<&str>,
    headers: &Vec<(String, String)>,
    body: Option<&[u8]>,
    info: Option<&ProcessInfo>,
) -> (r: Route<'a>)
    ensures
        ({
            let hm = lowercase_header_map(header_views(headers@));
            let target = full_path_spec(path@, opt_str(query));
            match r {
                Route::Intercept { plugin, context } => exists|i: int|
                    0 <= i < registry.spec_plugins().len()
                        && #[trigger] registry.accepts(i, path@, opt_info(info), hm)
                        && registry.spec_plugins()[i] == *plugin
                        && (forall|j: int| 0 <= j < i ==> !#[trigger] registry.accepts(j, path@, opt_info(info), hm))
                        && header_views(context.headers@) == hm
                        && context.method@ == method@ && context.path@ == target
                        && context.body@ == match body {
                        Some(b) => b@,
                        None => Seq::<u8>::empty(),
                    } && context.process_info == opt_info(info),
                Route::Forward { path: p, headers: h } => (forall|i: int|
                    0 <= i < registry.spec_plugins().len()
                        ==> !#[trigger] registry.accepts(i, path@, opt_info(info), hm)) && p@ == target
                        && header_views(h@) == upstream_headers_spec(header_views(headers@), inject, opt_info(info)),
            }
        }),
{
    let target = full_path(path, query);
    let header_map = collect_lowercase_headers(headers);
    match registry.find_match(path, info, &header_map) {
        Some(plugin) => {
            let context = request_context(method, target.as_str(), &header_map, body, info);
            proof {
                assert(header_views(context.headers@) == header_views(header_map@));
            }
            Route::Intercept { plugin, context }
        },
        None => {
            let copied = crate::headers::clone_headers(headers);
            let h = upstream_request_headers(copied, inject, info);
            Route::Forward { path: target, headers: h }
        },
    }
}

/// A plain-text answer of the proxy's own: a status code and the body text.
pub struct TextReply {
    pub status: u16,
    pub text: String,
}

/// The answer when the request body could not be read: 400.
pub fn body_read_failure() -> (r: TextReply)
    ensures
        r.status == 400,
        r.text@ == "Failed to read request body"@,
{
    TextReply { status: 400, text: String::from_str("Failed to read request body") }
}

/// The answer when the plugin that accepted a request failed: 500.
pub fn plugin_failure() -> (r: TextReply)
    ensures
        r.status == 500,
        r.text@ == "Plugin error"@,
{
    TextReply { status: 500, text: String::from_str("Plugin error") }
}

/// The answer for a plugin's result: its response, or the plugin-failure answer.
pub fn plugin_reply(result: std::result::Result<PluginResponse, InterposerError>) -> (r: std::result::Result<PluginResponse, TextReply>)
    ensures
        match result {
            Ok(resp) => r == Ok::<PluginResponse, TextReply>(resp),
            Err(_) => r matches Err(t) && t.status == 500 && t.text@ == "Plugin error"@,
        },
{
    match result {
        Ok(resp) => Ok(resp),
        Err(_) => Err(plugin_failure()),
    }
}

/// Internal error type for proxy operations
pub enum ProxyError {
    UpstreamError(String),
}

impl ProxyError {
    /// The error's text: `Upstream error: ` and the message.
    pub fn message(&self) -> (r: String)
        ensures
            r@ == match self {
                ProxyError::UpstreamError(m) => "Upstream error: "@ + m@,
            },
    {
        match self {
            ProxyError::UpstreamError(m) => {
                let mut s = String::from_str("Upstream error: ");
                s.append(m.as_str());
                s
            },
        }
    }
}

/// Convert proxy errors to HTTP responses: 502 with the upstream's message.
pub fn error_response(error: ProxyError) -> (r: TextReply)
    ensures
        match error {
            ProxyError::UpstreamError(m) => r.status == 502 && r.text == m,
        },
{
    match error {
        ProxyError::UpstreamError(msg) => TextReply { status: 502, text: msg },
    }
}

/// The label under which a request's duration is recorded: whether a plugin answered it.
pub fn intercepted_label(intercepted: bool) -> (r: &'static str)
    ensures
        r@ == if intercepted { "true"@ } else { "false"@ },
{
    if intercepted { "true" } else { "false" }
}


/// A forwarded request keeps its headers as they came, in order; only when injection is on
/// and the client's process is known are the five process headers appended after them, the
/// uid and pid written in decimal so that they read back as the process's own.
pub proof fn lemma_forwarded_headers(headers: Seq<(Seq<char>, Seq<char>)>, inject: bool, info: Option<ProcessInfo>)
    ensures
        !(inject && info is Some) ==> upstream_headers_spec(headers, inject, info) == headers,
        inject && info is Some ==> ({
            let i = info->0;
            let r = upstream_headers_spec(headers, inject, info);
            let n = headers.len() as int;
            &&& r.len() == n + 5
            &&& r.take(n) == headers
            &&& r[n].0 == "X-Forwarded-Uid"@ && parse_unsigned(r[n].1, u32::MAX as nat) == Some(
                i.uid as nat,
            )
            &&& r[n + 1] == ("X-Forwarded-Username"@, i.username@)
            &&& r[n + 2].0 == "X-Forwarded-Pid"@ && parse_unsigned(r[n + 2].1, u32::MAX as nat) == Some(
                i.pid as nat,
            )
            &&& r[n + 3] == ("X-Forwarded-Process-Name"@, i.executable@)
            &&& r[n + 4] == ("X-Forwarded-Process-Args"@, i.cmdline@)
        }),
{
    if inject && info is Some {
        let i = info->0;
        let r = upstream_headers_spec(headers, inject, info);
        let n = headers.len() as int;
        assert(r.take(n) == headers);
        crate::text::lemma_parse_dec(i.uid as nat, u32::MAX as nat);
        crate::text::lemma_parse_dec(i.pid as nat, u32::MAX as nat);
    }
}

} // verus!
