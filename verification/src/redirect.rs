//! Decisions of the eBPF redirection: which address is intercepted, whether a connection is
//! redirected to the proxy, and which ptrace requests of the proxy are refused.
use vstd::prelude::*;
use vstd::string::*;
use crate::error::InterposerError;
use crate::paths::{debug_quoted, debug_text};
use crate::text::{
    chars_of, dec, decimal_string, eq_str, is_ascii_digit, lemma_dec_digits, lemma_parse_dec,
    lemma_split_char_single, lemma_split_char_step, parse_unsigned, parse_unsigned_chars, split_char,
    split_chars, split_whitespace_chars, string_of, words,
};

verus! {

/// The value of a little-endian IPv4 word whose bytes are the address's four octets in order.
pub open spec fn ipv4_word(a: nat, b: nat, c: nat, d: nat) -> nat {
    a + b * 256 + c * 65536 + d * 16777216
}

/// Why `s` is no dotted-quad IPv4 address, or its little-endian word: four `.`-separated parts,
/// each parsed as a `u8`.
pub open spec fn ipv4_parse(s: Seq<char>) -> std::result::Result<nat, Seq<char>> {
    let parts = split_char(s, '.');
    if parts.len() != 4 {
        Err("Invalid IPv4 address: "@ + s + ". Expected format: x.x.x.x"@)
    } else if parse_unsigned(parts[0], 255) is None {
        Err("Invalid IPv4 octet in address "@ + s + ": "@ + parts[0])
    } else if parse_unsigned(parts[1], 255) is None {
        Err("Invalid IPv4 octet in address "@ + s + ": "@ + parts[1])
    } else if parse_unsigned(parts[2], 255) is None {
        Err("Invalid IPv4 octet in address "@ + s + ": "@ + parts[2])
    } else if parse_unsigned(parts[3], 255) is None {
        Err("Invalid IPv4 octet in address "@ + s + ": "@ + parts[3])
    } else {
        Ok(
            ipv4_word(
                parse_unsigned(parts[0], 255)->0,
                parse_unsigned(parts[1], 255)->0,
                parse_unsigned(parts[2], 255)->0,
                parse_unsigned(parts[3], 255)->0,
            ),
        )
    }
}

fn octet_error(ip_str: &str, part: &Vec<char>) -> (r: InterposerError)
    ensures
        r matches InterposerError::Config(m) && m@ == "Invalid IPv4 octet in address "@ + ip_str@ + ": "@ + part@,
{
    let mut m = String::from_str("Invalid IPv4 octet in address ");
    m.append(ip_str);
    m.append(": ");
    let p = string_of(part.as_slice());
    m.append(p.as_str());
    InterposerError::Config(m)
}

/// Parse IPv4 address string to u32 in little-endian format for eBPF: the first octet is the
/// lowest byte.
pub fn parse_ipv4_to_u32(ip_str: &str) -> (r: std::result::Result<u32, InterposerError>)
    ensures
        match (r, ipv4_parse(ip_str@)) {
            (Ok(a), Ok(b)) => a as nat == b,
            (Err(InterposerError::Config(a)), Err(b)) => a@ == b,
            _ => false,
        },
{
    let chars = chars_of(ip_str);
    let parts = split_chars(chars.as_slice(), '.');
    let ghost sp = split_char(ip_str@, '.');
    if parts.len() != 4 {
        let mut m = String::from_str("Invalid IPv4 address: ");
        m.append(ip_str);
        m.append(". Expected format: x.x.x.x");
        return Err(InterposerError::Config(m));
    }
    assert(parts@[0]@ == sp[0] && parts@[1]@ == sp[1] && parts@[2]@ == sp[2] && parts@[3]@ == sp[3]);
    let a = match parse_unsigned_chars(parts[0].as_slice(), 255) {
        Some(v) => v,
        None => {
            return Err(octet_error(ip_str, &parts[0]));
        },
    };
    let b = match parse_unsigned_chars(parts[1].as_slice(), 255) {
        Some(v) => v,
        None => {
            return Err(octet_error(ip_str, &parts[1]));
        },
    };
    let c = match parse_unsigned_chars(parts[2].as_slice(), 255) {
        Some(v) => v,
        None => {
            return Err(octet_error(ip_str, &parts[2]));
        },
    };
    let d = match parse_unsigned_chars(parts[3].as_slice(), 255) {
        Some(v) => v,
        None => {
            return Err(octet_error(ip_str, &parts[3]));
        },
    };
    let ip: u32 = (a as u32) + (b as u32) * 256 + (c as u32) * 65536 + (d as u32) * 16777216;
    Ok(ip)
}

/// The address the eBPF program intercepts: 0 (every address) in IP-agnostic mode, when the
/// target address is empty or `0.0.0.0`, otherwise the parsed address.
pub fn ebpf_target_ip(target_address: &str) -> (r: std::result::Result<u32, InterposerError>)
    ensures
        target_address@.len() == 0 || target_address@ == "0.0.0.0"@ ==> r == Ok::<u32, InterposerError>(0),
        !(target_address@.len() == 0 || target_address@ == "0.0.0.0"@) ==> match (r, ipv4_parse(target_address@)) {
            (Ok(a), Ok(b)) => a as nat == b,
            (Err(InterposerError::Config(a)), Err(b)) => a@ == b,
            _ => false,
        },
{
    if target_address.is_empty() || eq_str(target_address, "0.0.0.0") {
        Ok(0)
    } else {
        parse_ipv4_to_u32(target_address)
    }
}

/// What the redirection program's maps are filled with: the proxy's own process id (its
/// connections are never redirected), the intercepted address (0: every address) and port,
/// and the port the proxy listens on.
#[derive(Debug, Clone, Copy, PartialEq, Eq, Structural)]
pub struct EbpfMapPlan {
    pub proxy_pid: u32,
    pub target_ip: u32,
    pub target_port: u32,
    pub proxy_port: u32,
}

/// The map contents for intercepting `target_address`:`target_port` and redirecting to the
/// proxy (process `pid`) on `bind_port`; fails when the target address is no IPv4 address.
pub fn ebpf_map_plan(target_address: &str, target_port: u16, bind_port: u16, pid: u32) -> (r: std::result::Result<EbpfMapPlan, InterposerError>)
    ensures
        match r {
            Ok(plan) => plan.proxy_pid == pid && plan.target_port == target_port as u32 && plan.proxy_port
                == bind_port as u32 && (if target_address@.len() == 0 || target_address@ == "0.0.0.0"@ {
                plan.target_ip == 0
            } else {
                ipv4_parse(target_address@) == Ok::<nat, Seq<char>>(plan.target_ip as nat)
            }),
            Err(InterposerError::Config(m)) => !(target_address@.len() == 0 || target_address@ == "0.0.0.0"@)
                && ipv4_parse(target_address@) == Err::<nat, Seq<char>>(m@),
            Err(_) => false,
        },
{
    let target_ip = match ebpf_target_ip(target_address) {
        Ok(ip) => ip,
        Err(e) => {
            return Err(e);
        },
    };
    Ok(EbpfMapPlan { proxy_pid: pid, target_ip, target_port: target_port as u32, proxy_port: bind_port as u32 })
}

/// The error when the cgroup to attach to does not exist.
pub fn cgroup_missing_error(cgroup_path: &str) -> (r: InterposerError)
    ensures
        r matches InterposerError::CgroupNotFound(m) && m@ == "Cgroup path does not exist: "@ + debug_text(
            cgroup_path@,
        ),
{
    let mut m = String::from_str("Cgroup path does not exist: ");
    let d = debug_quoted(cgroup_path);
    m.append(d.as_str());
    InterposerError::CgroupNotFound(m)
}

/// Whether `needle` occurs in `s`.
pub open spec fn occurs_in(needle: Seq<char>, s: Seq<char>) -> bool {
    exists|i: int| 0 <= i && i + needle.len() <= s.len() && #[trigger] s.subrange(i, i + needle.len()) == needle
}

fn occurs_in_chars(needle: &[char], s: &[char]) -> (r: bool)
    ensures
        r == occurs_in(needle@, s@),
{
    if needle.len() > s.len() {
        return false;
    }
    let last = s.len() - needle.len();
    let mut i: usize = 0;
    while i <= last
        invariant
            last == s@.len() - needle@.len(),
            needle@.len() <= s@.len(),
            s@.len() == s.len(),
            i <= last + 1,
            forall|j: int| 0 <= j < i ==> #[trigger] s@.subrange(j, j + needle@.len()) != needle@,
        decreases last + 1 - i,
    {
        let mut k: usize = 0;
        let mut same = true;
        while k < needle.len()
            invariant
                k <= needle@.len(),
                i <= last,
                last == s@.len() - needle@.len(),
                needle@.len() <= s@.len(),
                s@.len() == s.len(),
                needle@.len() == needle.len(),
                same == (forall|m: int| 0 <= m < k ==> s@[i + m] == needle@[m]),
            decreases needle@.len() - k,
        {
            if s[i + k] != needle[k] {
                same = false;
            }
            k = k + 1;
        }
        if same {
            assert(s@.subrange(i as int, i + needle@.len()) =~= needle@);
            return true;
        }
        assert(s@.subrange(i as int, i + needle@.len()) != needle@) by {
            let m = choose|m: int| 0 <= m < needle@.len() && s@[i + m] != needle@[m];
            assert(s@.subrange(i as int, i + needle@.len())[m] != needle@[m]);
        }
        i = i + 1;
    }
    proof {
        assert forall|j: int| 0 <= j && j + needle@.len() <= s@.len() implies #[trigger] s@.subrange(
            j,
            j + needle@.len(),
        ) != needle@ by {}
    }
    false
}

/// Whether the ptrace-restricting hook is loaded: only with CAP_SYS_ADMIN, and only when the
/// kernel's list of security modules (`None` when it could not be read) names `bpf`.
pub open spec fn lsm_hook_wanted_spec(has_sys_admin: bool, lsm_list: Option<Seq<char>>) -> bool {
    has_sys_admin && (lsm_list matches Some(l) && occurs_in("bpf"@, l))
}

/// Whether the ptrace-restricting hook is loaded (see `lsm_hook_wanted_spec`).
pub fn lsm_hook_wanted(has_sys_admin: bool, lsm_list: Option<&str>) -> (r: bool)
    ensures
        r == lsm_hook_wanted_spec(
            has_sys_admin,
            match lsm_list {
                Some(l) => Some(l@),
                None => None,
            },
        ),
{
    if !has_sys_admin {
        return false;
    }
    match lsm_list {
        None => false,
        Some(l) => {
            let text = chars_of(l);
            let needle = chars_of("bpf");
            occurs_in_chars(needle.as_slice(), text.as_slice())
        },
    }
}

/// The kernel version `/proc/version` names: the third whitespace-separated word split at `.`,
/// major and minor each parsed as a `u32` (0 when absent or unparsable; `0.0.0` when the word
/// is missing).
pub open spec fn kernel_version(version: Seq<char>) -> (nat, nat) {
    let w = words(version);
    let word = if w.len() > 2 { w[2] } else { "0.0.0"@ };
    let parts = split_char(word, '.');
    let major = match parse_unsigned(parts[0], 4294967295) {
        Some(v) => v,
        None => 0,
    };
    let minor = if parts.len() > 1 {
        match parse_unsigned(parts[1], 4294967295) {
            Some(v) => v,
            None => 0,
        }
    } else {
        0
    };
    (major, minor)
}

/// Whether a kernel supports cgroup socket-address programs (4.17 or newer).
pub open spec fn kernel_supported(major: nat, minor: nat) -> bool {
    !(major < 4 || (major == 4 && minor < 17))
}

/// Parses the kernel version from the text of `/proc/version`.
pub fn parse_kernel_version(version_str: &str) -> (r: (u32, u32))
    ensures
        (r.0 as nat, r.1 as nat) == kernel_version(version_str@),
{
    let chars = chars_of(version_str);
    let w = split_whitespace_chars(chars.as_slice());
    let word: Vec<char> = if w.len() > 2 {
        crate::text::vec_clone_chars(&w[2])
    } else {
        chars_of("0.0.0")
    };
    let parts = split_chars(word.as_slice(), '.');
    proof {
        crate::text::lemma_split_char_nonempty(word@, '.');
    }
    let major: u32 = match parse_unsigned_chars(parts[0].as_slice(), 4294967295) {
        Some(v) => v as u32,
        None => 0,
    };
    let minor: u32 = if parts.len() > 1 {
        match parse_unsigned_chars(parts[1].as_slice(), 4294967295) {
            Some(v) => v as u32,
            None => 0,
        }
    } else {
        0
    };
    (major, minor)
}

/// Checks that the kernel (as `/proc/version` describes it) is 4.17 or newer.
pub fn check_kernel_version(version_str: &str) -> (r: std::result::Result<(u32, u32), InterposerError>)
    ensures
        r matches Ok(v) ==> (v.0 as nat, v.1 as nat) == kernel_version(version_str@) && kernel_supported(
            v.0 as nat,
            v.1 as nat,
        ),
        r is Err <==> !kernel_supported(kernel_version(version_str@).0, kernel_version(version_str@).1),
        r matches Err(e) ==> e matches InterposerError::EbpfNotSupported(m) && m@ == "Kernel version "@
            + dec(kernel_version(version_str@).0) + "."@ + dec(kernel_version(version_str@).1)
            + " is too old. eBPF cgroup socket redirection requires kernel 4.17 or newer"@,
{
    let (major, minor) = parse_kernel_version(version_str);
    if major < 4 || (major == 4 && minor < 17) {
        let mut m = String::from_str("Kernel version ");
        let a = decimal_string(major as u64);
        m.append(a.as_str());
        m.append(".");
        let b = decimal_string(minor as u64);
        m.append(b.as_str());
        m.append(" is too old. eBPF cgroup socket redirection requires kernel 4.17 or newer");
        return Err(InterposerError::EbpfNotSupported(m));
    }
    Ok((major, minor))
}

/// A 16-bit value with its two bytes exchanged: the network byte order of a port as a
/// little-endian machine (where eBPF programs run) stores it.
pub open spec fn swap16(x: nat) -> nat {
    (x % 256) * 256 + (x / 256) % 256
}

fn swap_u16(x: u32) -> (r: u32)
    requires
        x < 65536,
    ensures
        r as nat == swap16(x as nat),
        r < 65536,
{
    (x % 256) * 256 + (x / 256) % 256
}

/// The address the IPv4 hook intercepts when none is configured: 169.254.169.254.
pub open spec fn default_intercept_ip() -> u32 {
    0xFEA9FEA9
}

/// 127.0.0.1 as a little-endian machine stores it in network byte order.
pub open spec fn loopback_v4() -> u32 {
    0x0100007F
}

/// Whether an IPv4 connection to `user_ip`:`user_port` (both as the socket stores them, in
/// network byte order) goes to the intercepted target: any address when `target_ip` is 0.
pub open spec fn intercepts_v4(target_ip: u32, target_port: nat, user_ip: u32, user_port: u32) -> bool {
    let port_matches = (user_port as nat % 65536) == swap16(target_port % 65536);
    if target_ip == 0 {
        port_matches
    } else {
        user_ip == target_ip && port_matches
    }
}

/// The rewrite the IPv4 connect hook makes: the process `pid` connecting to
/// `user_ip`:`user_port`; `proxy_pid`, `target_ip`, `target_port` and `proxy_port` are what the
/// hook's maps hold (absent entries take the defaults 169.254.169.254, 80 and 8080). `None`
/// leaves the connection alone; `Some((ip, port))` sends it to the proxy on 127.0.0.1.
pub open spec fn connect4_rewrite(
    pid: u32,
    proxy_pid: Option<u32>,
    target_ip: Option<u32>,
    target_port: Option<u32>,
    proxy_port: Option<u32>,
    user_ip: u32,
    user_port: u32,
) -> Option<(u32, u32)> {
    if proxy_pid == Some(pid) {
        None
    } else {
        let tip = match target_ip {
            Some(t) => t,
            None => default_intercept_ip(),
        };
        let tport = match target_port {
            Some(t) => t as nat,
            None => 80,
        };
        let pport = match proxy_port {
            Some(p) => p as nat,
            None => 8080,
        };
        if intercepts_v4(tip, tport, user_ip, user_port) {
            Some((loopback_v4(), swap16(pport % 65536) as u32))
        } else {
            None
        }
    }
}

/// Decides the IPv4 connect hook's rewrite (see `connect4_rewrite`).
pub fn redirect_connect4_decision(
    pid: u32,
    proxy_pid: Option<u32>,
    target_ip: Option<u32>,
    target_port: Option<u32>,
    proxy_port: Option<u32>,
    user_ip: u32,
    user_port: u32,
) -> (r: Option<(u32, u32)>)
    ensures
        r == connect4_rewrite(pid, proxy_pid, target_ip, target_port, proxy_port, user_ip, user_port),
{
    match proxy_pid {
        Some(p) => {
            if p == pid {
                return None;
            }
        },
        None => {},
    }
    let tip = match target_ip {
        Some(t) => t,
        None => 0xFEA9FEA9u32,
    };
    let tport = match target_port {
        Some(t) => t,
        None => 80u32,
    };
    let pport = match proxy_port {
        Some(p) => p,
        None => 8080u32,
    };
    let wanted = swap_u16(tport % 65536);
    let port_matches = user_port % 65536 == wanted;
    let intercept = if tip == 0 {
        port_matches
    } else {
        user_ip == tip && port_matches
    };
    if intercept {
        Some((0x0100007Fu32, swap_u16(pport % 65536)))
    } else {
        None
    }
}

/// The rewrite the IPv6 connect hook makes: only the port is compared (every address is
/// intercepted); `Some((words, port))` sends the connection to the proxy on ::1, whose last
/// word is 1 in network byte order.
pub open spec fn connect6_rewrite(
    pid: u32,
    proxy_pid: Option<u32>,
    target_port: Option<u32>,
    proxy_port: Option<u32>,
    user_port: u32,
) -> Option<([u32; 4], u32)> {
    if proxy_pid == Some(pid) {
        None
    } else {
        let tport = match target_port {
            Some(t) => t as nat,
            None => 80,
        };
        let pport = match proxy_port {
            Some(p) => p as nat,
            None => 8080,
        };
        if (user_port as nat % 65536) == swap16(tport % 65536) {
            Some(([0u32, 0u32, 0u32, 0x01000000u32], swap16(pport % 65536) as u32))
        } else {
            None
        }
    }
}

/// Decides the IPv6 connect hook's rewrite (see `connect6_rewrite`).
pub fn redirect_connect6_decision(
    pid: u32,
    proxy_pid: Option<u32>,
    target_port: Option<u32>,
    proxy_port: Option<u32>,
    user_port: u32,
) -> (r: Option<([u32; 4], u32)>)
    ensures
        r == connect6_rewrite(pid, proxy_pid, target_port, proxy_port, user_port),
{
    match proxy_pid {
        Some(p) => {
            if p == pid {
                return None;
            }
        },
        None => {},
    }
    let tport = match target_port {
        Some(t) => t,
        None => 80u32,
    };
    let pport = match proxy_port {
        Some(p) => p,
        None => 8080u32,
    };
    if user_port % 65536 == swap_u16(tport % 65536) {
        Some(([0u32, 0u32, 0u32, 0x01000000u32], swap_u16(pport % 65536)))
    } else {
        None
    }
}

/// The LSM hook's answer to a ptrace access check by process `current_pid` with `mode`: the
/// proxy (`proxy_pid`) may not attach (mode bit 0x02), answered -1; everything else is allowed,
/// answered 0.
pub open spec fn ptrace_verdict(current_pid: u32, proxy_pid: Option<u32>, mode: u32) -> i32 {
    match proxy_pid {
        None => 0i32,
        Some(p) => if current_pid != p {
            0i32
        } else if (mode / 2) % 2 == 1 {
            -1i32
        } else {
            0i32
        },
    }
}

/// Decides the LSM ptrace hook's answer (see `ptrace_verdict`).
pub fn restrict_ptrace_decision(current_pid: u32, proxy_pid: Option<u32>, mode: u32) -> (r: i32)
    ensures
        r == ptrace_verdict(current_pid, proxy_pid, mode),
{
    match proxy_pid {
        None => 0,
        Some(p) => {
            if current_pid != p {
                return 0;
            }
            let attach = mode & 2u32;
            assert((attach != 0) == ((mode / 2) % 2 == 1)) by (bit_vector)
                requires
                    attach == mode & 2u32,
            ;
            if attach != 0 {
                -1
            } else {
                0
            }
        },
    }
}


/// The dotted-quad text of the address with octets `a`, `b`, `c`, `d`.
pub open spec fn dotted_quad(a: u8, b: u8, c: u8, d: u8) -> Seq<char> {
    dec(a as nat) + "."@ + dec(b as nat) + "."@ + dec(c as nat) + "."@ + dec(d as nat)
}

proof fn lemma_dec_no_dot(n: nat)
    ensures
        forall|i: int| 0 <= i < dec(n).len() ==> dec(n)[i] != '.',
{
    lemma_dec_digits(n);
    assert forall|i: int| 0 <= i < dec(n).len() implies dec(n)[i] != '.' by {
        assert(is_ascii_digit(dec(n)[i]));
    }
}

/// Parsing reads back the dotted-quad text of any address: its octets, lowest byte first.
pub proof fn lemma_parse_dotted_quad(a: u8, b: u8, c: u8, d: u8)
    ensures
        ipv4_parse(dotted_quad(a, b, c, d)) == Ok::<nat, Seq<char>>(
            ipv4_word(a as nat, b as nat, c as nat, d as nat),
        ),
{
    reveal_strlit(".");
    let (da, db, dc, dd) = (dec(a as nat), dec(b as nat), dec(c as nat), dec(d as nat));
    lemma_dec_no_dot(a as nat);
    lemma_dec_no_dot(b as nat);
    lemma_dec_no_dot(c as nat);
    lemma_dec_no_dot(d as nat);
    lemma_split_char_single(da, '.');
    lemma_split_char_step(da, db, '.');
    lemma_split_char_step(da.push('.') + db, dc, '.');
    lemma_split_char_step((da.push('.') + db).push('.') + dc, dd, '.');
    assert(dotted_quad(a, b, c, d) =~= ((da.push('.') + db).push('.') + dc).push('.') + dd);
    let parts = split_char(dotted_quad(a, b, c, d), '.');
    assert(parts =~= seq![da, db, dc, dd]);
    lemma_parse_dec(a as nat, 255);
    lemma_parse_dec(b as nat, 255);
    lemma_parse_dec(c as nat, 255);
    lemma_parse_dec(d as nat, 255);
}

/// The proxy's own connections are never redirected, over IPv4 or IPv6.
pub proof fn lemma_proxy_never_redirected(
    pid: u32,
    target_ip: Option<u32>,
    target_port: Option<u32>,
    proxy_port: Option<u32>,
    user_ip: u32,
    user_port: u32,
)
    ensures
        connect4_rewrite(pid, Some(pid), target_ip, target_port, proxy_port, user_ip, user_port) is None,
        connect6_rewrite(pid, Some(pid), target_port, proxy_port, user_port) is None,
{
}

/// A redirected IPv4 connection goes to the proxy: 127.0.0.1 on the proxy's port (8080 when
/// none is configured), in network byte order.
pub proof fn lemma_redirect_targets_proxy(
    pid: u32,
    proxy_pid: Option<u32>,
    target_ip: Option<u32>,
    target_port: Option<u32>,
    proxy_port: Option<u32>,
    user_ip: u32,
    user_port: u32,
)
    ensures
        connect4_rewrite(pid, proxy_pid, target_ip, target_port, proxy_port, user_ip, user_port) matches Some(
            (ip, port),
        ) ==> ip == loopback_v4() && port as nat == swap16(
            match proxy_port {
                Some(p) => p as nat % 65536,
                None => 8080,
            },
        ),
{
}

/// In IP-agnostic mode (target address 0) the destination address plays no part: connections
/// to every address on the target port are treated alike.
pub proof fn lemma_ip_agnostic_ignores_address(
    pid: u32,
    proxy_pid: Option<u32>,
    target_port: Option<u32>,
    proxy_port: Option<u32>,
    ip_a: u32,
    ip_b: u32,
    user_port: u32,
)
    ensures
        connect4_rewrite(pid, proxy_pid, Some(0u32), target_port, proxy_port, ip_a, user_port)
            == connect4_rewrite(pid, proxy_pid, Some(0u32), target_port, proxy_port, ip_b, user_port),
{
}

/// The ptrace hook restricts only the proxy: any other process is always allowed.
pub proof fn lemma_ptrace_only_restricts_proxy(current_pid: u32, proxy_pid: Option<u32>, mode: u32)
    requires
        proxy_pid != Some(current_pid),
    ensures
        ptrace_verdict(current_pid, proxy_pid, mode) == 0,
{
}


/// An IPv4 connection is redirected exactly when it is not the proxy's own, its address is the
/// target (any address when the target is 0; 169.254.169.254 when none is configured), and its
/// port, as the socket stores it, is the target port (80 when none is configured) in network
/// byte order in all 16 bits: high byte first, so the low byte of the stored value is the
/// port's high byte.
pub proof fn lemma_connect4_redirects_exactly_target(
    pid: u32,
    proxy_pid: Option<u32>,
    target_ip: Option<u32>,
    target_port: Option<u32>,
    proxy_port: Option<u32>,
    user_ip: u32,
    user_port: u32,
)
    ensures
        ({
            let tip: u32 = match target_ip {
                Some(t) => t,
                None => 0xFEA9FEA9u32,
            };
            let tp: int = match target_port {
                Some(t) => t as int % 65536,
                None => 80,
            };
            connect4_rewrite(pid, proxy_pid, target_ip, target_port, proxy_port, user_ip, user_port) is Some
                <==> (proxy_pid != Some(pid) && (tip == 0 || user_ip == tip) && user_port as int
                % 256 == tp / 256 && (user_port as int / 256) % 256 == tp % 256)
        }),
{
}

/// An IPv6 connection is redirected exactly when it is not the proxy's own and its port, as
/// the socket stores it, is the target port (80 when none is configured) in network byte order
/// in all 16 bits.
pub proof fn lemma_connect6_redirects_exactly_target(
    pid: u32,
    proxy_pid: Option<u32>,
    target_port: Option<u32>,
    proxy_port: Option<u32>,
    user_port: u32,
)
    ensures
        ({
            let tp: int = match target_port {
                Some(t) => t as int % 65536,
                None => 80,
            };
            connect6_rewrite(pid, proxy_pid, target_port, proxy_port, user_port) is Some <==> (
            proxy_pid != Some(pid) && user_port as int % 256 == tp / 256 && (user_port as int / 256)
                % 256 == tp % 256)
        }),
{
}


/// Kernel 4.17 is the oldest supported: a version is supported exactly when it is 4.17 or
/// newer, comparing the major version first and the minor one within it.
pub proof fn lemma_kernel_supported_from_4_17(major: nat, minor: nat)
    ensures
        kernel_supported(major, minor) <==> (major > 4 || (major == 4 && minor >= 17)),
{
}

/// With CAP_SYS_ADMIN, the ptrace hook is loaded whenever the kernel's LSM list names `bpf`
/// anywhere in it; without CAP_SYS_ADMIN, or without a readable list, it never is.
pub proof fn lemma_lsm_hook_when_bpf_listed(before: Seq<char>, after: Seq<char>, has_sys_admin: bool)
    ensures
        lsm_hook_wanted_spec(has_sys_admin, Some(before + "bpf"@ + after)) == has_sys_admin,
        !lsm_hook_wanted_spec(false, Some(before + "bpf"@ + after)),
        !lsm_hook_wanted_spec(has_sys_admin, None),
{
    let l = before + "bpf"@ + after;
    let i = before.len() as int;
    assert(l.subrange(i, i + "bpf"@.len()) == "bpf"@);
}


/// For the proxy itself, exactly the requests with the attach bit (PTRACE_MODE_ATTACH, 0x02)
/// are refused: read-only access, such as /proc needs, stays allowed.
pub proof fn lemma_proxy_attach_refused(proxy: u32, mode: u32)
    ensures
        ptrace_verdict(proxy, Some(proxy), mode) == (if mode & 2u32 != 0 {
            -1i32
        } else {
            0i32
        }),
{
    assert((mode & 2u32 != 0) == ((mode / 2) % 2 == 1)) by (bit_vector);
}

} // verus!
