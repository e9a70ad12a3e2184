//! Finding the process behind a client connection in /proc: reading the kernel's tables and
//! files, and the cache of what was found. The files themselves are read by the caller.
use vstd::prelude::*;
use vstd::string::*;
use std::collections::HashMap;
use crate::error::InterposerError;
use crate::process::ProcessInfo;
use crate::text::{
    chars_of, dec, decimal_string, eq_chars, is_prefix_chars, lemma_parse_dec, lines, lines_chars,
    opt_u64_nat, parse_unsigned, parse_unsigned_chars, split_whitespace_chars,
    string_of, subrange_chars, trim, trim_chars, utf8_lossy, utf8_lossy_string, words,
};

verus! {

broadcast use vstd::std_specs::hash::group_hash_axioms;

// ---------------------------------------------------------------------------
// Socket links in /proc/<pid>/fd
// ---------------------------------------------------------------------------

/// The target of a file-descriptor link in /proc for the socket with inode `inode`.
pub open spec fn socket_link(inode: nat) -> Seq<char> {
    "socket:["@ + dec(inode) + "]"@
}

/// The socket inode a file-descriptor link names: `socket:[N]` with `N` a `u64`.
pub open spec fn socket_inode(link: Seq<char>) -> Option<nat> {
    if "socket:["@.is_prefix_of(link) && link.len() > 0 && link.last() == ']' {
        parse_unsigned(link.subrange(8, link.len() - 1), u64::MAX as nat)
    } else {
        None
    }
}

/// The socket inode named by a file-descriptor link, if it names one.
pub fn socket_inode_from_link(link: &str) -> (r: Option<u64>)
    ensures
        opt_u64_nat(r) == socket_inode(link@),
{
    let t = chars_of(link);
    let prefix = chars_of("socket:[");
    proof {
        reveal_strlit("socket:[");
    }
    if !is_prefix_chars(prefix.as_slice(), t.as_slice()) || t.len() == 0 || t[t.len() - 1] != ']' {
        return None;
    }
    assert(t@.subrange(0, 8) == prefix@);
    assert(t@[7] == t@.subrange(0, 8)[7]);
    let inner = subrange_chars(t.as_slice(), 8, t.len() - 1);
    parse_unsigned_chars(inner.as_slice(), u64::MAX)
}

/// Whether a file-descriptor link is the one of the socket with inode `inode`.
pub fn is_socket_link_for(link: &str, inode: u64) -> (r: bool)
    ensures
        r == (link@ == socket_link(inode as nat)),
{
    let mut expected = String::from_str("socket:[");
    let digits = decimal_string(inode);
    expected.append(digits.as_str());
    expected.append("]");
    let a = chars_of(link);
    let b = chars_of(expected.as_str());
    eq_chars(a.as_slice(), b.as_slice())
}

/// The link of a socket names that socket's inode again.
pub proof fn lemma_socket_link_round_trip(inode: u64)
    ensures
        socket_inode(socket_link(inode as nat)) == Some(inode as nat),
{
    let d = dec(inode as nat);
    let l = socket_link(inode as nat);
    reveal_strlit("socket:[");
    reveal_strlit("]");
    lemma_parse_dec(inode as nat, u64::MAX as nat);
    assert("socket:["@.is_prefix_of(l)) by {
        assert(l.take(8) =~= "socket:["@);
    }
    assert(l.subrange(8, l.len() - 1) =~= d);
}

// ---------------------------------------------------------------------------
// Entries of /proc and /proc/<pid>/status
// ---------------------------------------------------------------------------

/// The process id an entry of /proc names, when its name is a `u32`.
pub fn pid_from_dir_name(name: &str) -> (r: Option<u32>)
    ensures
        match r {
            Some(p) => parse_unsigned(name@, u32::MAX as nat) == Some(p as nat),
            None => parse_unsigned(name@, u32::MAX as nat) is None,
        },
{
    let t = chars_of(name);
    match parse_unsigned_chars(t.as_slice(), u32::MAX as u64) {
        Some(v) => Some(v as u32),
        None => None,
    }
}

/// The uid a /proc status file gives from line `i` on: the first line that starts with `Uid:`
/// and has a second field decides, by that field read as a `u32`.
pub open spec fn status_uid_from(ls: Seq<Seq<char>>, i: int) -> Option<nat>
    decreases ls.len() - i,
{
    if i < 0 || i >= ls.len() {
        None
    } else if "Uid:"@.is_prefix_of(ls[i]) && words(ls[i]).len() >= 2 {
        parse_unsigned(words(ls[i])[1], u32::MAX as nat)
    } else {
        status_uid_from(ls, i + 1)
    }
}

/// The uid of the process whose /proc status file reads `content`.
pub fn uid_from_status(content: &str) -> (r: Option<u32>)
    ensures
        match r {
            Some(u) => status_uid_from(lines(content@), 0) == Some(u as nat),
            None => status_uid_from(lines(content@), 0) is None,
        },
{
    let t = chars_of(content);
    let ls = lines_chars(t.as_slice());
    let ghost lsv = lines(t@);
    let prefix = chars_of("Uid:");
    let n = ls.len();
    let mut i: usize = 0;
    while i < n
        invariant
            i <= n,
            n == ls@.len(),
            n == lsv.len(),
            lsv == lines(content@),
            prefix@ == "Uid:"@,
            forall|k: int| 0 <= k < n ==> #[trigger] ls@[k]@ == lsv[k],
            status_uid_from(lsv, 0) == status_uid_from(lsv, i as int),
        decreases n - i,
    {
        if is_prefix_chars(prefix.as_slice(), ls[i].as_slice()) {
            let parts = split_whitespace_chars(ls[i].as_slice());
            if parts.len() >= 2 {
                return match parse_unsigned_chars(parts[1].as_slice(), u32::MAX as u64) {
                    Some(v) => Some(v as u32),
                    None => None,
                };
            }
        }
        i = i + 1;
    }
    None
}

// ---------------------------------------------------------------------------
// The TCP tables /proc/net/tcp and /proc/net/tcp6
// ---------------------------------------------------------------------------

/// The address of the peer of a TCP connection.
#[derive(Debug, Clone, Copy)]
pub enum PeerAddr {
    V4 { octets: [u8; 4], port: u16 },
    V6 { segments: [u16; 8], port: u16 },
}

/// The upper-case hexadecimal digit for a value below sixteen.
pub open spec fn hex_digit(d: nat) -> char {
    if d < 10 {
        (d + 48) as char
    } else {
        (d + 55) as char
    }
}

/// The last `width` upper-case hexadecimal digits of `v`: what `{:0W$X}` writes for a value
/// below 16 to the power `width`.
pub open spec fn hex_upper(v: nat, width: nat) -> Seq<char>
    decreases width,
{
    if width == 0 {
        Seq::empty()
    } else {
        hex_upper(v / 16, (width - 1) as nat).push(hex_digit(v % 16))
    }
}

fn hex_chars(v: u64, width: usize) -> (r: Vec<char>)
    ensures
        r@ == hex_upper(v as nat, width as nat),
    decreases width,
{
    if width == 0 {
        return Vec::new();
    }
    let mut r = hex_chars(v / 16, width - 1);
    let d: u8 = (v % 16) as u8;
    let c = if d < 10 { (48u8 + d) as char } else { (55u8 + d) as char };
    r.push(c);
    r
}

fn push_hex(s: &mut Vec<char>, v: u64, width: usize)
    ensures
        final(s)@ == old(s)@ + hex_upper(v as nat, width as nat),
{
    let h = hex_chars(v, width);
    let mut i: usize = 0;
    let ghost s0 = s@;
    while i < h.len()
        invariant
            i <= h@.len(),
            s@ == s0 + h@.take(i as int),
        decreases h@.len() - i,
    {
        s.push(h[i]);
        assert(h@.take(i + 1) == h@.take(i as int).push(h@[i as int]));
        i = i + 1;
    }
    assert(h@.take(h@.len() as int) == h@);
}

/// A 32-bit word with its four bytes in reverse order.
pub open spec fn swap32(w: nat) -> nat {
    (w % 256) * 16777216 + ((w / 256) % 256) * 65536 + ((w / 65536) % 256) * 256 + (w / 16777216)
        % 256
}

/// The 32-bit word a little-endian machine stores for two consecutive 16-bit groups of an
/// IPv6 address, `hi` first: the word `hi:lo` with its bytes reversed.
pub open spec fn v6_word(hi: u16, lo: u16) -> nat {
    swap32(hi as nat * 65536 + lo as nat)
}

fn v6_word_exec(hi: u16, lo: u16) -> (r: u64)
    ensures
        r as nat == v6_word(hi, lo),
{
    let w: u64 = (hi as u64) * 65536 + (lo as u64);
    (w % 256) * 16777216 + ((w / 256) % 256) * 65536 + ((w / 65536) % 256) * 256 + (w / 16777216)
        % 256
}

/// The local-address column under which the kernel's TCP table lists the connection whose
/// local end is `peer`: the address in the kernel's little-endian hexadecimal, a colon, then
/// the port in four hexadecimal digits.
pub open spec fn tcp_table_pattern(peer: PeerAddr) -> Seq<char> {
    match peer {
        PeerAddr::V4 { octets, port } => hex_upper(octets@[3] as nat, 2) + hex_upper(
            octets@[2] as nat,
            2,
        ) + hex_upper(octets@[1] as nat, 2) + hex_upper(octets@[0] as nat, 2) + ":"@ + hex_upper(
            port as nat,
            4,
        ),
        PeerAddr::V6 { segments, port } => hex_upper(v6_word(segments@[0], segments@[1]), 8)
            + hex_upper(v6_word(segments@[2], segments@[3]), 8) + hex_upper(
            v6_word(segments@[4], segments@[5]),
            8,
        ) + hex_upper(v6_word(segments@[6], segments@[7]), 8) + ":"@ + hex_upper(port as nat, 4),
    }
}

/// The file listing the TCP connections of `peer`'s address family.
pub open spec fn tcp_table_file(peer: PeerAddr) -> Seq<char> {
    match peer {
        PeerAddr::V4 { .. } => "/proc/net/tcp"@,
        PeerAddr::V6 { .. } => "/proc/net/tcp6"@,
    }
}

/// The file listing the TCP connections of `peer`'s address family.
pub fn tcp_table_path(peer: &PeerAddr) -> (r: &'static str)
    ensures
        r@ == tcp_table_file(*peer),
{
    match peer {
        PeerAddr::V4 { .. } => "/proc/net/tcp",
        PeerAddr::V6 { .. } => "/proc/net/tcp6",
    }
}

/// The local-address column of `peer`'s connection in the kernel's TCP table.
pub fn tcp_local_address(peer: &PeerAddr) -> (r: String)
    ensures
        r@ == tcp_table_pattern(*peer),
{
    let mut out: Vec<char> = Vec::new();
    let port = match peer {
        PeerAddr::V4 { octets, port } => {
            push_hex(&mut out, octets[3] as u64, 2);
            push_hex(&mut out, octets[2] as u64, 2);
            push_hex(&mut out, octets[1] as u64, 2);
            push_hex(&mut out, octets[0] as u64, 2);
            *port
        },
        PeerAddr::V6 { segments, port } => {
            push_hex(&mut out, v6_word_exec(segments[0], segments[1]), 8);
            push_hex(&mut out, v6_word_exec(segments[2], segments[3]), 8);
            push_hex(&mut out, v6_word_exec(segments[4], segments[5]), 8);
            push_hex(&mut out, v6_word_exec(segments[6], segments[7]), 8);
            *port
        },
    };
    out.push(':');
    push_hex(&mut out, port as u64, 4);
    proof {
        reveal_strlit(":");
    }
    assert(out@ =~= tcp_table_pattern(*peer));
    string_of(out.as_slice())
}

/// The inode of the first connection row of a TCP table, from line `i` on, whose local-address
/// column (the second) is `pattern` and whose inode column (the tenth) reads as a `u64`.
pub open spec fn table_inode_from(ls: Seq<Seq<char>>, pattern: Seq<char>, i: int) -> Option<nat>
    decreases ls.len() - i,
{
    if i < 0 || i >= ls.len() {
        None
    } else {
        let w = words(ls[i]);
        if w.len() > 9 && w[1] == pattern && parse_unsigned(w[9], u64::MAX as nat) is Some {
            parse_unsigned(w[9], u64::MAX as nat)
        } else {
            table_inode_from(ls, pattern, i + 1)
        }
    }
}

/// The socket inode of the connection listed under local address `pattern` in a TCP table
/// whose text is `content` (its first line is the header).
pub open spec fn table_inode(content: Seq<char>, pattern: Seq<char>) -> Option<nat> {
    table_inode_from(lines(content), pattern, 1)
}

/// The socket inode of the connection listed under local address `pattern` in a TCP table.
pub fn inode_in_tcp_table(content: &str, pattern: &str) -> (r: Option<u64>)
    ensures
        opt_u64_nat(r) == table_inode(content@, pattern@),
{
    let t = chars_of(content);
    let ls = lines_chars(t.as_slice());
    let ghost lsv = lines(t@);
    let pat = chars_of(pattern);
    let n = ls.len();
    let mut i: usize = 1;
    while i < n
        invariant
            1 <= i,
            i <= n || n == 0,
            n == ls@.len(),
            n == lsv.len(),
            lsv == lines(content@),
            pat@ == pattern@,
            forall|k: int| 0 <= k < n ==> #[trigger] ls@[k]@ == lsv[k],
            table_inode_from(lsv, pat@, 1) == table_inode_from(lsv, pat@, i as int),
        decreases n - i,
    {
        let w = split_whitespace_chars(ls[i].as_slice());
        if w.len() > 9 && eq_chars(w[1].as_slice(), pat.as_slice()) {
            match parse_unsigned_chars(w[9].as_slice(), u64::MAX) {
                Some(v) => {
                    proof {
                        let wv = words(lsv[i as int]);
                        assert(ls@[i as int]@ == lsv[i as int]);
                        assert(w@[1]@ == wv[1]);
                        assert(w@[9]@ == wv[9]);
                    }
                    return Some(v);
                },
                None => {},
            }
        }
        i = i + 1;
    }
    None
}

// ---------------------------------------------------------------------------
// The process record
// ---------------------------------------------------------------------------

/// The user name of `uid`: the one the system resolved, else the uid in decimal.
pub open spec fn username_or_uid_spec(name: Option<String>, uid: u32) -> Seq<char> {
    match name {
        Some(n) => n@,
        None => dec(uid as nat),
    }
}

/// The user name of `uid`: the one the system resolved, else the uid in decimal.
pub fn username_or_uid(name: Option<String>, uid: u32) -> (r: String)
    ensures
        r@ == username_or_uid_spec(name, uid),
{
    match name {
        Some(n) => n,
        None => decimal_string(uid as u64),
    }
}

/// The executable of process `pid`: the target of its `exe` link, else `<unknown-PID>`.
pub open spec fn executable_or_unknown_spec(link: Option<String>, pid: u32) -> Seq<char> {
    match link {
        Some(l) => l@,
        None => "<unknown-"@ + dec(pid as nat) + ">"@,
    }
}

/// The executable of process `pid`: the target of its `exe` link, else `<unknown-PID>`.
pub fn executable_or_unknown(link: Option<String>, pid: u32) -> (r: String)
    ensures
        r@ == executable_or_unknown_spec(link, pid),
{
    match link {
        Some(l) => l,
        None => {
            let mut s = String::from_str("<unknown-");
            let d = decimal_string(pid as u64);
            s.append(d.as_str());
            s.append(">");
            s
        },
    }
}

/// `s` with every NUL replaced by a space.
pub open spec fn nul_to_space(s: Seq<char>) -> Seq<char> {
    s.map_values(|c: char| if c == '\0' { ' ' } else { c })
}

/// The command line of a process from the raw bytes of its `cmdline` file: decoded as UTF-8
/// (invalid sequences replaced), the NUL separators made spaces, surrounding whitespace
/// trimmed. Empty when the file could not be read.
pub open spec fn cmdline_text_spec(bytes: Option<Seq<u8>>) -> Seq<char> {
    match bytes {
        Some(b) => trim(nul_to_space(utf8_lossy(b))),
        None => Seq::empty(),
    }
}

/// The command line of a process from the raw bytes of its `cmdline` file.
pub fn cmdline_text(bytes: Option<&[u8]>) -> (r: String)
    ensures
        r@ == cmdline_text_spec(
            match bytes {
                Some(b) => Some(b@),
                None => None,
            },
        ),
{
    match bytes {
        None => String::new(),
        Some(b) => {
            let text = utf8_lossy_string(b);
            let t = chars_of(text.as_str());
            let mut u: Vec<char> = Vec::new();
            let mut i: usize = 0;
            while i < t.len()
                invariant
                    i <= t@.len(),
                    u@ == nul_to_space(t@).take(i as int),
                decreases t@.len() - i,
            {
                let c = t[i];
                u.push(if c == '\0' { ' ' } else { c });
                assert(nul_to_space(t@).take(i + 1) == nul_to_space(t@).take(i as int).push(
                    nul_to_space(t@)[i as int],
                ));
                i = i + 1;
            }
            assert(nul_to_space(t@).take(t@.len() as int) == nul_to_space(t@));
            let trimmed = trim_chars(u.as_slice());
            string_of(trimmed.as_slice())
        },
    }
}

/// The record of process `pid` built from what /proc and the user database gave: its uid,
/// the resolved user name (if any), the target of its `exe` link (if readable) and the raw
/// bytes of its `cmdline` file (if readable).
pub fn process_info_from_proc(
    pid: u32,
    uid: u32,
    username: Option<String>,
    exe_link: Option<String>,
    cmdline: Option<&[u8]>,
) -> (r: ProcessInfo)
    ensures
        r.pid == pid,
        r.uid == uid,
        r.username@ == username_or_uid_spec(username, uid),
        r.executable@ == executable_or_unknown_spec(exe_link, pid),
        r.cmdline@ == cmdline_text_spec(
            match cmdline {
                Some(b) => Some(b@),
                None => None,
            },
        ),
{
    let username = username_or_uid(username, uid);
    let executable = executable_or_unknown(exe_link, pid);
    let cmdline = cmdline_text(cmdline);
    ProcessInfo::new(uid, username, pid, executable, cmdline)
}

// ---------------------------------------------------------------------------
// The retriever and its cache
// ---------------------------------------------------------------------------

/// Retrieves process metadata by spidering /proc; remembers what it found for each socket
/// inode.
pub struct ProcessMetadataRetriever {
    cache: HashMap<u64, ProcessInfo>,
}

impl View for ProcessMetadataRetriever {
    type V = Map<u64, ProcessInfo>;

    closed spec fn view(&self) -> Map<u64, ProcessInfo> {
        self.cache@
    }
}

impl ProcessMetadataRetriever {
    /// Create a new ProcessMetadataRetriever, with nothing remembered.
    pub fn new() -> (r: std::result::Result<Self, InterposerError>)
        ensures
            r matches Ok(m) && m@ == Map::<u64, ProcessInfo>::empty(),
    {
        Ok(ProcessMetadataRetriever { cache: HashMap::new() })
    }

    /// What was remembered for the socket with inode `inode`.
    pub fn cached(&self, inode: u64) -> (r: Option<&ProcessInfo>)
        ensures
            match r {
                Some(info) => self@.contains_key(inode) && *info == self@[inode],
                None => !self@.contains_key(inode),
            },
    {
        self.cache.get(&inode)
    }

    /// Remember `info` as the process behind the socket with inode `inode`.
    pub fn remember(&mut self, inode: u64, info: ProcessInfo)
        ensures
            final(self)@ == old(self)@.insert(inode, info),
    {
        self.cache.insert(inode, info);
    }
}

/// What was remembered for a socket is found again for it, and remembering leaves what was
/// known of other sockets as it was.
pub proof fn lemma_remembered_is_cached(m: Map<u64, ProcessInfo>, inode: u64, info: ProcessInfo, other: u64)
    requires
        other != inode,
    ensures
        m.insert(inode, info).contains_key(inode),
        m.insert(inode, info)[inode] == info,
        m.insert(inode, info).contains_key(other) == m.contains_key(other),
        m.contains_key(other) ==> m.insert(inode, info)[other] == m[other],
{
}

} // verus!
