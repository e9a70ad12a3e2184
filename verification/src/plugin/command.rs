//! Plugin that answers with the output of a command.
use vstd::prelude::*;
use vstd::string::*;
use crate::config::{PluginConfig, ResponseSource};
use crate::error::InterposerError;
use crate::plugin::matcher::{matcher_from, PatternMatcher};
use crate::plugin::{InterceptionPlugin, PluginResponse};
use crate::process::ProcessInfo;
use crate::headers::{header_views, insert_header, insert_header_spec};
use crate::plugin::RequestContext;
use crate::process::forwarded_process_headers;
use crate::text::{
    chars_of, clone_strings, dec, decimal_string, find_char, first_index,
    is_prefix_chars, lines, lines_chars, parse_u16_std, parse_unsigned, split_whitespace_chars,
    string_of, subrange_chars, trim, trim_chars, u16_parse_error_text, utf8_lossy,
    utf8_lossy_string, words,
};

verus! {

/// Default timeout for command execution, in seconds.
pub const DEFAULT_COMMAND_TIMEOUT_SECS: u64 = 30;

/// Plugin that executes a command and returns its output as response
#[derive(Debug, Clone)]
pub struct CommandPlugin {
    pub matcher: PatternMatcher,
    pub command: String,
    pub args: Vec<String>,
    pub status_code: u16,
    /// Time the command may run, in seconds.
    pub timeout_secs: u64,
    pub pattern: String,
    /// Whether the HTTP request is written to the command's standard input, and its output
    /// read back as an HTTP response.
    pub proxy_request_stdin: bool,
}

/// Whether `p` is the command plugin that configuration `c` describes.
pub open spec fn command_plugin_of(p: CommandPlugin, c: PluginConfig) -> bool {
    &&& c.response_source matches ResponseSource::Command { command, args } && p.command == command
        && p.args@ == args@
    &&& matcher_from(c.pattern, c.pattern_type) == Ok::<PatternMatcher, Seq<char>>(p.matcher)
    &&& p.status_code == c.status_code
    &&& p.timeout_secs == match c.timeout_secs {
        Some(t) => t,
        None => DEFAULT_COMMAND_TIMEOUT_SECS,
    }
    &&& p.pattern == c.pattern
    &&& p.proxy_request_stdin == (c.proxy_request_stdin == Some(true))
}

/// Why configuration `c` gives no command plugin, if it does not.
pub open spec fn command_plugin_error(c: PluginConfig) -> Option<Seq<char>> {
    if !(c.response_source is Command) {
        Some("CommandPlugin requires a Command response source"@)
    } else {
        match matcher_from(c.pattern, c.pattern_type) {
            Ok(_) => None,
            Err(m) => Some(m),
        }
    }
}

/// The headers of a request, with the client's process metadata set when it is known.
pub open spec fn with_process_headers(h: Seq<(Seq<char>, Seq<char>)>, info: Option<ProcessInfo>) -> Seq<(Seq<char>, Seq<char>)> {
    match info {
        None => h,
        Some(i) => {
            let f = forwarded_process_headers(i);
            insert_header_spec(
                insert_header_spec(
                    insert_header_spec(
                        insert_header_spec(insert_header_spec(h, f[0].0, f[0].1), f[1].0, f[1].1),
                        f[2].0,
                        f[2].1,
                    ),
                    f[3].0,
                    f[3].1,
                ),
                f[4].0,
                f[4].1,
            )
        },
    }
}

/// One `Name: value` line per header, each ended by CRLF.
pub open spec fn header_block(h: Seq<(Seq<char>, Seq<char>)>) -> Seq<char>
    decreases h.len(),
{
    if h.len() == 0 {
        Seq::empty()
    } else {
        header_block(h.drop_last()) + h.last().0 + ": "@ + h.last().1 + "\r\n"@
    }
}

/// The HTTP/1.1 request text written to a command's standard input: request line, headers
/// (with process metadata when known), a Content-Length when there is a body, a blank line,
/// then the body decoded as UTF-8 (invalid sequences replaced).
pub open spec fn serialized_request(
    method: Seq<char>,
    path: Seq<char>,
    headers: Seq<(Seq<char>, Seq<char>)>,
    info: Option<ProcessInfo>,
    body: Seq<u8>,
) -> Seq<char> {
    let hs = with_process_headers(headers, info);
    let cl = if body.len() > 0 {
        "Content-Length: "@ + dec(body.len()) + "\r\n"@
    } else {
        Seq::<char>::empty()
    };
    let b = if body.len() > 0 {
        utf8_lossy(body)
    } else {
        Seq::<char>::empty()
    };
    method + " "@ + path + " HTTP/1.1\r\n"@ + header_block(hs) + cl + "\r\n"@ + b
}

/// The headers of a command's HTTP response: each `Name: value` line (name and value trimmed;
/// lines without `:` ignored), inserted in order.
pub open spec fn response_header_map(lines: Seq<Seq<char>>) -> Seq<(Seq<char>, Seq<char>)>
    decreases lines.len(),
{
    if lines.len() == 0 {
        Seq::empty()
    } else {
        let h = response_header_map(lines.drop_last());
        let l = lines.last();
        match first_index(l, ':') {
            Some(p) => insert_header_spec(h, trim(l.take(p)), trim(l.skip(p + 1))),
            None => h,
        }
    }
}

/// The first empty line at or after `i`.
pub open spec fn first_empty_line_from(ls: Seq<Seq<char>>, i: int) -> Option<int>
    decreases ls.len() - i,
{
    if i < 0 || i >= ls.len() {
        None
    } else if ls[i].len() == 0 {
        Some(i)
    } else {
        first_empty_line_from(ls, i + 1)
    }
}

/// The position just past the `n`-th newline byte of `b` at or after `i` (counting from 1),
/// if there are that many.
pub open spec fn past_nth_newline_from(b: Seq<u8>, i: int, n: nat) -> Option<int>
    decreases b.len() - i,
{
    if i < 0 || i >= b.len() || n == 0 {
        None
    } else if b[i] == 10u8 {
        if n == 1 {
            Some(i + 1)
        } else {
            past_nth_newline_from(b, i + 1, (n - 1) as nat)
        }
    } else {
        past_nth_newline_from(b, i + 1, n)
    }
}

/// The body of a command's HTTP response: when an empty line (line `e` of the text) ends the
/// headers, everything after that empty line, i.e. after the output's `e + 1`-th newline;
/// when no empty line ends them, the whole output.
pub open spec fn response_body(output: Seq<u8>, ls: Seq<Seq<char>>) -> Seq<u8> {
    match first_empty_line_from(ls, 1) {
        Some(e) => match past_nth_newline_from(output, 0, (e + 1) as nat) {
            Some(k) => output.skip(k),
            None => Seq::<u8>::empty(),
        },
        None => output,
    }
}

/// A command's output read as an HTTP response: status line `HTTP/... <code> ...`, headers, an
/// empty line, then the body. Gives the status code, the headers and the body bytes, or why the
/// output is no HTTP response.
pub open spec fn parsed_response(output: Seq<u8>) -> std::result::Result<(u16, Seq<(Seq<char>, Seq<char>)>, Seq<u8>), Seq<char>> {
    let t = utf8_lossy(output);
    let ls = lines(t);
    if ls.len() == 0 {
        Err("Empty response from command"@)
    } else if !"HTTP/"@.is_prefix_of(ls[0]) {
        Err("Response does not start with HTTP status line"@)
    } else if words(ls[0]).len() < 2 {
        Err("Invalid HTTP status line: "@ + ls[0])
    } else {
        match parse_unsigned(words(ls[0])[1], 65535) {
            None => Err("Invalid status code: "@ + u16_parse_error_text(words(ls[0])[1])),
            Some(code) => {
                let header_lines = match first_empty_line_from(ls, 1) {
                    Some(e) => ls.subrange(1, e),
                    None => ls.skip(1),
                };
                Ok((code as u16, response_header_map(header_lines), response_body(output, ls)))
            },
        }
    }
}

impl CommandPlugin {
    /// Serialize HTTP request with optional process metadata headers
    pub fn serialize_http_request(&self, ctx: &RequestContext) -> (r: String)
        ensures
            r@ == serialized_request(ctx.method@, ctx.path@, header_views(ctx.headers@), ctx.process_info, ctx.body@),
    {
        let mut request = String::from_str(ctx.method.as_str());
        request.append(" ");
        request.append(ctx.path.as_str());
        request.append(" HTTP/1.1\r\n");
        let ghost start = request@;
        let mut headers = crate::headers::clone_headers(&ctx.headers);
        match &ctx.process_info {
            Some(info) => {
                let f = info.forwarded_headers();
                let (a0, b0) = (f[0].0.clone(), f[0].1.clone());
                insert_header(&mut headers, a0, b0);
                let (a1, b1) = (f[1].0.clone(), f[1].1.clone());
                insert_header(&mut headers, a1, b1);
                let (a2, b2) = (f[2].0.clone(), f[2].1.clone());
                insert_header(&mut headers, a2, b2);
                let (a3, b3) = (f[3].0.clone(), f[3].1.clone());
                insert_header(&mut headers, a3, b3);
                let (a4, b4) = (f[4].0.clone(), f[4].1.clone());
                insert_header(&mut headers, a4, b4);
            },
            None => {},
        }
        let ghost hs = header_views(headers@);
        assert(hs == with_process_headers(header_views(ctx.headers@), ctx.process_info));
        let n = headers.len();
        let mut i: usize = 0;
        assert(hs.take(0) == Seq::<(Seq<char>, Seq<char>)>::empty());
        while i < n
            invariant
                i <= n,
                n == headers@.len(),
                hs == header_views(headers@),
                request@ == start + header_block(hs.take(i as int)),
            decreases n - i,
        {
            request.append(headers[i].0.as_str());
            request.append(": ");
            request.append(headers[i].1.as_str());
            request.append("\r\n");
            proof {
                let t = hs.take(i + 1);
                assert(t.drop_last() == hs.take(i as int));
                assert(t.last() == (headers@[i as int].0@, headers@[i as int].1@));
            }
            i = i + 1;
        }
        assert(hs.take(n as int) == hs);
        let has_body = ctx.body.len() > 0;
        if has_body {
            request.append("Content-Length: ");
            let len_text = decimal_string(ctx.body.len() as u64);
            request.append(len_text.as_str());
            request.append("\r\n");
        }
        request.append("\r\n");
        if has_body {
            let text = utf8_lossy_string(ctx.body.as_slice());
            request.append(text.as_str());
        }
        proof {
            let cl = if ctx.body@.len() > 0 {
                "Content-Length: "@ + dec(ctx.body@.len()) + "\r\n"@
            } else {
                Seq::<char>::empty()
            };
            let b = if ctx.body@.len() > 0 { utf8_lossy(ctx.body@) } else { Seq::<char>::empty() };
            assert(request@ =~= start + header_block(hs) + cl + "\r\n"@ + b);
        }
        request
    }

    /// Create a new command plugin from configuration
    pub fn from_config(config: &PluginConfig) -> (r: std::result::Result<Self, InterposerError>)
        ensures
            r is Ok <==> command_plugin_error(*config) is None,
            r matches Ok(p) ==> command_plugin_of(p, *config),
            r matches Err(e) ==> e matches InterposerError::PluginConfig(m) && Some(m@) == command_plugin_error(*config),
    {
        let (command, args) = match &config.response_source {
            ResponseSource::Command { command, args } => (command.clone(), clone_strings(args)),
            _ => {
                return Err(
                    InterposerError::PluginConfig(
                        String::from_str("CommandPlugin requires a Command response source"),
                    ),
                );
            },
        };
        let matcher = match PatternMatcher::new(config.pattern.clone(), config.pattern_type) {
            Ok(m) => m,
            Err(e) => {
                return Err(InterposerError::PluginConfig(e));
            },
        };
        let timeout_secs = match config.timeout_secs {
            Some(t) => t,
            None => DEFAULT_COMMAND_TIMEOUT_SECS,
        };
        let proxy_request_stdin = match config.proxy_request_stdin {
            Some(b) => b,
            None => false,
        };
        Ok(
            CommandPlugin {
                matcher,
                command,
                args,
                status_code: config.status_code,
                timeout_secs,
                pattern: config.pattern.clone(),
                proxy_request_stdin,
            },
        )
    }
}

impl InterceptionPlugin for CommandPlugin {
    open spec fn spec_matches(&self, path: Seq<char>) -> bool {
        self.matcher.spec_matches(path)
    }

    open spec fn spec_matches_process_aware(&self, process_info: Option<ProcessInfo>, headers: Seq<(Seq<char>, Seq<char>)>) -> bool {
        true
    }

    open spec fn spec_pattern(&self) -> Seq<char> {
        self.pattern@
    }

    fn matches(&self, path: &str) -> (r: bool) {
        self.matcher.matches(path)
    }

    fn matches_process_aware(&self, process_info: Option<&ProcessInfo>, headers: &Vec<(String, String)>) -> (r: bool) {
        // CommandPlugin doesn't filter by process or headers
        true
    }

    fn pattern(&self) -> (r: &str) {
        self.pattern.as_str()
    }
}

impl CommandPlugin {
    /// Whether the request is written to the command's standard input: when the plugin is
    /// configured so and a request is at hand.
    pub fn writes_request(&self, has_request: bool) -> (r: bool)
        ensures
            r == (self.proxy_request_stdin && has_request),
    {
        self.proxy_request_stdin && has_request
    }

    /// The error for a command that exited unsuccessfully: its exit status as text and its
    /// standard error, decoded as UTF-8 (invalid sequences replaced).
    pub fn exit_failure(status: &str, stderr: &[u8]) -> (r: InterposerError)
        ensures
            r matches InterposerError::CommandExecution(m) && m@ == "Command failed with status "@
                + status@ + ": "@ + utf8_lossy(stderr@),
    {
        let mut m = String::from_str("Command failed with status ");
        m.append(status);
        m.append(": ");
        let text = utf8_lossy_string(stderr);
        m.append(text.as_str());
        InterposerError::CommandExecution(m)
    }

    /// Parse HTTP response from command output
    pub fn parse_http_response(&self, output: &[u8]) -> (r: std::result::Result<PluginResponse, InterposerError>)
        ensures
            match (r, parsed_response(output@)) {
                (Ok(resp), Ok((code, headers, body))) => resp.status_code == code && header_views(
                    resp.headers@,
                ) == headers && resp.body@ == body,
                (Err(InterposerError::CommandExecution(m)), Err(e)) => m@ == e,
                _ => false,
            },
    {
        let text = utf8_lossy_string(output);
        let t = chars_of(text.as_str());
        let ls = lines_chars(t.as_slice());
        let ghost lsv = lines(t@);
        assert forall|i: int| 0 <= i < ls@.len() implies #[trigger] ls@[i]@ == lsv[i] by {}
        if ls.len() == 0 {
            return Err(InterposerError::CommandExecution(String::from_str("Empty response from command")));
        }
        let status_line = &ls[0];
        let http = chars_of("HTTP/");
        if !is_prefix_chars(http.as_slice(), status_line.as_slice()) {
            return Err(
                InterposerError::CommandExecution(String::from_str("Response does not start with HTTP status line")),
            );
        }
        let parts = split_whitespace_chars(status_line.as_slice());
        if parts.len() < 2 {
            let mut m = String::from_str("Invalid HTTP status line: ");
            let line = string_of(status_line.as_slice());
            m.append(line.as_str());
            return Err(InterposerError::CommandExecution(m));
        }
        let code_text = string_of(parts[1].as_slice());
        let status_code = match parse_u16_std(code_text.as_str()) {
            Ok(v) => v,
            Err(e) => {
                let mut m = String::from_str("Invalid status code: ");
                m.append(e.as_str());
                return Err(InterposerError::CommandExecution(m));
            },
        };
        // Find the empty line that ends the headers.
        let n = ls.len();
        let mut e: usize = 1;
        while e < n && ls[e].len() > 0
            invariant
                1 <= e <= n,
                n == lsv.len(),
                n == ls@.len(),
                forall|i: int| 0 <= i < n ==> #[trigger] ls@[i]@ == lsv[i],
                first_empty_line_from(lsv, 1) == first_empty_line_from(lsv, e as int),
            decreases n - e,
        {
            e = e + 1;
        }
        let found_empty = e < n;
        let ghost header_lines = if found_empty { lsv.subrange(1, e as int) } else { lsv.skip(1) };
        assert(header_lines == lsv.subrange(1, e as int));
        // Collect the headers.
        let mut headers: Vec<(String, String)> = Vec::new();
        let mut i: usize = 1;
        assert(header_lines.take(0) == Seq::<Seq<char>>::empty());
        while i < e
            invariant
                1 <= i <= e,
                e <= n,
                n == lsv.len(),
                n == ls@.len(),
                forall|k: int| 0 <= k < n ==> #[trigger] ls@[k]@ == lsv[k],
                header_lines == lsv.subrange(1, e as int),
                header_views(headers@) == response_header_map(header_lines.take(i - 1)),
            decreases e - i,
        {
            let line = &ls[i];
            proof {
                let tk = header_lines.take(i as int);
                assert(tk.drop_last() == header_lines.take(i - 1));
                assert(tk.last() == lsv[i as int]);
            }
            match find_char(line.as_slice(), ':') {
                Some(p) => {
                    let key_part = subrange_chars(line.as_slice(), 0, p);
                    let value_part = subrange_chars(line.as_slice(), p + 1, line.len());
                    assert(key_part@ == line@.take(p as int));
                    assert(value_part@ == line@.skip(p + 1));
                    let key = trim_chars(key_part.as_slice());
                    let value = trim_chars(value_part.as_slice());
                    insert_header(&mut headers, string_of(key.as_slice()), string_of(value.as_slice()));
                },
                None => {},
            }
            i = i + 1;
        }
        assert(header_lines.take(e - 1) == header_lines);
        // The body: everything after the empty line, i.e. after newline number `e + 1`.
        let mut body: Vec<u8> = Vec::new();
        if found_empty {
            let wanted: usize = e + 1;
            let mut seen: usize = 0;
            let mut j: usize = 0;
            let mut start: Option<usize> = None;
            while j < output.len() && start.is_none()
                invariant
                    j <= output@.len(),
                    seen < wanted,
                    start is None ==> past_nth_newline_from(output@, 0, wanted as nat)
                        == past_nth_newline_from(output@, j as int, (wanted - seen) as nat),
                    start matches Some(k) ==> past_nth_newline_from(output@, 0, wanted as nat)
                        == Some(k as int) && k <= output@.len(),
                decreases output@.len() - j + (if start is None { 1int } else { 0int }),
            {
                if output[j] == 10u8 {
                    if seen + 1 == wanted {
                        start = Some(j + 1);
                    } else {
                        seen = seen + 1;
                    }
                }
                j = j + 1;
            }
            match start {
                Some(k) => {
                    let mut m: usize = k;
                    while m < output.len()
                        invariant
                            k <= m <= output@.len(),
                            body@ == output@.subrange(k as int, m as int),
                        decreases output@.len() - m,
                    {
                        body.push(output[m]);
                        m = m + 1;
                    }
                    assert(body@ == output@.skip(k as int));
                },
                None => {
                    assert(past_nth_newline_from(output@, j as int, (wanted - seen) as nat) is None);
                },
            }
        } else {
            let mut m: usize = 0;
            while m < output.len()
                invariant
                    m <= output@.len(),
                    body@ == output@.subrange(0, m as int),
                decreases output@.len() - m,
            {
                body.push(output[m]);
                m = m + 1;
            }
            assert(body@ == output@);
        }
        assert(first_empty_line_from(lsv, 1) == if found_empty { Some(e as int) } else { None::<int> });
        Ok(PluginResponse { status_code, headers, body })
    }

    /// The response for a command's standard output: when the request was written to the
    /// command, the output read as an HTTP response if it is one; otherwise the configured status
    /// with the output as body.
    pub fn response_for_output(&self, output: Vec<u8>) -> (r: PluginResponse)
        ensures
            self.proxy_request_stdin && parsed_response(output@) is Ok ==> ({
                let (code, headers, body) = parsed_response(output@)->Ok_0;
                r.status_code == code && header_views(r.headers@) == headers && r.body@ == body
            }),
            !(self.proxy_request_stdin && parsed_response(output@) is Ok) ==> r.status_code
                == self.status_code && r.headers@.len() == 0 && r.body@ == output@,
    {
        if self.proxy_request_stdin {
            match self.parse_http_response(output.as_slice()) {
                Ok(response) => {
                    return response;
                },
                Err(_) => {},
            }
        }
        PluginResponse { status_code: self.status_code, headers: Vec::new(), body: output }
    }
}


/// A header line `Name:Value`, whose name holds no `:`, is split at its first colon: the
/// parsed headers map the trimmed name to the trimmed value, whatever colons the value holds.
pub proof fn lemma_header_line_splits_at_first_colon(
    prev: Seq<Seq<char>>,
    name: Seq<char>,
    value: Seq<char>,
)
    requires
        forall|i: int| 0 <= i < name.len() ==> #[trigger] name[i] != ':',
    ensures
        response_header_map(prev.push(name + ":"@ + value)) == insert_header_spec(
            response_header_map(prev),
            trim(name),
            trim(value),
        ),
{
    reveal_strlit(":");
    let l = name + ":"@ + value;
    let ls = prev.push(l);
    assert(ls.drop_last() == prev);
    assert(ls.last() == l);
    assert forall|j: int| 0 <= j < name.len() implies #[trigger] l[j] != ':' by {
        assert(l[j] == name[j]);
    }
    assert(l[name.len() as int] == ':');
    crate::text::lemma_first_index_at(l, ':', name.len() as int);
    assert(l.take(name.len() as int) == name);
    assert(l.skip(name.len() + 1int) == value);
}

} // verus!
