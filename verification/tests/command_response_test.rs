use mefirst::config::{ConfigFormat, PatternType, PluginConfig, ResponseSource};
use mefirst::config::{config_file_format, config_parse_error, config_read_error};
use mefirst::error::InterposerError;
use mefirst::plugin::command::CommandPlugin;
use mefirst::plugin::file::FilePlugin;
use mefirst::plugin::matcher::PatternMatcher;
use mefirst::plugin::RequestContext;
use mefirst::process::ProcessInfo;

fn plugin(stdin: bool) -> CommandPlugin {
    CommandPlugin {
        matcher: PatternMatcher::Exact("/cmd".to_string()),
        command: "cat".to_string(),
        args: vec![],
        status_code: 299,
        timeout_secs: 5,
        pattern: "/cmd".to_string(),
        proxy_request_stdin: stdin,
    }
}

fn command_error(r: Result<mefirst::plugin::PluginResponse, InterposerError>) -> String {
    match r {
        Err(InterposerError::CommandExecution(m)) => m,
        _ => panic!("expected a command execution error"),
    }
}

#[test]
fn test_parse_http_response_lf() {
    let r = plugin(true).parse_http_response(b"HTTP/1.1 201 Created\nContent-Type: text/plain\nX-A:  b \n\nhello\nworld").unwrap();
    assert_eq!(r.status_code, 201);
    assert_eq!(
        r.headers,
        vec![("Content-Type".to_string(), "text/plain".to_string()), ("X-A".to_string(), "b".to_string())]
    );
    assert_eq!(r.body, b"hello\nworld".to_vec());
}

#[test]
fn test_parse_http_response_crlf() {
    // The body is everything after the empty line, whatever the line ends.
    let r = plugin(true).parse_http_response(b"HTTP/1.1 200 OK\r\nA: 1\r\n\r\n{\"ok\":true}").unwrap();
    assert_eq!(r.status_code, 200);
    assert_eq!(r.headers, vec![("A".to_string(), "1".to_string())]);
    assert_eq!(r.body, b"{\"ok\":true}".to_vec());
    let r = plugin(true).parse_http_response(b"HTTP/1.1 200 OK\r\nA: b\r\n\r\nxy").unwrap();
    assert_eq!(r.headers, vec![("A".to_string(), "b".to_string())]);
    assert_eq!(r.body, b"xy".to_vec());
    // Bytes that are no UTF-8 are kept in the body as they are.
    let r = plugin(true).parse_http_response(b"HTTP/1.1 200 OK\n\n\xff\xfe\n").unwrap();
    assert_eq!(r.body, b"\xff\xfe\n".to_vec());
}

#[test]
fn test_parse_http_response_without_blank_line() {
    // Without an empty line the whole output is the body; later headers replace earlier ones.
    let r = plugin(true).parse_http_response(b"HTTP/1.0 404 Not Found\nA: 1\nA: 2").unwrap();
    assert_eq!(r.status_code, 404);
    assert_eq!(r.headers, vec![("A".to_string(), "2".to_string())]);
    assert_eq!(r.body, b"HTTP/1.0 404 Not Found\nA: 1\nA: 2".to_vec());
}

#[test]
fn test_parse_http_response_errors() {
    let p = plugin(true);
    assert_eq!(command_error(p.parse_http_response(b"")), "Empty response from command");
    assert_eq!(command_error(p.parse_http_response(b"hello")), "Response does not start with HTTP status line");
    assert_eq!(command_error(p.parse_http_response(b"HTTP/1.1\n\n")), "Invalid HTTP status line: HTTP/1.1");
    assert_eq!(
        command_error(p.parse_http_response(b"HTTP/1.1 abc OK\n\n")),
        "Invalid status code: invalid digit found in string"
    );
    assert_eq!(
        command_error(p.parse_http_response(b"HTTP/1.1 70000 OK\n\n")),
        "Invalid status code: number too large to fit in target type"
    );
}

#[test]
fn test_response_for_output() {
    let r = plugin(true).response_for_output(b"HTTP/1.1 202 Accepted\n\nok".to_vec());
    assert_eq!(r.status_code, 202);
    assert_eq!(r.body, b"ok".to_vec());
    // Output that is no HTTP response is served raw with the configured status.
    let r = plugin(true).response_for_output(b"plain".to_vec());
    assert_eq!(r.status_code, 299);
    assert!(r.headers.is_empty());
    assert_eq!(r.body, b"plain".to_vec());
    // Without request forwarding the output is never parsed.
    let r = plugin(false).response_for_output(b"HTTP/1.1 202 Accepted\n\nok".to_vec());
    assert_eq!(r.status_code, 299);
    assert_eq!(r.body, b"HTTP/1.1 202 Accepted\n\nok".to_vec());
}

#[test]
fn test_serialize_http_request() {
    let ctx = RequestContext {
        method: "GET".to_string(),
        path: "/x?y=1".to_string(),
        headers: vec![("host".to_string(), "a".to_string())],
        body: vec![],
        process_info: None,
    };
    assert_eq!(plugin(true).serialize_http_request(&ctx), "GET /x?y=1 HTTP/1.1\r\nhost: a\r\n\r\n");

    let ctx = RequestContext {
        method: "POST".to_string(),
        path: "/p".to_string(),
        headers: vec![("X-Forwarded-Uid".to_string(), "7".to_string())],
        body: b"hi".to_vec(),
        process_info: Some(ProcessInfo::new(
            1000,
            "testuser".to_string(),
            12345,
            "/usr/bin/curl".to_string(),
            "curl x".to_string(),
        )),
    };
    assert_eq!(
        plugin(true).serialize_http_request(&ctx),
        "POST /p HTTP/1.1\r\nX-Forwarded-Uid: 1000\r\nX-Forwarded-Username: testuser\r\nX-Forwarded-Pid: 12345\r\nX-Forwarded-Process-Name: /usr/bin/curl\r\nX-Forwarded-Process-Args: curl x\r\nContent-Length: 2\r\n\r\nhi"
    );
}

#[test]
fn test_command_decisions() {
    assert!(plugin(true).writes_request(true));
    assert!(!plugin(true).writes_request(false));
    assert!(!plugin(false).writes_request(true));
    match CommandPlugin::exit_failure("exit status: 1", b"boom\n") {
        InterposerError::CommandExecution(m) => assert_eq!(m, "Command failed with status exit status: 1: boom\n"),
        _ => panic!("expected a command execution error"),
    }
}

#[test]
fn test_file_plugin_read_failure() {
    let config = PluginConfig {
        pattern: "/f".to_string(),
        pattern_type: PatternType::Exact,
        response_source: ResponseSource::File { path: "/no/such/file".to_string() },
        status_code: 200,
        timeout_secs: None,
        uid: None,
        username: None,
        executable_pattern: None,
        cmdline_pattern: None,
        host_pattern: None,
        proxy_request_stdin: None,
    };
    let p = FilePlugin::from_config(&config).unwrap();
    match p.read_failure("No such file or directory") {
        InterposerError::Plugin(m) => assert_eq!(m, "Failed to read file \"/no/such/file\": No such file or directory"),
        _ => panic!("expected a plugin error"),
    }
}

#[test]
fn test_config_file_format() {
    assert_eq!(config_file_format("config.yaml"), ConfigFormat::Yaml);
    assert_eq!(config_file_format("/etc/mefirst/config.yml"), ConfigFormat::Yaml);
    assert_eq!(config_file_format("config.toml"), ConfigFormat::Toml);
    assert_eq!(config_file_format("config"), ConfigFormat::Toml);
    assert_eq!(config_file_format(".yaml"), ConfigFormat::Toml);
    assert_eq!(config_read_error("denied").message(), "Configuration error: Failed to read config file: denied");
    assert_eq!(
        config_parse_error(ConfigFormat::Yaml, "bad").message(),
        "Configuration error: Failed to parse YAML config: bad"
    );
    assert_eq!(
        config_parse_error(ConfigFormat::Toml, "bad").message(),
        "Configuration error: Failed to parse TOML config: bad"
    );
}
