use mefirst::config::{PatternType, PluginConfig, ResponseSource};
use mefirst::error::InterposerError;
use mefirst::plugin::{InterceptionPlugin, PluginFactory, PluginResponse};
use mefirst::process::ProcessInfo;
use mefirst::proxy::handler::{
    body_read_failure, error_response, full_path, intercepted_label, plugin_failure, plugin_reply,
    request_context, route_request, upstream_request_headers, ProxyError, Route,
};
use mefirst::proxy::socket_fd_layer::{SocketFd, SocketFdLayer};
use mefirst::proxy::{listen_addresses, metrics_address};

fn process_info() -> ProcessInfo {
    ProcessInfo {
        uid: 1000,
        username: "testuser".to_string(),
        pid: 12345,
        executable: "/usr/bin/curl".to_string(),
        cmdline: "curl http://example.com".to_string(),
    }
}

fn command_config(pattern: &str) -> PluginConfig {
    PluginConfig {
        pattern: pattern.to_string(),
        pattern_type: PatternType::Exact,
        response_source: ResponseSource::Command { command: "echo".to_string(), args: vec!["hi".to_string()] },
        status_code: 200,
        timeout_secs: None,
        uid: None,
        username: None,
        executable_pattern: None,
        cmdline_pattern: None,
        host_pattern: None,
        proxy_request_stdin: None,
    }
}

fn pairs(v: &[(&str, &str)]) -> Vec<(String, String)> {
    v.iter().map(|(a, b)| (a.to_string(), b.to_string())).collect()
}

#[test]
fn test_full_path() {
    assert_eq!(full_path("/latest/meta-data", Some("a=1&b=2")), "/latest/meta-data?a=1&b=2");
    assert_eq!(full_path("/latest/meta-data", None), "/latest/meta-data");
    assert_eq!(full_path("/", Some("")), "/?");
}

#[test]
fn test_upstream_headers_with_injection() {
    let info = process_info();
    let h = upstream_request_headers(pairs(&[("host", "example.com")]), true, Some(&info));
    assert_eq!(
        h,
        pairs(&[
            ("host", "example.com"),
            ("X-Forwarded-Uid", "1000"),
            ("X-Forwarded-Username", "testuser"),
            ("X-Forwarded-Pid", "12345"),
            ("X-Forwarded-Process-Name", "/usr/bin/curl"),
            ("X-Forwarded-Process-Args", "curl http://example.com"),
        ])
    );
}

#[test]
fn test_upstream_headers_without_injection() {
    let info = process_info();
    let h = upstream_request_headers(pairs(&[("host", "example.com")]), false, Some(&info));
    assert_eq!(h, pairs(&[("host", "example.com")]));
    let h = upstream_request_headers(pairs(&[("host", "example.com")]), true, None);
    assert_eq!(h, pairs(&[("host", "example.com")]));
}

#[test]
fn test_request_context() {
    let info = process_info();
    let ctx = request_context("POST", "/p?x=1", &pairs(&[("a", "b")]), Some(b"body"), Some(&info));
    assert_eq!(ctx.method, "POST");
    assert_eq!(ctx.path, "/p?x=1");
    assert_eq!(ctx.headers, pairs(&[("a", "b")]));
    assert_eq!(ctx.body, b"body".to_vec());
    assert_eq!(ctx.process_info.unwrap().pid, 12345);
    let ctx = request_context("GET", "/", &Vec::new(), None, None);
    assert!(ctx.body.is_empty());
    assert!(ctx.process_info.is_none());
}

#[test]
fn test_route_request_intercepts_matching_path() {
    let registry = PluginFactory::create_registry(&vec![command_config("/intercept")]).unwrap();
    let headers = pairs(&[("Host", "169.254.169.254"), ("X-Token", "t"), ("x-token", "u")]);
    match route_request(&registry, true, "GET", "/intercept", Some("q=1"), &headers, Some(b"abc"), None) {
        Route::Intercept { plugin, context } => {
            assert_eq!(plugin.pattern(), "/intercept");
            assert_eq!(context.method, "GET");
            assert_eq!(context.path, "/intercept?q=1");
            // Names lower-cased; a later value for a name replaces an earlier one.
            assert_eq!(context.headers, pairs(&[("host", "169.254.169.254"), ("x-token", "u")]));
            assert_eq!(context.body, b"abc".to_vec());
        },
        Route::Forward { .. } => panic!("expected the plugin to answer"),
    }
}

#[test]
fn test_route_request_forwards_other_paths() {
    let registry = PluginFactory::create_registry(&vec![command_config("/intercept")]).unwrap();
    let info = process_info();
    let headers = pairs(&[("Host", "example.com")]);
    match route_request(&registry, true, "GET", "/other", Some("q=1"), &headers, None, Some(&info)) {
        Route::Forward { path, headers } => {
            assert_eq!(path, "/other?q=1");
            assert_eq!(headers.len(), 6);
            assert_eq!(headers[0], ("Host".to_string(), "example.com".to_string()));
            assert_eq!(headers[1], ("X-Forwarded-Uid".to_string(), "1000".to_string()));
        },
        Route::Intercept { .. } => panic!("expected the request to be forwarded"),
    }
    // The plugin sees the path without its query.
    match route_request(&registry, false, "GET", "/intercept", Some("q=1"), &headers, None, None) {
        Route::Intercept { .. } => {},
        Route::Forward { .. } => panic!("expected the plugin to answer"),
    }
}

#[test]
fn test_replies_of_the_proxy() {
    let r = body_read_failure();
    assert_eq!((r.status, r.text.as_str()), (400, "Failed to read request body"));
    let r = plugin_failure();
    assert_eq!((r.status, r.text.as_str()), (500, "Plugin error"));
    let e = ProxyError::UpstreamError("connection refused".to_string());
    assert_eq!(e.message(), "Upstream error: connection refused");
    let r = error_response(e);
    assert_eq!((r.status, r.text.as_str()), (502, "connection refused"));
    assert_eq!(intercepted_label(true), "true");
    assert_eq!(intercepted_label(false), "false");
}

#[test]
fn test_plugin_reply() {
    let ok = PluginResponse { status_code: 201, headers: pairs(&[("a", "b")]), body: b"x".to_vec() };
    let r = plugin_reply(Ok(ok)).ok().unwrap();
    assert_eq!(r.status_code, 201);
    assert_eq!(r.body, b"x".to_vec());
    let r = plugin_reply(Err(InterposerError::CommandTimeout)).err().unwrap();
    assert_eq!((r.status, r.text.as_str()), (500, "Plugin error"));
}

#[test]
fn test_socket_fd_layer() {
    let fd = SocketFd(7);
    assert_eq!(fd.0, 7);
    let service = SocketFdLayer.layer(41u32);
    assert_eq!(*service.inner(), 41);
    assert_eq!(service.into_inner(), 41);
}

#[test]
fn test_listens_on_localhost_only() {
    assert_eq!(listen_addresses(8080), ("127.0.0.1:8080".to_string(), "[::1]:8080".to_string()));
    assert_eq!(listen_addresses(0), ("127.0.0.1:0".to_string(), "[::1]:0".to_string()));
    assert_eq!(metrics_address(9090), "127.0.0.1:9090");
}
