use mefirst::config::{Config, ConfigFile, ConnectionInterceptionConfig, ExplicitSettings, PatternConfig, PatternType, PluginConfig, ResponseSource};
use mefirst::plugin::PluginFactory;
use mefirst::logging::LogFormat;
use mefirst::plugin::command::CommandPlugin;
use mefirst::plugin::matcher::PatternMatcher;
use mefirst::plugin::{Plugin, PluginRegistry};
use mefirst::redirect::{parse_ipv4_to_u32, redirect_connect4_decision, redirect_connect6_decision, restrict_ptrace_decision};
use mefirst::upstream::{filter_hop_by_hop, upstream_url};

fn h(k: &str, v: &str) -> (String, String) {
    (k.to_string(), v.to_string())
}

fn file_defaults() -> ConfigFile {
    ConfigFile {
        cgroup_path: "/sys/fs/cgroup".to_string(),
        plugins: vec![],
        interception: None,
        target_address: "169.254.169.254".to_string(),
        target_port: 80,
        bind_port: 8080,
        enable_metrics: true,
        metrics_port: 9090,
        inject_process_headers: false,
    }
}

#[test]
fn test_dotted_quad_reads_back() {
    for (a, b, c, d) in [(0u8, 0u8, 0u8, 0u8), (127, 0, 0, 1), (169, 254, 169, 254), (255, 255, 255, 255), (10, 20, 30, 40)] {
        let text = format!("{}.{}.{}.{}", a, b, c, d);
        let word = (a as u32) | (b as u32) << 8 | (c as u32) << 16 | (d as u32) << 24;
        assert_eq!(parse_ipv4_to_u32(&text).unwrap(), word);
    }
}

#[test]
fn test_command_line_wins_over_file() {
    let mut cli = Config::default();
    cli.bind_port = 7000;
    cli.metrics_port = 7001;
    cli.target_port = 443;
    cli.target_address = "10.0.0.1".to_string();
    cli.enable_metrics = false;
    cli.inject_process_headers = true;
    cli.explicit = ExplicitSettings {
        cgroup_path: false,
        target_address: true,
        target_port: true,
        bind_port: true,
        enable_metrics: true,
        metrics_port: true,
        inject_process_headers: true,
    };
    let mut file = file_defaults();
    file.bind_port = 9000;
    file.metrics_port = 9091;
    file.enable_metrics = true;
    file.inject_process_headers = false;
    file.interception = Some(ConnectionInterceptionConfig { ip: Some("1.2.3.4".to_string()), port: 8443 });
    cli.merge_from_file(file);
    assert_eq!(cli.bind_port, 7000);
    assert_eq!(cli.metrics_port, 7001);
    assert_eq!(cli.target_port, 443);
    assert_eq!(cli.target_address, "10.0.0.1");
    assert!(!cli.enable_metrics);
    assert!(cli.inject_process_headers);
}

#[test]
fn test_file_wins_over_defaults() {
    // Settings not given explicitly take the file's values, even where the command line holds
    // something else.
    let mut cli = Config::default();
    cli.bind_port = 7000;
    cli.inject_process_headers = true;
    let mut file = file_defaults();
    file.bind_port = 9000;
    file.metrics_port = 9091;
    file.enable_metrics = false;
    file.target_address = "10.9.8.7".to_string();
    file.target_port = 8443;
    cli.merge_from_file(file);
    assert_eq!(cli.bind_port, 9000);
    assert_eq!(cli.metrics_port, 9091);
    assert!(!cli.enable_metrics);
    assert!(!cli.inject_process_headers);
    assert_eq!(cli.target_address, "10.9.8.7");
    assert_eq!(cli.target_port, 8443);
}

#[test]
fn test_hop_by_hop_filter_is_idempotent() {
    let headers = vec![h("TE", "trailers"), h("Accept", "*/*"), h("Upgrade", "h2c"), h("X-A", "1")];
    let once = filter_hop_by_hop(headers);
    let twice = filter_hop_by_hop(once.clone());
    assert_eq!(once, vec![h("Accept", "*/*"), h("X-A", "1")]);
    assert_eq!(once, twice);
}

#[test]
fn test_fixed_target_ignores_host_header() {
    let a = upstream_url("169.254.169.254", 80, "/x", &vec![h("Host", "evil.example.com:1")]).unwrap();
    let b = upstream_url("169.254.169.254", 80, "/x", &vec![]).unwrap();
    assert_eq!(a, "http://169.254.169.254:80/x");
    assert_eq!(a, b);
}

#[test]
fn test_log_format_ignores_case() {
    for (a, b) in [("JSON", "json"), ("Text", "tExT"), ("PRETTY", "pretty")] {
        assert_eq!(LogFormat::parse_name(a).unwrap(), LogFormat::parse_name(b).unwrap());
    }
    assert!(LogFormat::parse_name("XML").is_err() && LogFormat::parse_name("xml").is_err());
}

#[test]
fn test_registering_keeps_earlier_answers() {
    let plugin = |pattern: &str, arg: &str| {
        Plugin::Command(CommandPlugin {
            matcher: PatternMatcher::Exact(pattern.to_string()),
            command: "echo".to_string(),
            args: vec![arg.to_string()],
            status_code: 200,
            timeout_secs: 30,
            pattern: pattern.to_string(),
            proxy_request_stdin: false,
        })
    };
    let mut registry = PluginRegistry::new();
    registry.register(plugin("/a", "first"));
    let headers = Vec::new();
    assert!(registry.find_match("/b", None, &headers).is_none());
    registry.register(plugin("/a", "second"));
    registry.register(plugin("/b", "third"));
    assert_eq!(registry.len(), 3);
    match registry.find_match("/a", None, &headers) {
        Some(Plugin::Command(p)) => assert_eq!(p.args, vec!["first".to_string()]),
        _ => panic!("expected the first plugin"),
    }
    match registry.find_match("/b", None, &headers) {
        Some(Plugin::Command(p)) => assert_eq!(p.args, vec!["third".to_string()]),
        _ => panic!("expected the new plugin"),
    }
}

#[test]
fn test_proxy_never_redirected_and_others_unrestricted() {
    for port in [0x5000u32, 0x901F, 0xBB01] {
        assert_eq!(redirect_connect4_decision(42, Some(42), Some(0), Some(80), Some(8080), 0xFEA9FEA9, port), None);
        assert_eq!(redirect_connect6_decision(42, Some(42), Some(80), Some(8080), port), None);
    }
    for mode in [0u32, 1, 2, 3, 0xFF] {
        assert_eq!(restrict_ptrace_decision(7, Some(42), mode), 0);
    }
    // IP-agnostic interception treats every address alike.
    assert_eq!(
        redirect_connect4_decision(1, Some(42), Some(0), Some(80), Some(8080), 0x0100000A, 0x5000),
        redirect_connect4_decision(1, Some(42), Some(0), Some(80), Some(8080), 0xFEA9FEA9, 0x5000)
    );
}

#[test]
fn test_explicit_cgroup_path_wins() {
    let mut cli = Config::default();
    cli.explicit.cgroup_path = true;
    let mut file = file_defaults();
    file.cgroup_path = "/sys/fs/cgroup/unified".to_string();
    cli.merge_from_file(file);
    assert_eq!(cli.cgroup_path, "/sys/fs/cgroup");

    let mut cli = Config::default();
    let mut file = file_defaults();
    file.cgroup_path = "/sys/fs/cgroup/unified".to_string();
    cli.merge_from_file(file);
    assert_eq!(cli.cgroup_path, "/sys/fs/cgroup/unified");
}

#[test]
fn test_process_aware_plugin_answers_through_its_delegate() {
    let config = PluginConfig {
        pattern: "/t".to_string(),
        pattern_type: PatternType::Exact,
        response_source: ResponseSource::Command { command: "echo".to_string(), args: vec!["x".to_string()] },
        status_code: 201,
        timeout_secs: None,
        uid: Some(0),
        username: None,
        executable_pattern: None,
        cmdline_pattern: None,
        host_pattern: Some(PatternConfig { pattern: "*".to_string(), pattern_type: PatternType::Glob }),
        proxy_request_stdin: None,
    };
    let plugin = PluginFactory::create_plugin(&config).unwrap();
    assert!(matches!(plugin, Plugin::ProcessAware(_)));
    match plugin.responder() {
        Plugin::Command(c) => {
            assert_eq!(c.status_code, 201);
            assert_eq!(c.args, vec!["x".to_string()]);
        },
        _ => panic!("expected the command plugin to answer"),
    }
}
