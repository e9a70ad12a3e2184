use mefirst::capability::check_all_capabilities;
use mefirst::config::{PatternConfig, PatternType, PluginConfig, ResponseSource};
use mefirst::plugin::PluginFactory;
use mefirst::process::retriever::process_info_from_proc;
use mefirst::process::ProcessInfo;
use std::io::Write;
use tempfile::NamedTempFile;
use mefirst::config::{Config, ConfigFile, ConnectionInterceptionConfig};
use mefirst::redirect::{
    check_kernel_version, ebpf_target_ip, parse_ipv4_to_u32, redirect_connect4_decision,
    redirect_connect6_decision,
};

fn file_with(interception: Option<ConnectionInterceptionConfig>) -> ConfigFile {
    ConfigFile {
        cgroup_path: "/sys/fs/cgroup".to_string(),
        plugins: vec![],
        interception,
        target_address: "169.254.169.254".to_string(),
        target_port: 80,
        bind_port: 8080,
        enable_metrics: true,
        metrics_port: 9090,
        inject_process_headers: false,
    }
}

#[test]
fn test_ip_agnostic_mode_configuration() {
    // [interception] with a port and no ip intercepts every address on the port
    let mut config = Config::default();
    config.merge_from_file(file_with(Some(ConnectionInterceptionConfig { ip: None, port: 80 })));
    assert_eq!(config.target_address, "0.0.0.0");
    assert_eq!(ebpf_target_ip(&config.target_address).unwrap(), 0);
    assert_eq!(ebpf_target_ip("").unwrap(), 0);
}

#[test]
fn test_ip_specific_mode_configuration() {
    let mut config = Config::default();
    config.merge_from_file(file_with(Some(ConnectionInterceptionConfig { ip: Some("169.254.169.254".to_string()), port: 80 })));
    assert_eq!(config.target_address, "169.254.169.254");
    assert_eq!(ebpf_target_ip(&config.target_address).unwrap(), 0xFEA9FEA9);
}

#[test]
fn test_parse_ipv4_to_u32() {
    assert_eq!(parse_ipv4_to_u32("127.0.0.1").unwrap(), 0x0100007F);
    assert_eq!(parse_ipv4_to_u32("10.1.2.3").unwrap(), 0x0302010A);
    assert_eq!(parse_ipv4_to_u32("+1.0.0.0").unwrap(), 1);
    assert_eq!(
        parse_ipv4_to_u32("1.2.3").unwrap_err().message(),
        "Configuration error: Invalid IPv4 address: 1.2.3. Expected format: x.x.x.x"
    );
    assert_eq!(
        parse_ipv4_to_u32("1.2.3.256").unwrap_err().message(),
        "Configuration error: Invalid IPv4 octet in address 1.2.3.256: 256"
    );
    assert!(parse_ipv4_to_u32("1..3.4").is_err());
}

#[test]
fn test_kernel_version_check() {
    assert_eq!(check_kernel_version("Linux version 6.8.0-45-generic (buildd@lcy02) #45").unwrap(), (6, 8));
    assert_eq!(check_kernel_version("Linux version 4.17.1 x").unwrap(), (4, 17));
    assert_eq!(
        check_kernel_version("Linux version 4.16.3 x").unwrap_err().message(),
        "eBPF not supported on this system: Kernel version 4.16 is too old. eBPF cgroup socket redirection requires kernel 4.17 or newer"
    );
    assert!(check_kernel_version("garbage").is_err());
}

#[test]
fn test_connect4_redirects_target_to_proxy() {
    // 169.254.169.254:80 (port in network byte order) from another process goes to 127.0.0.1:8080
    let r = redirect_connect4_decision(100, Some(42), Some(0xFEA9FEA9), Some(80), Some(8080), 0xFEA9FEA9, 0x5000);
    assert_eq!(r, Some((0x0100007F, 0x901F)));
    // the proxy's own connections are never redirected
    assert_eq!(redirect_connect4_decision(42, Some(42), Some(0xFEA9FEA9), Some(80), Some(8080), 0xFEA9FEA9, 0x5000), None);
    // another address is left alone in IP-specific mode, redirected in IP-agnostic mode
    assert_eq!(redirect_connect4_decision(100, Some(42), Some(0xFEA9FEA9), Some(80), Some(8080), 0x0100000A, 0x5000), None);
    assert_eq!(redirect_connect4_decision(100, Some(42), Some(0), Some(80), Some(8080), 0x0100000A, 0x5000), Some((0x0100007F, 0x901F)));
    // another port is left alone
    assert_eq!(redirect_connect4_decision(100, None, None, None, None, 0xFEA9FEA9, 0xBB01), None);
}

#[test]
fn test_connect6_redirects_port_to_proxy() {
    assert_eq!(redirect_connect6_decision(100, Some(42), Some(80), Some(8080), 0x5000), Some(([0, 0, 0, 0x01000000], 0x901F)));
    assert_eq!(redirect_connect6_decision(42, Some(42), Some(80), Some(8080), 0x5000), None);
    assert_eq!(redirect_connect6_decision(100, Some(42), Some(80), Some(8080), 0xBB01), None);
}

fn response_file() -> NamedTempFile {
    let mut temp_file = NamedTempFile::new().unwrap();
    temp_file.write_all(b"response").unwrap();
    temp_file
}

fn plugin_config(file: &NamedTempFile) -> PluginConfig {
    PluginConfig {
        pattern: "/test".to_string(),
        pattern_type: PatternType::Exact,
        response_source: ResponseSource::File { path: file.path().to_str().unwrap().to_string() },
        status_code: 200,
        timeout_secs: None,
        uid: None,
        username: None,
        executable_pattern: None,
        cmdline_pattern: None,
        host_pattern: None,
        proxy_request_stdin: None,
    }
}

fn test_process_info() -> ProcessInfo {
    ProcessInfo {
        uid: 1000,
        username: "testuser".to_string(),
        pid: 12345,
        executable: "/usr/bin/curl".to_string(),
        cmdline: "curl http://example.com".to_string(),
    }
}

#[test]
fn test_host_pattern_works_without_ip_filter() {
    let f = response_file();
    let mut config = plugin_config(&f);
    config.host_pattern = Some(PatternConfig { pattern: "*.example.com".to_string(), pattern_type: PatternType::Glob });

    let registry = PluginFactory::create_registry(&vec![config]).unwrap();
    let process_info = test_process_info();
    let headers = vec![("host".to_string(), "api.example.com".to_string())];

    // Host pattern should work regardless of IP interception mode
    let plugin = registry.find_match("/test", Some(&process_info), &headers);
    assert!(plugin.is_some());
}

#[test]
fn test_process_filters_skipped_when_ebpf_disabled() {
    let f = response_file();
    let mut config = plugin_config(&f);
    config.uid = Some(1000);

    let registry = PluginFactory::create_registry(&vec![config]).unwrap();
    let headers = Vec::new();

    // Without process metadata (simulating eBPF disabled), should not match
    let plugin = registry.find_match("/test", None, &headers);
    assert!(plugin.is_none());
}

#[test]
fn test_ebpf_disabled_warning_configuration() {
    let f = response_file();
    let mut config = plugin_config(&f);
    config.uid = Some(1000);
    config.username = Some("testuser".to_string());

    // Config has process filters (uid, username)
    assert!(config.uid.is_some() || config.username.is_some());
}

#[test]
fn test_proxy_continues_without_process_metadata() {
    let f = response_file();
    let registry = PluginFactory::create_registry(&vec![plugin_config(&f)]).unwrap();
    let headers = Vec::new();

    // Should match even without process metadata
    let plugin = registry.find_match("/test", None, &headers);
    assert!(plugin.is_some());
}

#[test]
fn test_graceful_degradation_with_partial_metadata() {
    let process_info = ProcessInfo {
        uid: 1000,
        username: "1000".to_string(),
        pid: 12345,
        executable: "<unknown-12345>".to_string(),
        cmdline: String::new(),
    };
    assert_eq!(process_info.uid, 1000);
    assert_eq!(process_info.username, "1000");
    assert_eq!(process_info.executable, "<unknown-12345>");
    assert_eq!(process_info.cmdline, "");

    // The record the retriever builds when nothing but the uid could be read
    let built = process_info_from_proc(12345, 1000, None, None, None);
    assert_eq!(built.uid, process_info.uid);
    assert_eq!(built.username, process_info.username);
    assert_eq!(built.pid, process_info.pid);
    assert_eq!(built.executable, process_info.executable);
    assert_eq!(built.cmdline, process_info.cmdline);
}

#[test]
fn test_proxy_continues_without_capabilities() {
    // Test that capability checking doesn't prevent proxy startup
    let result = check_all_capabilities();

    let status = result.unwrap();
    // Regardless of capability status, the check should complete
    assert!(status.has_sys_ptrace == true || status.has_sys_ptrace == false);
    assert!(status.has_dac_read_search == true || status.has_dac_read_search == false);
}
