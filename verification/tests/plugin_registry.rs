use mefirst::plugin::command::CommandPlugin;
use mefirst::plugin::matcher::PatternMatcher;
use mefirst::plugin::{InterceptionPlugin, Plugin, PluginRegistry};

// A plugin that matches exactly one path and answers with `echo <body>`.
fn test_plugin(pattern: &str, body: &str) -> Plugin {
    Plugin::Command(CommandPlugin {
        matcher: PatternMatcher::Exact(pattern.to_string()),
        command: "echo".to_string(),
        args: vec![body.to_string()],
        status_code: 200,
        timeout_secs: 30,
        pattern: pattern.to_string(),
        proxy_request_stdin: false,
    })
}

#[test]
fn test_plugin_registry_empty() {
    let registry: PluginRegistry<Plugin> = PluginRegistry::new();
    assert!(registry.is_empty());
    assert_eq!(registry.len(), 0);
}

#[test]
fn test_plugin_registry_register() {
    let mut registry = PluginRegistry::new();
    registry.register(test_plugin("/test", "test"));
    assert_eq!(registry.len(), 1);
    assert!(!registry.is_empty());
}

#[test]
fn test_plugin_registry_find_match() {
    let mut registry = PluginRegistry::new();
    registry.register(test_plugin("/test1", "test1"));
    registry.register(test_plugin("/test2", "test2"));
    let headers = Vec::new();
    // Test matching
    assert!(registry.find_match("/test1", None, &headers).is_some());
    assert!(registry.find_match("/test2", None, &headers).is_some());
    assert!(registry.find_match("/test3", None, &headers).is_none());
}

#[test]
fn test_plugin_registry_first_match() {
    let mut registry = PluginRegistry::new();
    // Register two plugins with the same pattern
    registry.register(test_plugin("/test", "first"));
    registry.register(test_plugin("/test", "second"));
    let headers = Vec::new();
    // Should return the first matching plugin
    let matched = registry.find_match("/test", None, &headers);
    assert!(matched.is_some());
    assert_eq!(matched.unwrap().pattern(), "/test");
    match matched.unwrap() {
        Plugin::Command(p) => assert_eq!(p.args, vec!["first".to_string()]),
        _ => panic!("expected the command plugin"),
    }
}
