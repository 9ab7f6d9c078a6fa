use memproxy::config::{upstream_url, ConfigError, ServerConfig, ServiceInfo, Settings, UpstreamConfig};

fn config(endpoints: &[&str]) -> ServerConfig {
    ServerConfig {
        upstream: endpoints
            .iter()
            .map(|endpoint| UpstreamConfig { endpoint: endpoint.to_string() })
            .collect(),
    }
}

#[test]
fn one_upstream_gives_its_address() {
    assert_eq!(
        upstream_url(&config(&["127.0.0.1:11211"])),
        Ok("memcache://127.0.0.1:11211".to_string())
    );
}

#[test]
fn upstream_endpoint_is_taken_as_it_is() {
    assert_eq!(upstream_url(&config(&[""])), Ok("memcache://".to_string()));
    assert_eq!(
        upstream_url(&config(&["cache.example:1?timeout=10"])),
        Ok("memcache://cache.example:1?timeout=10".to_string())
    );
}

#[test]
fn no_upstream_is_refused() {
    assert_eq!(upstream_url(&config(&[])), Err(ConfigError::UpstreamCount(0)));
}

#[test]
fn two_upstreams_are_refused() {
    assert_eq!(
        upstream_url(&config(&["a:11211", "b:11211"])),
        Err(ConfigError::UpstreamCount(2))
    );
}

#[test]
fn many_upstreams_are_refused() {
    assert_eq!(
        upstream_url(&config(&["a:1", "a:1", "a:1"])),
        Err(ConfigError::UpstreamCount(3))
    );
}

#[test]
fn settings_default_to_the_fixed_values() {
    let settings = Settings::from_flags(None, None, None);
    assert_eq!(settings.config_file, "cfg-memproxy.json");
    assert_eq!(settings.bind_addr, "127.0.0.1");
    assert_eq!(settings.bind_port, "8080");
    assert_eq!(settings.bind_pair(), "127.0.0.1:8080");
}

#[test]
fn settings_take_what_was_asked_for() {
    let settings = Settings::from_flags(
        Some("/etc/gate.json".to_string()),
        Some("0.0.0.0".to_string()),
        Some("9090".to_string()),
    );
    assert_eq!(
        settings,
        Settings {
            config_file: "/etc/gate.json".to_string(),
            bind_addr: "0.0.0.0".to_string(),
            bind_port: "9090".to_string(),
        }
    );
    assert_eq!(settings.bind_pair(), "0.0.0.0:9090");
}

#[test]
fn settings_mix_given_and_default() {
    let settings = Settings::from_flags(None, None, Some("81".to_string()));
    assert_eq!(settings.config_file, "cfg-memproxy.json");
    assert_eq!(settings.bind_pair(), "127.0.0.1:81");
    let settings = Settings::from_flags(None, Some("::1".to_string()), None);
    assert_eq!(settings.bind_pair(), "::1:8080");
}

#[test]
fn service_is_named_memproxy() {
    let info = ServiceInfo::new("0.1.0");
    assert_eq!(info.name, "memproxy");
    assert_eq!(info.version, "0.1.0");
}

#[test]
fn server_header_is_name_slash_version() {
    assert_eq!(ServiceInfo::new("0.1.0").server_header(), "memproxy/0.1.0");
    let info = ServiceInfo { name: "gate".to_string(), version: "".to_string() };
    assert_eq!(info.server_header(), "gate/");
}
