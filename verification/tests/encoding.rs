use sandbox_settings::SandboxNetworkConfig;
use sandbox_settings::SettingsObject;
use sandbox_settings::SandboxSettings;
use sandbox_settings::SandboxIgnoreViolations;
use serde_json::Value;

fn strings(items: &[&str]) -> Vec<String> {
    items.iter().map(|s| s.to_string()).collect()
}

fn full_sandbox() -> SandboxSettings {
    SandboxSettings::builder()
        .enabled(true)
        .auto_allow_bash_if_sandboxed(false)
        .excluded_commands(strings(&["git", "docker"]))
        .allow_unsandboxed_commands(false)
        .network(
            SandboxNetworkConfig::builder()
                .allow_unix_sockets(strings(&["/run/agent.sock"]))
                .allow_all_unix_sockets(false)
                .allow_local_binding(true)
                .http_proxy_port(8080)
                .socks_proxy_port(1080)
                .build(),
        )
        .ignore_violations(
            SandboxIgnoreViolations::builder()
                .file(strings(&["/tmp/a", "/tmp/b"]))
                .network(strings(&["example.com"]))
                .build(),
        )
        .enable_weaker_nested_sandbox(true)
        .build()
}

#[test]
fn unset_sandbox_settings_encode_as_empty_object() {
    let settings = SandboxSettings::builder().build();
    let json = settings.to_json();
    assert_eq!(json, Value::Object(serde_json::Map::new()));
    assert_eq!(json.to_string(), "{}");
}

#[test]
fn unset_network_and_violations_encode_as_empty_objects() {
    assert_eq!(SandboxNetworkConfig::builder().build().to_json().to_string(), "{}");
    assert_eq!(SandboxIgnoreViolations::builder().build().to_json().to_string(), "{}");
    assert_eq!(SettingsObject::builder().build().to_json_string(), "{}");
}

#[test]
fn http_proxy_port_alone_encodes_as_one_key() {
    let config = SandboxNetworkConfig::builder().http_proxy_port(8080).build();
    assert_eq!(config.to_json().to_string(), "{\"httpProxyPort\":8080}");
}

#[test]
fn port_limits_encode_as_numbers() {
    let config = SandboxNetworkConfig::builder().http_proxy_port(0).socks_proxy_port(65535).build();
    assert_eq!(config.to_json().to_string(), "{\"httpProxyPort\":0,\"socksProxyPort\":65535}");
}

#[test]
fn network_keys_are_camel_case() {
    let config = SandboxNetworkConfig::builder()
        .allow_unix_sockets(strings(&["/a", "/b"]))
        .allow_all_unix_sockets(true)
        .allow_local_binding(false)
        .http_proxy_port(3128)
        .socks_proxy_port(1080)
        .build();
    assert_eq!(
        config.to_json().to_string(),
        "{\"allowAllUnixSockets\":true,\"allowLocalBinding\":false,\"allowUnixSockets\":[\"/a\",\"/b\"],\"httpProxyPort\":3128,\"socksProxyPort\":1080}"
    );
}

#[test]
fn violation_keys_are_the_field_names() {
    let violations = SandboxIgnoreViolations::builder()
        .file(strings(&["/etc/hosts"]))
        .network(strings(&["localhost", "10.0.0.1"]))
        .build();
    assert_eq!(
        violations.to_json().to_string(),
        "{\"file\":[\"/etc/hosts\"],\"network\":[\"localhost\",\"10.0.0.1\"]}"
    );
}

#[test]
fn string_lists_keep_order_and_empty_lists_stay() {
    let violations = SandboxIgnoreViolations::builder().file(strings(&["b", "a", "b"])).network(Vec::new()).build();
    assert_eq!(violations.to_json().to_string(), "{\"file\":[\"b\",\"a\",\"b\"],\"network\":[]}");
}

#[test]
fn sandbox_keys_are_camel_case() {
    let json = full_sandbox().to_json();
    assert_eq!(
        json.to_string(),
        "{\"allowUnsandboxedCommands\":false,\"autoAllowBashIfSandboxed\":false,\"enableWeakerNestedSandbox\":true,\"enabled\":true,\"excludedCommands\":[\"git\",\"docker\"],\"ignoreViolations\":{\"file\":[\"/tmp/a\",\"/tmp/b\"],\"network\":[\"example.com\"]},\"network\":{\"allowAllUnixSockets\":false,\"allowLocalBinding\":true,\"allowUnixSockets\":[\"/run/agent.sock\"],\"httpProxyPort\":8080,\"socksProxyPort\":1080}}"
    );
}

#[test]
fn absent_fields_are_omitted_not_null() {
    let settings = SandboxSettings::builder().enabled(false).build();
    let json = settings.to_json();
    let object = json.as_object().unwrap();
    assert_eq!(object.len(), 1);
    assert_eq!(object.get("enabled"), Some(&Value::Bool(false)));
    assert!(!object.contains_key("network"));
    assert!(!object.values().any(|v| v.is_null()));
}

#[test]
fn absent_sandbox_gives_no_sandbox_key() {
    let mut extra = serde_json::Map::new();
    extra.insert("model".to_string(), Value::String("large".to_string()));
    let object = SettingsObject::builder().extra(extra).build();
    let json = object.to_json();
    assert!(!json.as_object().unwrap().contains_key("sandbox"));
    assert_eq!(json.to_string(), "{\"model\":\"large\"}");
}

#[test]
fn extra_entries_stand_at_the_top_level() {
    let mut extra = serde_json::Map::new();
    extra.insert("theme".to_string(), Value::String("dark".to_string()));
    extra.insert("retries".to_string(), Value::from(3));
    extra.insert("nothing".to_string(), Value::Null);
    let object = SettingsObject::builder()
        .sandbox(SandboxSettings::builder().enabled(true).build())
        .extra(extra.clone())
        .build();
    let json = object.to_json();
    let top = json.as_object().unwrap();
    assert!(!top.contains_key("extra"));
    for (key, value) in extra.iter() {
        assert_eq!(top.get(key), Some(value));
    }
    assert_eq!(top.len(), 4);
    assert_eq!(
        object.to_json_string(),
        "{\"nothing\":null,\"retries\":3,\"sandbox\":{\"enabled\":true},\"theme\":\"dark\"}"
    );
}

#[test]
fn extra_entry_named_sandbox_takes_the_place_of_the_policy() {
    let mut extra = serde_json::Map::new();
    extra.insert("sandbox".to_string(), Value::from(1));
    let object = SettingsObject::builder()
        .sandbox(SandboxSettings::builder().enabled(true).build())
        .extra(extra)
        .build();
    assert_eq!(object.to_json_string(), "{\"sandbox\":1}");
}

#[test]
fn json_text_is_the_text_of_the_json_object() {
    let object = SettingsObject::builder().sandbox(full_sandbox()).build();
    assert_eq!(object.to_json_string(), object.to_json().to_string());
    assert_eq!(
        object.to_json().as_object().unwrap().get("sandbox"),
        Some(&full_sandbox().to_json())
    );
}

#[test]
fn encoding_leaves_the_settings_as_they_were() {
    let mut extra = serde_json::Map::new();
    extra.insert("k".to_string(), Value::Bool(true));
    let object = SettingsObject::builder().extra(extra).build();
    let _ = object.to_json();
    assert_eq!(object.extra.len(), 1);
    assert!(object.sandbox.is_none());
}
