use sandbox_settings::SandboxNetworkConfig;
use sandbox_settings::SettingsObject;
use sandbox_settings::SandboxSettings;
use sandbox_settings::SandboxIgnoreViolations;
use serde_json::Value;

#[test]
fn builders_start_with_every_field_absent() {
    let network = SandboxNetworkConfig::builder().build();
    assert!(network.allow_unix_sockets.is_none());
    assert_eq!(network.allow_all_unix_sockets, None);
    assert_eq!(network.allow_local_binding, None);
    assert_eq!(network.http_proxy_port, None);
    assert_eq!(network.socks_proxy_port, None);

    let violations = SandboxIgnoreViolations::builder().build();
    assert!(violations.file.is_none());
    assert!(violations.network.is_none());

    let sandbox = SandboxSettings::builder().build();
    assert_eq!(sandbox.enabled, None);
    assert_eq!(sandbox.auto_allow_bash_if_sandboxed, None);
    assert!(sandbox.excluded_commands.is_none());
    assert_eq!(sandbox.allow_unsandboxed_commands, None);
    assert!(sandbox.network.is_none());
    assert!(sandbox.ignore_violations.is_none());
    assert_eq!(sandbox.enable_weaker_nested_sandbox, None);

    let object = SettingsObject::builder().build();
    assert!(object.sandbox.is_none());
    assert!(object.extra.is_empty());
}

#[test]
fn defaults_are_the_unset_values() {
    assert_eq!(SandboxNetworkConfig::default().to_json().to_string(), "{}");
    assert_eq!(SandboxIgnoreViolations::default().to_json().to_string(), "{}");
    assert_eq!(SandboxSettings::default().to_json().to_string(), "{}");
    assert_eq!(SettingsObject::default().to_json().to_string(), "{}");
}

#[test]
fn setters_mark_their_field_present_and_leave_the_others() {
    let network = SandboxNetworkConfig::builder().allow_local_binding(false).socks_proxy_port(1080).build();
    assert_eq!(network.allow_local_binding, Some(false));
    assert_eq!(network.socks_proxy_port, Some(1080));
    assert_eq!(network.http_proxy_port, None);
    assert_eq!(network.allow_all_unix_sockets, None);
    assert!(network.allow_unix_sockets.is_none());

    let network = SandboxNetworkConfig::builder()
        .allow_unix_sockets(vec!["/run/a.sock".to_string()])
        .allow_all_unix_sockets(true)
        .http_proxy_port(8080)
        .build();
    assert_eq!(network.allow_unix_sockets, Some(vec!["/run/a.sock".to_string()]));
    assert_eq!(network.allow_all_unix_sockets, Some(true));
    assert_eq!(network.http_proxy_port, Some(8080));
    assert_eq!(network.socks_proxy_port, None);
}

#[test]
fn sandbox_setters_hold_what_they_are_given() {
    let sandbox = SandboxSettings::builder()
        .enabled(true)
        .auto_allow_bash_if_sandboxed(false)
        .excluded_commands(vec!["git".to_string(), "docker".to_string()])
        .allow_unsandboxed_commands(false)
        .network(SandboxNetworkConfig::builder().http_proxy_port(1).build())
        .ignore_violations(SandboxIgnoreViolations::builder().file(vec!["/x".to_string()]).build())
        .enable_weaker_nested_sandbox(true)
        .build();
    assert_eq!(sandbox.enabled, Some(true));
    assert_eq!(sandbox.auto_allow_bash_if_sandboxed, Some(false));
    assert_eq!(sandbox.excluded_commands, Some(vec!["git".to_string(), "docker".to_string()]));
    assert_eq!(sandbox.allow_unsandboxed_commands, Some(false));
    assert_eq!(sandbox.network.unwrap().http_proxy_port, Some(1));
    assert_eq!(sandbox.ignore_violations.unwrap().file, Some(vec!["/x".to_string()]));
    assert_eq!(sandbox.enable_weaker_nested_sandbox, Some(true));
}

#[test]
fn a_later_setter_replaces_an_earlier_one() {
    let network = SandboxNetworkConfig::builder().http_proxy_port(1).http_proxy_port(2).build();
    assert_eq!(network.http_proxy_port, Some(2));
    let violations = SandboxIgnoreViolations::builder()
        .network(vec!["a".to_string()])
        .network(vec!["b".to_string()])
        .build();
    assert_eq!(violations.network, Some(vec!["b".to_string()]));
}

#[test]
fn no_port_is_refused() {
    let network = SandboxNetworkConfig::builder().http_proxy_port(0).socks_proxy_port(u16::MAX).build();
    assert_eq!(network.http_proxy_port, Some(0));
    assert_eq!(network.socks_proxy_port, Some(65535));
}

#[test]
fn object_builder_holds_sandbox_and_extra() {
    let mut extra = serde_json::Map::new();
    extra.insert("a".to_string(), Value::Bool(true));
    let object = SettingsObject::builder()
        .extra(extra.clone())
        .sandbox(SandboxSettings::builder().enabled(false).build())
        .build();
    assert_eq!(object.extra, extra);
    assert_eq!(object.sandbox.unwrap().enabled, Some(false));
}

#[test]
fn clones_hold_the_same_values() {
    let sandbox = SandboxSettings::builder()
        .excluded_commands(vec!["git".to_string()])
        .network(SandboxNetworkConfig::builder().socks_proxy_port(5).build())
        .build();
    let copy = sandbox.clone();
    assert_eq!(copy.to_json(), sandbox.to_json());
    assert_eq!(format!("{:?}", copy), format!("{:?}", sandbox));
}
