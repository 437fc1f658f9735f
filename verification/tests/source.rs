use sandbox_settings::SettingsObject;
use sandbox_settings::SandboxSettings;
use sandbox_settings::Settings;
use serde_json::Value;
use std::path::{Path, PathBuf};

#[test]
fn path_buf_becomes_the_path_form_unchanged() {
    let path = PathBuf::from("/etc/tool/settings.json");
    match Settings::from(path.clone()) {
        Settings::Path(held) => assert_eq!(held, path),
        other => panic!("expected the path form, got {:?}", other),
    }
}

#[test]
fn borrowed_path_becomes_the_path_form_unchanged() {
    let path = Path::new("relative/settings.json");
    match Settings::from(path) {
        Settings::Path(held) => assert_eq!(held.as_path(), path),
        other => panic!("expected the path form, got {:?}", other),
    }
    let missing = Path::new("/no/such/dir/anywhere.json");
    assert!(matches!(Settings::from(missing), Settings::Path(held) if held == missing));
    let empty = Path::new("");
    assert!(matches!(Settings::from(empty), Settings::Path(held) if held == empty));
}

#[test]
fn object_becomes_the_structured_form_unchanged() {
    let mut extra = serde_json::Map::new();
    extra.insert("k".to_string(), Value::from(1));
    let object = SettingsObject::builder()
        .sandbox(SandboxSettings::builder().enabled(true).build())
        .extra(extra.clone())
        .build();
    match Settings::from(object) {
        Settings::Object(held) => {
            assert_eq!(held.sandbox.unwrap().enabled, Some(true));
            assert_eq!(held.extra, extra);
        }
        other => panic!("expected the structured form, got {:?}", other),
    }
}

#[test]
fn into_gives_the_same_form_as_from() {
    let settings: Settings = PathBuf::from("a.json").into();
    assert!(matches!(settings, Settings::Path(p) if p == PathBuf::from("a.json")));
    let settings: Settings = SettingsObject::default().into();
    assert!(matches!(settings, Settings::Object(o) if o.sandbox.is_none() && o.extra.is_empty()));
}

#[test]
fn raw_text_is_held_without_a_look_at_it() {
    let settings = Settings::Json("not json at all {".to_string());
    match settings.clone() {
        Settings::Json(text) => assert_eq!(text, "not json at all {"),
        other => panic!("expected the raw form, got {:?}", other),
    }
    assert_eq!(format!("{:?}", settings), "Json(\"not json at all {\")");
}
