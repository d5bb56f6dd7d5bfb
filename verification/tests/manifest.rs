use cargo_uwp::manifest::{
    add_windows_dependencies, add_windows_dependencies_to, try_add_windows_dependencies,
    try_add_windows_dependencies_to, ManifestError,
};

const NEW_MANIFEST: &str = "[package]\nname = \"uwp-rs\"\nversion = \"0.1.0\"\nedition = \"2018\"\n\n[dependencies]\n";

#[test]
fn adds_bindings_and_windows_dependencies() {
    let out = match add_windows_dependencies(NEW_MANIFEST) {
        Ok(out) => out,
        Err(_) => panic!("a valid manifest must be updated"),
    };
    assert_eq!(
        out,
        "[package]\nname = \"uwp-rs\"\nversion = \"0.1.0\"\nedition = \"2018\"\n\n[dependencies]\nbindings = { path = \"./bindings\" }\nwindows = \"0.18.0\"\n"
    );
    let doc = out.parse::<toml_edit::Document>().unwrap();
    assert_eq!(doc["dependencies"]["windows"].as_str(), Some("0.18.0"));
    assert_eq!(doc["dependencies"]["bindings"]["path"].as_str(), Some("./bindings"));
    assert_eq!(doc["package"]["name"].as_str(), Some("uwp-rs"));
}

#[test]
fn replaces_existing_entries_and_keeps_others() {
    let text = "[package]\nname = \"a\"\n\n[dependencies]\nserde = \"1\"\nwindows = \"0.9\"\n";
    let out = match add_windows_dependencies(text) {
        Ok(out) => out,
        Err(_) => panic!("a valid manifest must be updated"),
    };
    let doc = out.parse::<toml_edit::Document>().unwrap();
    assert_eq!(doc["dependencies"]["serde"].as_str(), Some("1"));
    assert_eq!(doc["dependencies"]["windows"].as_str(), Some("0.18.0"));
    assert_eq!(doc["dependencies"]["bindings"]["path"].as_str(), Some("./bindings"));
}

#[test]
fn invalid_toml_is_an_error() {
    match add_windows_dependencies("[package\nname = ") {
        Err(ManifestError::InvalidToml(message)) => assert!(!message.is_empty()),
        Ok(_) => panic!("invalid TOML must be refused"),
    }
    match try_add_windows_dependencies("$package-identity-name$\n") {
        Some(Err(ManifestError::InvalidToml(_))) => {}
        _ => panic!("invalid TOML must be refused"),
    }
}

#[test]
fn manifest_without_dependencies_table_is_not_taken() {
    assert!(try_add_windows_dependencies("[package]\nname = \"a\"\n").is_none());
    assert!(try_add_windows_dependencies("dependencies = { serde = \"1\" }\n").is_none());
}

#[test]
fn try_add_agrees_with_add_on_valid_manifests() {
    match (try_add_windows_dependencies(NEW_MANIFEST), add_windows_dependencies(NEW_MANIFEST)) {
        (Some(Ok(a)), Ok(b)) => assert_eq!(a, b),
        _ => panic!("both must succeed"),
    }
}

#[test]
fn adds_dependencies_to_a_parsed_document() {
    let mut doc = "[dependencies]\n".parse::<toml_edit::Document>().unwrap();
    add_windows_dependencies_to(&mut doc);
    assert_eq!(doc["dependencies"]["windows"].as_str(), Some("0.18.0"));
    assert_eq!(doc["dependencies"]["bindings"]["path"].as_str(), Some("./bindings"));
}

#[test]
fn keeps_every_other_key_of_the_manifest() {
    let text = "[package]\nname = \"a\"\nversion = \"0.1.0\"\n\n[dependencies]\nserde = { version = \"1\", features = [\"derive\"] }\n\n[build-dependencies]\ntoml = \"0.5.8\"\n";
    let out = match add_windows_dependencies(text) {
        Ok(out) => out,
        Err(_) => panic!("a valid manifest must be updated"),
    };
    let doc = out.parse::<toml_edit::Document>().unwrap();
    assert_eq!(doc["package"]["name"].as_str(), Some("a"));
    assert_eq!(doc["package"]["version"].as_str(), Some("0.1.0"));
    assert_eq!(doc["dependencies"]["serde"]["version"].as_str(), Some("1"));
    assert_eq!(doc["build-dependencies"]["toml"].as_str(), Some("0.5.8"));
}

#[test]
fn try_add_to_leaves_documents_without_dependencies_alone() {
    let mut doc = "[package]\nname = \"a\"\n".parse::<toml_edit::Document>().unwrap();
    let before = doc.to_string();
    assert!(!try_add_windows_dependencies_to(&mut doc));
    assert_eq!(doc.to_string(), before);
    let mut doc = "[dependencies]\n".parse::<toml_edit::Document>().unwrap();
    assert!(try_add_windows_dependencies_to(&mut doc));
    assert_eq!(doc["dependencies"]["windows"].as_str(), Some("0.18.0"));
}

#[test]
fn invalid_toml_message_is_the_parse_error() {
    let text = "[package\nname = ";
    let expected = text.parse::<toml_edit::Document>().unwrap_err().to_string();
    match add_windows_dependencies(text) {
        Err(ManifestError::InvalidToml(message)) => assert_eq!(message, expected),
        Ok(_) => panic!("invalid TOML must be refused"),
    }
}

#[test]
fn bindings_come_before_windows_when_both_are_new() {
    let out = match add_windows_dependencies("[dependencies]\nserde = \"1\"\n") {
        Ok(out) => out,
        Err(_) => panic!("a valid manifest must be updated"),
    };
    let serde = out.find("serde").unwrap();
    let bindings = out.find("bindings").unwrap();
    let windows = out.find("windows").unwrap();
    assert!(serde < bindings);
    assert!(bindings < windows);
}

#[test]
fn an_existing_windows_entry_keeps_its_place() {
    let out = match add_windows_dependencies("[dependencies]\nwindows = \"0.9\"\nserde = \"1\"\n") {
        Ok(out) => out,
        Err(_) => panic!("a valid manifest must be updated"),
    };
    let windows = out.find("windows").unwrap();
    let serde = out.find("serde").unwrap();
    let bindings = out.find("bindings").unwrap();
    assert!(windows < serde);
    assert!(serde < bindings);
    assert!(out.contains("windows = \"0.18.0\""));
}

#[test]
fn try_add_to_refuses_a_document_whose_root_is_no_table() {
    let mut doc = toml_edit::Document::new();
    doc.root = toml_edit::value("not a table");
    assert!(!try_add_windows_dependencies_to(&mut doc));
    assert!(doc.root.is_value());
}
