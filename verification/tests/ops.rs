use cargo_uwp::data::package_metadata_init_text;
use cargo_uwp::ops::{
    copy_file, fill_metadata, Action, Event, Failure, FileWrite, MetadataDefaults, MetadataEntry,
    New, NewOperation, Stage, Templates,
};

fn units(s: &str) -> Vec<u16> {
    s.encode_utf16().collect()
}

fn path(items: &[&str]) -> Vec<Vec<u16>> {
    items.iter().map(|s| units(s)).collect()
}

fn entry(key: &str, value: &str) -> MetadataEntry {
    MetadataEntry { key: key.to_string(), value: value.to_string() }
}

fn defaults() -> MetadataDefaults {
    MetadataDefaults {
        identity_name: entry("package-identity-name", "<identity name>"),
        identity_publisher: entry("package-identity-publisher", "<identity publisher>"),
        publisher_display_name: entry("package-properties-publisherdisplayname", "<publisher display name>"),
        visual_display_name: entry("package-applications-visualelements-displayname", "<display name>"),
        visual_description: entry("package-applications-visualelements-description", "<description>"),
    }
}

fn templates() -> Templates {
    Templates {
        rust_toolchain_toml: b"[toolchain]\nchannel = \"nightly\"\n".to_vec(),
        cargo_config_toml: b"[unstable]\nbuild-std = [\"std\"]\n".to_vec(),
        store_logo_png: vec![1],
        splash_screen_png: vec![2],
        square_44_logo_png: vec![3],
        square_150_logo_png: vec![4],
        appx_manifest_template: b"<Package/>".to_vec(),
        file_mappings_template: b"[Files]".to_vec(),
        build_rs: b"fn main() {}\n".to_vec(),
        build_shared_rs: b"pub const KEY: &str = \"k\";\n".to_vec(),
        src_main_rs: b"fn main() { /* app */ }\n".to_vec(),
        bindings_cargo_toml: "[dependencies]\nwindows = \"$windows-rs-version$\"\n\n[build-dependencies]\nwindows = \"$windows-rs-version$\"\n".to_string(),
        bindings_build_rs: b"fn main() { /* bindings */ }\n".to_vec(),
        bindings_src_lib_rs: b"windows::include_bindings!();\n".to_vec(),
        metadata: defaults(),
    }
}

fn operation(root: &str) -> NewOperation {
    New { path: units(root) }.operation(templates())
}

fn expect_write(a: Action) -> FileWrite {
    match a {
        Action::Write(w) => w,
        _ => panic!("a write was expected"),
    }
}

fn failure(message: &str) -> Failure {
    Failure { message: message.to_string(), cause: None }
}

const NEW_MANIFEST: &str = "[package]\nname = \"uwp-rs\"\nversion = \"0.1.0\"\nedition = \"2018\"\n\n[dependencies]\n";

/// Runs the operation up to reading the manifest as text; returns the writes.
fn run_to_manifest_text(op: &mut NewOperation, root: &str, manifest: &[u8]) -> Vec<FileWrite> {
    let mut writes = Vec::new();
    match op.step(Event::Begin) {
        Action::RunCargo(args) => assert_eq!(args, path(&["new", "--color", "always", root])),
        _ => panic!("cargo new comes first"),
    }
    writes.push(expect_write(op.step(Event::Completed)));
    match op.step(Event::Completed) {
        Action::Read(p) => assert_eq!(p, path(&[root, "Cargo.toml"])),
        _ => panic!("the manifest is read"),
    }
    writes.push(expect_write(op.step(Event::Read(manifest.to_vec()))));
    for _ in 0..13 {
        writes.push(expect_write(op.step(Event::Completed)));
    }
    match op.step(Event::Completed) {
        Action::ReadText(p) => assert_eq!(p, path(&[root, "Cargo.toml"])),
        _ => panic!("the manifest is read as text"),
    }
    assert_eq!(op.stage(), Stage::ReadingManifestText);
    writes
}

fn filled_metadata_text() -> String {
    package_metadata_init_text()
        .replace("$package-identity-name$", "package-identity-name = \"<identity name>\"")
        .replace("$package-identity-publisher$", "package-identity-publisher = \"<identity publisher>\"")
        .replace("$package-properties-publisherdisplayname$", "package-properties-publisherdisplayname = \"<publisher display name>\"")
        .replace("$package-applications-visualelements-displayname$", "package-applications-visualelements-displayname = \"<display name>\"")
        .replace("$package-applications-visualelements-description$", "package-applications-visualelements-description = \"<description>\"")
}

#[test]
fn fill_metadata_replaces_every_placeholder() {
    let filled = fill_metadata(&defaults());
    assert_eq!(filled, filled_metadata_text());
    assert!(!filled.contains('$'));
    assert!(filled.contains("package-identity-name = \"<identity name>\""));
    let doc = format!("{}{}", NEW_MANIFEST, filled).parse::<toml_edit::Document>().unwrap();
    assert_eq!(doc["package"]["metadata"]["appxmanifest"]["package-identity-name"].as_str(), Some("<identity name>"));
    assert_eq!(doc["build-dependencies"]["cargo-uwp"].as_str(), Some("0.2.0"));
}

#[test]
fn creation_writes_the_package_tree_in_order() {
    let mut op = operation("uwp-rs");
    let writes = run_to_manifest_text(&mut op, "uwp-rs", NEW_MANIFEST.as_bytes());
    assert_eq!(writes.len(), 15);
    let t = templates();
    let expected: Vec<(&[&str], Vec<u8>)> = vec![
        (&["uwp-rs", "rust-toolchain.toml"], t.rust_toolchain_toml.clone()),
        (&["uwp-rs", "Cargo.toml"], format!("{}{}", NEW_MANIFEST, filled_metadata_text()).into_bytes()),
        (&["uwp-rs", ".cargo", "config.toml"], t.cargo_config_toml.clone()),
        (&["uwp-rs", "Assets", "StoreLogo.png"], t.store_logo_png.clone()),
        (&["uwp-rs", "Assets", "SplashScreen.scale-200.png"], t.splash_screen_png.clone()),
        (&["uwp-rs", "Assets", "Square44x44Logo.scale-200.png"], t.square_44_logo_png.clone()),
        (&["uwp-rs", "Assets", "Square150x150Logo.scale-200.png"], t.square_150_logo_png.clone()),
        (&["uwp-rs", "templates", "AppxManifest.xml"], t.appx_manifest_template.clone()),
        (&["uwp-rs", "templates", "FileMapping.ini"], t.file_mappings_template.clone()),
        (&["uwp-rs", ".build", "main.rs"], t.build_rs.clone()),
        (&["uwp-rs", ".build", "shared.rs"], t.build_shared_rs.clone()),
        (&["uwp-rs", "src", "main.rs"], t.src_main_rs.clone()),
        (
            &["uwp-rs", "bindings", "Cargo.toml"],
            b"[dependencies]\nwindows = \"0.18.0\"\n\n[build-dependencies]\nwindows = \"0.18.0\"\n".to_vec(),
        ),
        (&["uwp-rs", "bindings", "build.rs"], t.bindings_build_rs.clone()),
        (&["uwp-rs", "bindings", "src", "lib.rs"], t.bindings_src_lib_rs.clone()),
    ];
    for (w, (file, contents)) in writes.iter().zip(expected.iter()) {
        assert_eq!(w.file, path(file));
        assert_eq!(w.dir, path(&file[..file.len() - 1]));
        assert_eq!(&w.contents, contents);
        assert_eq!(w.create_dir, file[1] != "Cargo.toml");
    }
}

#[test]
fn creation_adds_dependencies_keeps_the_rest_and_finishes() {
    let mut op = operation("uwp-rs");
    run_to_manifest_text(&mut op, "uwp-rs", NEW_MANIFEST.as_bytes());
    let text = format!("{}{}", NEW_MANIFEST, filled_metadata_text());
    let w = expect_write(op.step(Event::ReadText(text)));
    assert_eq!(w.file, path(&["uwp-rs", "Cargo.toml"]));
    assert!(!w.create_dir);
    let out = String::from_utf8(w.contents).unwrap();
    assert!(!out.contains("$package-"));
    let doc = out.parse::<toml_edit::Document>().unwrap();
    assert_eq!(doc["package"]["name"].as_str(), Some("uwp-rs"));
    assert_eq!(doc["package"]["version"].as_str(), Some("0.1.0"));
    assert_eq!(doc["dependencies"]["windows"].as_str(), Some("0.18.0"));
    assert_eq!(doc["dependencies"]["bindings"]["path"].as_str(), Some("./bindings"));
    assert_eq!(doc["build-dependencies"]["toml"].as_str(), Some("0.5.8"));
    assert_eq!(doc["build-dependencies"]["cargo-uwp"].as_str(), Some("0.2.0"));
    assert!(doc["package"]["metadata"]["appxmanifest"].is_table());
    match op.step(Event::Completed) {
        Action::Finish(Ok(())) => {}
        _ => panic!("the operation finishes"),
    }
    assert_eq!(op.stage(), Stage::Finished);
    assert!(!op.accepts(&Event::Completed));
}

#[test]
fn invalid_manifest_text_finishes_with_an_error() {
    let mut op = operation("uwp-rs");
    run_to_manifest_text(&mut op, "uwp-rs", NEW_MANIFEST.as_bytes());
    match op.step(Event::ReadText("[package\n".to_string())) {
        Action::Finish(Err(f)) => {
            assert!(!f.message.is_empty());
            assert_eq!(f.cause, None);
        }
        _ => panic!("invalid TOML ends the operation"),
    }
    assert_eq!(op.stage(), Stage::Finished);
}

#[test]
fn manifest_without_dependencies_gives_up() {
    let mut op = operation("uwp-rs");
    run_to_manifest_text(&mut op, "uwp-rs", b"[package]\n");
    match op.step(Event::ReadText("[package]\nname = \"uwp-rs\"\n".to_string())) {
        Action::MissingDependenciesTable => {}
        _ => panic!("a manifest without dependencies cannot be updated"),
    }
}

#[test]
fn failure_finishes_with_it() {
    let mut op = operation("uwp-rs");
    let _ = op.step(Event::Begin);
    assert!(op.accepts(&Event::Failed(failure("x"))));
    assert!(!op.accepts(&Event::Begin));
    let f = Failure { message: "Executing cargo new".to_string(), cause: Some("program not found".to_string()) };
    match op.step(Event::Failed(f)) {
        Action::Finish(Err(f)) => {
            assert_eq!(f.message, "Executing cargo new");
            assert_eq!(f.cause, Some("program not found".to_string()));
        }
        _ => panic!("a failure ends the operation"),
    }
    assert_eq!(op.stage(), Stage::Finished);

    let mut op = operation("uwp-rs");
    let _ = op.step(Event::Begin);
    let _ = op.step(Event::Completed);
    let _ = op.step(Event::Completed);
    match op.step(Event::Failed(failure("not found"))) {
        Action::Finish(Err(f)) => assert_eq!(f.message, "not found"),
        _ => panic!("a failure ends the operation"),
    }
}

#[test]
fn package_is_created_at_the_path_given() {
    let root: Vec<u16> = vec![0x0070, 0xD800, 0x006B];
    let mut op = New { path: root.clone() }.operation(templates());
    match op.step(Event::Begin) {
        Action::RunCargo(args) => assert_eq!(args[3], root),
        _ => panic!("cargo new comes first"),
    }
    let w = expect_write(op.step(Event::Completed));
    assert_eq!(w.file[0], root);
}

#[test]
fn copy_file_joins_sub_directories() {
    let w = copy_file(&units("base"), &["a", "b"], "f.txt", vec![1, 2, 3]);
    assert_eq!(w.dir, path(&["base", "a", "b"]));
    assert_eq!(w.file, path(&["base", "a", "b", "f.txt"]));
    assert!(w.create_dir);
    assert_eq!(w.contents, vec![1, 2, 3]);
    let w = copy_file(&units("base"), &[], "f.txt", Vec::new());
    assert_eq!(w.dir, path(&["base"]));
    assert_eq!(w.file, path(&["base", "f.txt"]));
}

#[test]
fn metadata_template_holds_each_placeholder_once() {
    let t = package_metadata_init_text();
    for p in [
        "$package-identity-name$",
        "$package-identity-publisher$",
        "$package-properties-publisherdisplayname$",
        "$package-applications-visualelements-displayname$",
        "$package-applications-visualelements-description$",
    ] {
        assert_eq!(t.matches(p).count(), 1);
    }
    assert!(t.starts_with("\n[build-dependencies]\ntoml = \"0.5.8\"\ncargo-uwp = \"0.2.0\"\n"));
    assert_eq!(t.matches('$').count(), 10);
}
