use cargo_uwp::cli::CargoExtensionCliParser;

fn units(s: &str) -> Vec<u16> {
    s.encode_utf16().collect()
}

fn args(items: &[&str]) -> Vec<Vec<u16>> {
    items.iter().map(|s| units(s)).collect()
}

#[test]
fn parser_yields_program_name_then_arguments_after_subcommand() {
    let mut p = CargoExtensionCliParser::new(args(&["C:\\bin\\cargo-uwp.exe", "uwp", "new", "uwp-rs"]));
    assert_eq!(p.next(), Some(units("cargo uwp")));
    assert_eq!(p.next(), Some(units("new")));
    assert_eq!(p.next(), Some(units("uwp-rs")));
    assert_eq!(p.next(), None);
}

#[test]
fn parser_stays_exhausted() {
    let mut p = CargoExtensionCliParser::new(args(&["cargo-uwp", "uwp"]));
    assert_eq!(p.next(), Some(units("cargo uwp")));
    for _ in 0..5 {
        assert_eq!(p.next(), None);
    }
}

#[test]
fn parser_without_arguments_still_names_program() {
    let mut p = CargoExtensionCliParser::new(Vec::new());
    assert_eq!(p.next(), Some(units("cargo uwp")));
    assert_eq!(p.next(), None);
}

#[test]
fn parser_skips_second_argument_whatever_it_is() {
    let mut p = CargoExtensionCliParser::new(args(&["a", "b", "c"]));
    assert_eq!(p.next(), Some(units("cargo uwp")));
    assert_eq!(p.next(), Some(units("c")));
    assert_eq!(p.next(), None);
}

#[test]
fn parser_passes_arguments_that_are_not_unicode_unchanged() {
    // A lone surrogate is no Unicode text, but a valid Windows argument.
    let odd: Vec<u16> = vec![0x0070, 0xD800, 0x0071];
    let mut p = CargoExtensionCliParser::new(vec![units("cargo-uwp"), units("uwp"), odd.clone()]);
    assert_eq!(p.next(), Some(units("cargo uwp")));
    assert_eq!(p.next(), Some(odd));
    assert_eq!(p.next(), None);
}
