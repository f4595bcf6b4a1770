use game_scanner::matching::name_matches;

#[test]
fn exe_suffix_ignored_on_left() {
    assert!(name_matches("Foo.exe", "foo"));
}

#[test]
fn exe_suffix_ignored_on_right() {
    assert!(name_matches("foo", "Foo.exe"));
}

#[test]
fn uppercase_suffix_ignored() {
    assert!(name_matches("Game1.EXE", "game1"));
}

#[test]
fn case_insensitive_match() {
    assert!(name_matches("CALCULATOR", "calculator"));
    assert!(name_matches("CaLcUlAtOr", "cAlCuLaToR"));
}

#[test]
fn repeated_trailing_suffixes_stripped() {
    assert!(name_matches("app.exe.exe", "app"));
    assert!(name_matches("app.EXE.exe", "APP"));
}

#[test]
fn different_names_do_not_match() {
    assert!(!name_matches("foo", "bar"));
    assert!(!name_matches("foo", "foo2"));
}

#[test]
fn suffix_in_the_middle_is_kept() {
    assert!(!name_matches("foo.exe.bar", "foo.bar"));
    assert!(name_matches("foo.exe.bar", "FOO.EXE.BAR"));
}

#[test]
fn empty_names() {
    assert!(name_matches("", ""));
    assert!(name_matches(".exe", ""));
    assert!(!name_matches("a", ""));
}

#[test]
fn non_ascii_case_is_not_folded() {
    assert!(!name_matches("\u{c4}", "\u{e4}"));
    assert!(name_matches("\u{e4}.exe", "\u{e4}"));
}
