use game_scanner::catalog::{build_catalog, DetectableGame, GameExecutable};

fn entry(id: &str, name: &str, exes: Option<Vec<(&str, &str)>>) -> DetectableGame {
    DetectableGame {
        id: id.to_owned(),
        name: name.to_owned(),
        executables: exes.map(|v| {
            v.into_iter()
                .map(|(os, name)| GameExecutable { os: os.to_owned(), name: name.to_owned() })
                .collect()
        }),
    }
}

#[test]
fn synthetic_appended_to_empty_fetch() {
    let catalog = build_catalog(Vec::new());
    assert_eq!(catalog.len(), 1);
    assert_eq!(catalog[0].id, "mock_calc_123");
    assert_eq!(catalog[0].name, "Calculator");
    let exes = catalog[0].executables.as_ref().expect("synthetic entry has executables");
    assert_eq!(exes.len(), 1);
    assert_eq!(exes[0].os, "all");
    assert_eq!(exes[0].name, "Calculator");
}

#[test]
fn synthetic_appended_last_after_fetched_entries() {
    let games = vec![
        entry("g1", "Game One", Some(vec![("all", "game1")])),
        entry("g2", "Game Two", None),
    ];
    let catalog = build_catalog(games);
    assert_eq!(catalog.len(), 3);
    assert_eq!(catalog[0].id, "g1");
    assert_eq!(catalog[1].id, "g2");
    assert_eq!(catalog[2].id, "mock_calc_123");
    assert_eq!(catalog[2].name, "Calculator");
}
