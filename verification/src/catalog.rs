//! The signature catalog: entries identifying detectable applications by
//! executable name, and its construction from a freshly fetched list. Every
//! successful fetch replaces the catalog wholesale, with one synthetic
//! diagnostic signature appended last.

use vstd::prelude::*;

verus! {

/// One executable entry of a signature: a platform tag (possibly the
/// wildcard `"all"`) and an executable name.
#[derive(Clone, Debug)]
pub struct GameExecutable {
    pub os: String,
    pub name: String,
}

/// Mathematical image of a [`GameExecutable`].
pub ghost struct GameExecutableView {
    pub os: Seq<char>,
    pub name: Seq<char>,
}

impl View for GameExecutable {
    type V = GameExecutableView;

    open spec fn view(&self) -> GameExecutableView {
        GameExecutableView { os: self.os@, name: self.name@ }
    }
}

impl DeepView for GameExecutable {
    type V = GameExecutableView;

    open spec fn deep_view(&self) -> GameExecutableView {
        self@
    }
}

/// A detectable application: identifier, display name, and its executable
/// entries (absent entries mean the signature can never match).
#[derive(Clone, Debug)]
pub struct DetectableGame {
    pub id: String,
    pub name: String,
    pub executables: Option<Vec<GameExecutable>>,
}

/// Mathematical image of a [`DetectableGame`].
pub ghost struct DetectableGameView {
    pub id: Seq<char>,
    pub name: Seq<char>,
    pub executables: Option<Seq<GameExecutableView>>,
}

impl View for DetectableGame {
    type V = DetectableGameView;

    open spec fn view(&self) -> DetectableGameView {
        DetectableGameView {
            id: self.id@,
            name: self.name@,
            executables: self.executables.deep_view(),
        }
    }
}

impl DeepView for DetectableGame {
    type V = DetectableGameView;

    open spec fn deep_view(&self) -> DetectableGameView {
        self@
    }
}

/// The synthetic diagnostic signature: a fixed, platform-neutral entry that
/// every successfully built catalog carries as its last element, so that
/// end-to-end detection can be exercised without a real game installed.
pub open spec fn synthetic_signature() -> DetectableGameView {
    DetectableGameView {
        id: "mock_calc_123"@,
        name: "Calculator"@,
        executables: Some(seq![GameExecutableView { os: "all"@, name: "Calculator"@ }]),
    }
}

/// Normalizes a successfully fetched signature list into the catalog: the
/// list is kept as-is, in order, and the synthetic diagnostic signature is
/// appended as the last element.
pub fn build_catalog(games: Vec<DetectableGame>) -> (catalog: Vec<DetectableGame>)
    ensures
        catalog.deep_view() == games.deep_view().push(synthetic_signature()),
        catalog.deep_view().len() > 0,
        catalog.deep_view().last() == synthetic_signature(),
{
    let mut catalog = games;
    let synthetic = DetectableGame {
        id: "mock_calc_123".to_owned(),
        name: "Calculator".to_owned(),
        executables: Some(vec![GameExecutable { os: "all".to_owned(), name: "Calculator".to_owned() }]),
    };
    proof {
        assert(synthetic@.executables == Some(seq![GameExecutableView { os: "all"@, name: "Calculator"@ }]));
    }
    catalog.push(synthetic);
    proof {
        assert(catalog.deep_view() =~= games.deep_view().push(synthetic_signature()));
    }
    catalog
}

} // verus!
