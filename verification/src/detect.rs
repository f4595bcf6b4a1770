//! One scan's detection: the first signature, in catalog order, one of whose
//! executable entries matches the name of a running process. Ties among
//! several simultaneously matching signatures are resolved by catalog order;
//! within one signature, by process-enumeration order, then by entry order.
//! The platform tag of an entry is deliberately ignored, so that signatures
//! stay detectable through cross-platform compatibility layers.

use vstd::prelude::*;
use crate::catalog::{DetectableGame, DetectableGameView, GameExecutable, GameExecutableView};
use crate::matching::{name_matches, names_match};

verus! {

/// The detection result of one scan cycle: the display name of the matched
/// signature and the executable entry name that matched.
#[derive(Clone, Debug)]
pub struct Detection {
    pub name: String,
    pub executable_name: String,
}

/// Mathematical image of a [`Detection`].
pub ghost struct DetectionView {
    pub name: Seq<char>,
    pub executable_name: Seq<char>,
}

impl View for Detection {
    type V = DetectionView;

    open spec fn view(&self) -> DetectionView {
        DetectionView { name: self.name@, executable_name: self.executable_name@ }
    }
}

impl DeepView for Detection {
    type V = DetectionView;

    open spec fn deep_view(&self) -> DetectionView {
        self@
    }
}

/// Whether entry `e` matches the running process named `p`; the platform tag
/// plays no part.
pub open spec fn exe_matches(e: GameExecutableView, p: Seq<char>) -> bool {
    names_match(e.name, p)
}

/// Whether any entry of `es` matches `p`.
pub open spec fn game_has_match_in(es: Seq<GameExecutableView>, p: Seq<char>) -> bool {
    exists|k: int| 0 <= k < es.len() && exe_matches(es[k], p)
}

/// Whether signature `g` matches the running process named `p`.
pub open spec fn game_has_match(g: DetectableGameView, p: Seq<char>) -> bool {
    match g.executables {
        Some(es) => game_has_match_in(es, p),
        None => false,
    }
}

/// Whether signature `g` matches any of the running processes `procs`.
pub open spec fn game_matches_some(g: DetectableGameView, procs: Seq<Seq<char>>) -> bool {
    exists|j: int| 0 <= j < procs.len() && game_has_match(g, procs[j])
}

/// The name of the first entry of `es` that matches `p` (meaningful only
/// when some entry does).
pub open spec fn first_matching_exe(es: Seq<GameExecutableView>, p: Seq<char>) -> Seq<char>
    decreases es.len(),
{
    if es.len() == 0 {
        Seq::empty()
    } else if exe_matches(es[0], p) {
        es[0].name
    } else {
        first_matching_exe(es.drop_first(), p)
    }
}

/// The detection drawn from signature `g` against the first of `procs` that
/// it matches (meaningful only when `game_matches_some(g, procs)`).
pub open spec fn detection_in_game(g: DetectableGameView, procs: Seq<Seq<char>>) -> DetectionView
    decreases procs.len(),
{
    if procs.len() == 0 {
        DetectionView { name: g.name, executable_name: Seq::empty() }
    } else if game_has_match(g, procs[0]) {
        DetectionView {
            name: g.name,
            executable_name: first_matching_exe(g.executables.unwrap(), procs[0]),
        }
    } else {
        detection_in_game(g, procs.drop_first())
    }
}

/// The result of matching the running processes `procs` against `catalog`:
/// the detection from the first signature, in catalog order, that matches
/// any process, or `None` when none does.
pub open spec fn find_match_spec(catalog: Seq<DetectableGameView>, procs: Seq<Seq<char>>) -> Option<
    DetectionView,
>
    decreases catalog.len(),
{
    if catalog.len() == 0 {
        None
    } else if game_matches_some(catalog[0], procs) {
        Some(detection_in_game(catalog[0], procs))
    } else {
        find_match_spec(catalog.drop_first(), procs)
    }
}

proof fn lemma_first_matching_exe(es: Seq<GameExecutableView>, p: Seq<char>, k: int)
    requires
        0 <= k < es.len(),
        exe_matches(es[k], p),
        forall|k2: int| 0 <= k2 < k ==> !exe_matches(es[k2], p),
    ensures
        first_matching_exe(es, p) == es[k].name,
    decreases k,
{
    if k > 0 {
        lemma_first_matching_exe(es.drop_first(), p, k - 1);
    }
}

proof fn lemma_detection_first(g: DetectableGameView, procs: Seq<Seq<char>>, j: int)
    requires
        0 <= j < procs.len(),
        game_has_match(g, procs[j]),
        forall|j2: int| 0 <= j2 < j ==> !game_has_match(g, procs[j2]),
    ensures
        game_matches_some(g, procs),
        detection_in_game(g, procs) == (DetectionView {
            name: g.name,
            executable_name: first_matching_exe(g.executables.unwrap(), procs[j]),
        }),
    decreases j,
{
    if j > 0 {
        lemma_detection_first(g, procs.drop_first(), j - 1);
    }
}

proof fn lemma_find_match_first(catalog: Seq<DetectableGameView>, procs: Seq<Seq<char>>, i: int)
    requires
        0 <= i < catalog.len(),
        game_matches_some(catalog[i], procs),
        forall|i2: int| 0 <= i2 < i ==> !game_matches_some(catalog[i2], procs),
    ensures
        find_match_spec(catalog, procs) == Some(detection_in_game(catalog[i], procs)),
    decreases i,
{
    if i > 0 {
        lemma_find_match_first(catalog.drop_first(), procs, i - 1);
    }
}

proof fn lemma_find_match_none(catalog: Seq<DetectableGameView>, procs: Seq<Seq<char>>)
    requires
        forall|i: int| 0 <= i < catalog.len() ==> !game_matches_some(catalog[i], procs),
    ensures
        find_match_spec(catalog, procs) is None,
    decreases catalog.len(),
{
    if catalog.len() > 0 {
        lemma_find_match_none(catalog.drop_first(), procs);
    }
}

proof fn lemma_detection_name(g: DetectableGameView, procs: Seq<Seq<char>>)
    ensures
        detection_in_game(g, procs).name == g.name,
    decreases procs.len(),
{
    if procs.len() > 0 && !game_has_match(g, procs[0]) {
        lemma_detection_name(g, procs.drop_first());
    }
}

/// Soundness of a scan: a detection names a signature of the catalog that
/// matches one of the sampled processes, and a scan yields nothing exactly
/// when no signature matches any process. Hence the active signature
/// recorded after a cycle always names a signature that was seen running.
pub proof fn lemma_find_match_sound(catalog: Seq<DetectableGameView>, procs: Seq<Seq<char>>)
    ensures
        (match find_match_spec(catalog, procs) {
            Some(d) => exists|i: int|
                0 <= i < catalog.len() && catalog[i].name == d.name && #[trigger] game_matches_some(
                    catalog[i],
                    procs,
                ),
            None => forall|i: int|
                0 <= i < catalog.len() ==> !#[trigger] game_matches_some(catalog[i], procs),
        }),
    decreases catalog.len(),
{
    if catalog.len() > 0 {
        if game_matches_some(catalog[0], procs) {
            lemma_detection_name(catalog[0], procs);
        } else {
            lemma_find_match_sound(catalog.drop_first(), procs);
            match find_match_spec(catalog, procs) {
                Some(d) => {
                    let i = choose|i: int|
                        0 <= i < catalog.drop_first().len() && catalog.drop_first()[i].name
                            == d.name && #[trigger] game_matches_some(
                            catalog.drop_first()[i],
                            procs,
                        );
                    assert(catalog[i + 1] == catalog.drop_first()[i]);
                },
                None => {
                    assert forall|i: int|
                        0 <= i < catalog.len() implies !#[trigger] game_matches_some(
                        catalog[i],
                        procs,
                    ) by {
                        if i > 0 {
                            assert(catalog[i] == catalog.drop_first()[i - 1]);
                        }
                    }
                },
            }
        }
    }
}

/// Returns the name of the first entry of `es` matching the process name
/// `p`, if any entry does.
fn first_exe_match(es: &Vec<GameExecutable>, p: &str) -> (r: Option<String>)
    ensures
        (match r {
            Some(name) => game_has_match_in(es.deep_view(), p@) && name@ == first_matching_exe(
                es.deep_view(),
                p@,
            ),
            None => !game_has_match_in(es.deep_view(), p@),
        }),
{
    let mut k: usize = 0;
    while k < es.len()
        invariant
            k <= es.len(),
            forall|k2: int| 0 <= k2 < k ==> !exe_matches(es.deep_view()[k2], p@),
        decreases es.len() - k,
    {
        if name_matches(es[k].name.as_str(), p) {
            proof {
                lemma_first_matching_exe(es.deep_view(), p@, k as int);
            }
            return Some(es[k].name.clone());
        }
        k += 1;
    }
    None
}

/// Matches the sampled process names against the catalog and returns the
/// detection result of this cycle, if any signature is running.
pub fn find_match(catalog: &Vec<DetectableGame>, procs: &Vec<String>) -> (r: Option<Detection>)
    ensures
        r.deep_view() == find_match_spec(catalog.deep_view(), procs.deep_view()),
{
    let ghost cat_v = catalog.deep_view();
    let ghost procs_v = procs.deep_view();
    let mut i: usize = 0;
    while i < catalog.len()
        invariant
            i <= catalog.len(),
            cat_v == catalog.deep_view(),
            procs_v == procs.deep_view(),
            forall|i2: int| 0 <= i2 < i ==> !game_matches_some(cat_v[i2], procs_v),
        decreases catalog.len() - i,
    {
        let game = &catalog[i];
        match &game.executables {
            Some(es) => {
                let mut j: usize = 0;
                while j < procs.len()
                    invariant
                        i < catalog.len(),
                        j <= procs.len(),
                        cat_v == catalog.deep_view(),
                        procs_v == procs.deep_view(),
                        game == catalog@[i as int],
                        game.executables matches Some(es0) && es0 == es,
                        cat_v[i as int].executables == Some(es.deep_view()),
                        forall|j2: int| 0 <= j2 < j ==> !game_has_match(cat_v[i as int], procs_v[j2]),
                        forall|i2: int| 0 <= i2 < i ==> !game_matches_some(cat_v[i2], procs_v),
                    decreases procs.len() - j,
                {
                    match first_exe_match(es, procs[j].as_str()) {
                        Some(exe_name) => {
                            proof {
                                assert(procs_v[j as int] == procs@[j as int]@);
                                assert(game_has_match_in(es.deep_view(), procs_v[j as int]));
                                assert(game_has_match(cat_v[i as int], procs_v[j as int]));
                                lemma_detection_first(cat_v[i as int], procs_v, j as int);
                                lemma_find_match_first(cat_v, procs_v, i as int);
                            }
                            return Some(Detection { name: game.name.clone(), executable_name: exe_name });
                        },
                        None => {},
                    }
                    j += 1;
                }
            },
            None => {},
        }
        i += 1;
    }
    proof {
        lemma_find_match_none(cat_v, procs_v);
    }
    None
}

} // verus!
