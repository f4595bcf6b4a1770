//! Activity transitions: comparing the detection result of a cycle against
//! the previously active signature yields at most one event — a start, a
//! stop, or (for a switch) a single start for the new signature.

use vstd::prelude::*;
use crate::detect::{Detection, DetectionView};

verus! {

/// Payload emitted to the consumer when activity changes.
#[derive(Clone, Debug)]
pub struct GameActivity {
    pub name: String,
    pub executable_name: Option<String>,
    pub is_running: bool,
}

/// Mathematical image of a [`GameActivity`].
pub ghost struct GameActivityView {
    pub name: Seq<char>,
    pub executable_name: Option<Seq<char>>,
    pub is_running: bool,
}

impl View for GameActivity {
    type V = GameActivityView;

    open spec fn view(&self) -> GameActivityView {
        GameActivityView {
            name: self.name@,
            executable_name: self.executable_name.deep_view(),
            is_running: self.is_running,
        }
    }
}

impl DeepView for GameActivity {
    type V = GameActivityView;

    open spec fn deep_view(&self) -> GameActivityView {
        self@
    }
}

/// The event announcing that the signature of detection `d` started running;
/// it carries the matched executable name.
pub open spec fn started_event(d: DetectionView) -> GameActivityView {
    GameActivityView { name: d.name, executable_name: Some(d.executable_name), is_running: true }
}

/// The event announcing that the signature named `name` stopped running; it
/// carries no executable name.
pub open spec fn stopped_event(name: Seq<char>) -> GameActivityView {
    GameActivityView { name, executable_name: None, is_running: false }
}

/// The event (if any) of one cycle, given the previously active signature
/// name `prev` and the cycle's detection result `det`: a start when nothing
/// was active and something is, a stop when something was active and nothing
/// is, a single start for the new signature on a switch, and no event when
/// the detection is unchanged.
pub open spec fn transition_spec(prev: Option<Seq<char>>, det: Option<DetectionView>) -> Option<
    GameActivityView,
> {
    match det {
        Some(d) => match prev {
            Some(p) => if p != d.name {
                Some(started_event(d))
            } else {
                None
            },
            None => Some(started_event(d)),
        },
        None => match prev {
            Some(p) => Some(stopped_event(p)),
            None => None,
        },
    }
}

/// The signature name remembered as active after a cycle whose detection
/// result is `det`.
pub open spec fn active_name(det: Option<DetectionView>) -> Option<Seq<char>> {
    match det {
        Some(d) => Some(d.name),
        None => None,
    }
}

/// Computes the event of one cycle; see [`transition_spec`].
pub fn compute_transition(prev: &Option<String>, det: &Option<Detection>) -> (ev: Option<
    GameActivity,
>)
    ensures
        ev.deep_view() == transition_spec(prev.deep_view(), det.deep_view()),
{
    match det {
        Some(d) => match prev {
            Some(p) => {
                if !p.eq(&d.name) {
                    Some(GameActivity {
                        name: d.name.clone(),
                        executable_name: Some(d.executable_name.clone()),
                        is_running: true,
                    })
                } else {
                    None
                }
            },
            None => Some(GameActivity {
                name: d.name.clone(),
                executable_name: Some(d.executable_name.clone()),
                is_running: true,
            }),
        },
        None => match prev {
            Some(p) => Some(GameActivity {
                name: p.clone(),
                executable_name: None,
                is_running: false,
            }),
            None => None,
        },
    }
}

/// A cycle whose detection result names the signature that is already
/// active emits nothing; in particular, once a start was emitted, repeating
/// the same detection — or re-enabling the scanner, which changes no state —
/// yields no further event until the detection result changes.
pub proof fn lemma_unchanged_detection_no_event(det: Option<DetectionView>)
    ensures
        transition_spec(active_name(det), det) is None,
{
}

/// The events of a single transition, as a sequence of length 0 or 1.
pub open spec fn event_seq(ev: Option<GameActivityView>) -> Seq<GameActivityView> {
    match ev {
        Some(e) => seq![e],
        None => Seq::empty(),
    }
}

/// All events emitted by a run of scan cycles whose detection results are
/// `dets`, in order, starting with no active signature.
pub open spec fn events_of(dets: Seq<Option<DetectionView>>) -> Seq<GameActivityView>
    decreases dets.len(),
{
    if dets.len() == 0 {
        Seq::empty()
    } else {
        let prev = if dets.len() == 1 {
            None
        } else {
            active_name(dets[dets.len() - 2])
        };
        events_of(dets.drop_last()) + event_seq(transition_spec(prev, dets.last()))
    }
}

/// For the detection results `None, Some(a), Some(a), Some(b), None` (with
/// `a` and `b` distinct signatures), the emitted events are exactly
/// `started(a), started(b), stopped(b)`: an unchanged detection emits
/// nothing, and a switch emits only a start for the new signature.
pub proof fn lemma_transition_sequence(a: DetectionView, b: DetectionView)
    requires
        a.name != b.name,
    ensures
        events_of(seq![None, Some(a), Some(a), Some(b), None]) =~= seq![
            started_event(a),
            started_event(b),
            stopped_event(b.name),
        ],
{
    reveal_with_fuel(events_of, 6);
    let d4 = seq![None, Some(a), Some(a), Some(b), None];
    let d3 = seq![None, Some(a), Some(a), Some(b)];
    let d2 = seq![None, Some(a), Some(a)];
    let d1 = seq![None, Some(a)];
    let d0 = seq![Option::<DetectionView>::None];
    assert(d4.drop_last() =~= d3);
    assert(d3.drop_last() =~= d2);
    assert(d2.drop_last() =~= d1);
    assert(d1.drop_last() =~= d0);
    assert(d0.drop_last() =~= Seq::<Option<DetectionView>>::empty());
    assert(events_of(d0) =~= Seq::<GameActivityView>::empty());
    assert(events_of(d1) =~= seq![started_event(a)]);
    assert(events_of(d2) =~= seq![started_event(a)]);
    assert(events_of(d3) =~= seq![started_event(a), started_event(b)]);
}

} // verus!
