//! Decisions of the region selector overlay that do not depend on its
//! floating-point geometry: key handling and the one-shot "region ready"
//! announcement of the video kind.
use vstd::prelude::*;

verus! {

#[derive(Debug, Clone, Copy, PartialEq, Eq, Structural)]
pub enum SelectorKind {
    Image,
    Video,
}

/// The keys the overlay reacts to.
#[derive(Debug, Clone, Copy, PartialEq, Eq, Structural)]
pub enum SelectorKey {
    Escape,
    /// Return or keypad Enter.
    Enter,
    Other,
}

/// What a key press does to the selection.
#[derive(Debug, Clone, Copy, PartialEq, Eq, Structural)]
pub enum KeyAction {
    Nothing,
    Confirm,
    Cancel,
}

/// Escape cancels (both kinds); Enter confirms the image kind only. Both
/// stop the key from propagating; any other key propagates.
pub open spec fn key_response_spec(kind: SelectorKind, key: SelectorKey) -> (KeyAction, bool) {
    match key {
        SelectorKey::Escape => (KeyAction::Cancel, true),
        SelectorKey::Enter => (
            if kind == SelectorKind::Image { KeyAction::Confirm } else { KeyAction::Nothing },
            true,
        ),
        SelectorKey::Other => (KeyAction::Nothing, false),
    }
}

/// The action of a key press, and whether the press stops propagating.
pub fn key_response(kind: SelectorKind, key: SelectorKey) -> (r: (KeyAction, bool))
    ensures
        r == key_response_spec(kind, key),
{
    match key {
        SelectorKey::Escape => (KeyAction::Cancel, true),
        SelectorKey::Enter => {
            if kind == SelectorKind::Image {
                (KeyAction::Confirm, true)
            } else {
                (KeyAction::Nothing, true)
            }
        },
        SelectorKey::Other => (KeyAction::Nothing, false),
    }
}

/// The overlay's reaction when a drag ends.
#[derive(Debug, Clone, Copy, PartialEq, Eq, Structural)]
pub struct DragEndReaction {
    /// For the image kind: whether the action bar is shown (it is shown
    /// exactly when the selection is valid). `None` for the video kind.
    pub show_actions: Option<bool>,
    /// Whether the main window is told now that a region is ready.
    pub announce_ready: bool,
    /// The latch after this drag: set once the region was announced.
    pub bar_shown: bool,
}

pub open spec fn drag_end_spec(kind: SelectorKind, valid: bool, bar_shown: bool) -> DragEndReaction {
    let announce = kind == SelectorKind::Video && valid && !bar_shown;
    DragEndReaction {
        show_actions: if kind == SelectorKind::Image { Some(valid) } else { None },
        announce_ready: announce,
        bar_shown: bar_shown || announce,
    }
}

/// Over drag ends whose selections are valid or not as `valids` says, with
/// the latch starting at `bar_shown` and carried from each drag to the next:
/// whether each drag end announces the region.
pub open spec fn drag_announcements(kind: SelectorKind, valids: Seq<bool>, bar_shown: bool) -> Seq<bool>
    decreases valids.len(),
{
    if valids.len() == 0 {
        seq![]
    } else {
        let r = drag_end_spec(kind, valids[0], bar_shown);
        seq![r.announce_ready] + drag_announcements(kind, valids.drop_first(), r.bar_shown)
    }
}

/// Whether `i` is the first valid selection of the sequence.
pub open spec fn first_valid(valids: Seq<bool>, i: int) -> bool {
    0 <= i < valids.len() && valids[i] && forall|j: int| 0 <= j < i ==> !valids[j]
}

proof fn lemma_announcements_from(kind: SelectorKind, valids: Seq<bool>, bar_shown: bool)
    ensures
        drag_announcements(kind, valids, bar_shown).len() == valids.len(),
        forall|i: int|
            0 <= i < valids.len() ==> (#[trigger] drag_announcements(kind, valids, bar_shown)[i] <==> (
            kind == SelectorKind::Video && !bar_shown && first_valid(valids, i))),
        (exists|i: int| 0 <= i < valids.len() && #[trigger] valids[i]) ==> (exists|i: int|
            #[trigger] first_valid(valids, i)),
    decreases valids.len(),
{
    if valids.len() > 0 {
        let r = drag_end_spec(kind, valids[0], bar_shown);
        let rest = valids.drop_first();
        lemma_announcements_from(kind, rest, r.bar_shown);
        let a = drag_announcements(kind, valids, bar_shown);
        assert forall|i: int| 0 <= i < valids.len() implies (#[trigger] a[i] <==> (kind
            == SelectorKind::Video && !bar_shown && first_valid(valids, i))) by {
            if i > 0 {
                assert(a[i] == drag_announcements(kind, rest, r.bar_shown)[i - 1]);
                if first_valid(rest, i - 1) && !valids[0] {
                    assert forall|j: int| 0 <= j < i implies !valids[j] by {
                        if j > 0 {
                            assert(valids[j] == rest[j - 1]);
                        }
                    }
                }
                if first_valid(valids, i) {
                    assert(valids[i] == rest[i - 1]);
                    assert forall|j: int| 0 <= j < i - 1 implies !rest[j] by {
                        assert(rest[j] == valids[j + 1]);
                    }
                }
            }
        }
        if exists|i: int| 0 <= i < valids.len() && #[trigger] valids[i] {
            if valids[0] {
                assert(first_valid(valids, 0));
            } else {
                let i = choose|i: int| 0 <= i < valids.len() && #[trigger] valids[i];
                assert(rest[i - 1]);
                let k = choose|k: int| #[trigger] first_valid(rest, k);
                assert forall|j: int| 0 <= j < k + 1 implies !valids[j] by {
                    if j > 0 {
                        assert(valids[j] == rest[j - 1]);
                    }
                }
                assert(first_valid(valids, k + 1));
            }
        }
    }
}

/// Over any sequence of drag ends, the video overlay announces its region
/// exactly once, at the first drag that leaves a valid selection, and never
/// when no drag does; the image overlay never announces.
pub proof fn lemma_region_announced_once(kind: SelectorKind, valids: Seq<bool>)
    ensures
        ({
            let a = drag_announcements(kind, valids, false);
            &&& a.len() == valids.len()
            &&& kind == SelectorKind::Image ==> forall|i: int| 0 <= i < a.len() ==> !#[trigger] a[i]
            &&& kind == SelectorKind::Video ==> forall|i: int|
                0 <= i < a.len() ==> (#[trigger] a[i] <==> first_valid(valids, i))
            &&& forall|i: int, j: int| 0 <= i < a.len() && 0 <= j < a.len() && #[trigger] a[i] && #[trigger] a[j] ==> i == j
            &&& (exists|i: int| 0 <= i < a.len() && #[trigger] a[i]) <==> (kind == SelectorKind::Video
                && exists|i: int| 0 <= i < valids.len() && #[trigger] valids[i])
        }),
{
    lemma_announcements_from(kind, valids, false);
    let a = drag_announcements(kind, valids, false);
    assert forall|i: int, j: int| 0 <= i < a.len() && 0 <= j < a.len() && #[trigger] a[i] && #[trigger] a[j] implies i == j by {
        assert(first_valid(valids, i) && first_valid(valids, j));
        if i < j {
            assert(!valids[i]);
        } else if j < i {
            assert(!valids[j]);
        }
    }
    if kind == SelectorKind::Video && exists|i: int| 0 <= i < valids.len() && #[trigger] valids[i] {
        let k = choose|k: int| #[trigger] first_valid(valids, k);
        assert(a[k]);
    }
    if exists|i: int| 0 <= i < a.len() && #[trigger] a[i] {
        let i = choose|i: int| 0 <= i < a.len() && #[trigger] a[i];
        assert(valids[i]);
    }
}

/// When a drag ends on a selection that is `valid` (both sides at least the
/// minimum size): the image kind shows its action bar exactly for a valid
/// selection; the video kind announces the region the first time a valid
/// selection exists, and never again.
pub fn drag_end_reaction(kind: SelectorKind, valid: bool, bar_shown: bool) -> (r: DragEndReaction)
    ensures
        r.show_actions == (if kind == SelectorKind::Image { Some(valid) } else { None::<bool> }),
        r.announce_ready == (kind == SelectorKind::Video && valid && !bar_shown),
        r.bar_shown == (bar_shown || r.announce_ready),
        r == drag_end_spec(kind, valid, bar_shown),
{
    let show_actions = if kind == SelectorKind::Image {
        Some(valid)
    } else {
        None
    };
    let announce_ready = kind == SelectorKind::Video && valid && !bar_shown;
    DragEndReaction { show_actions, announce_ready, bar_shown: bar_shown || announce_ready }
}

} // verus!
