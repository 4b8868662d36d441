//! Input events, the messages a press produces, and the hit-testing rules
//! that decide between them.

use vstd::prelude::*;

use crate::geometry::Point;
use crate::layout::{layout_is, lemma_tab_x_bounds, lemma_tab_x_increasing, TabBarLayoutV, TabRegion};
use crate::tab_bar::{TabBarV, TabId};

verus! {

/// A mouse button.
#[derive(Clone, Copy, PartialEq, Eq, Structural, Debug)]
pub enum MouseButton {
    Left,
    Right,
    Middle,
    Other(u16),
}

/// The input events a bar is shown. Only a left mouse press and a touch
/// press mean anything to it; everything else is left for other controls.
#[derive(Clone, Copy, PartialEq, Eq, Structural, Debug)]
pub enum Event {
    /// A mouse button went down.
    MouseButtonPressed(MouseButton),
    /// A finger touched the surface.
    TouchFingerPressed,
    /// Any other input event.
    Other,
}

/// Whether the bar consumed an event or left it for other controls.
#[derive(Clone, Copy, PartialEq, Eq, Structural, Debug)]
pub enum Status {
    Ignored,
    Captured,
}

/// The message a press on a tab produces, carrying the tab's id. The host
/// dispatches it however it likes.
#[derive(Clone, Copy, PartialEq, Eq, Structural, Debug)]
pub enum Message {
    /// The tab should become the active one.
    Select(TabId),
    /// The tab's close affordance was pressed.
    Close(TabId),
}

/// The cursor affordance a bar asks for.
#[derive(Clone, Copy, PartialEq, Eq, Structural, Debug)]
pub enum Interaction {
    /// The resting cursor.
    Idle,
    /// A clickable-pointer cursor.
    Pointer,
}

/// The two events that count as a press.
pub open spec fn is_press(e: Event) -> bool {
    ||| e == Event::MouseButtonPressed(MouseButton::Left)
    ||| e == Event::TouchFingerPressed
}

/// The position hit-testing runs against: a missing pointer position is
/// treated as the origin, not as an absent interaction.
pub open spec fn pointer_or_origin(cursor: Option<Point>) -> Point {
    match cursor {
        Some(p) => p,
        None => Point { x: 0, y: 0 },
    }
}

/// The index of the first tab whose rectangle contains `p`, if any.
pub open spec fn first_hit(tabs: Seq<TabRegion>, p: Point) -> Option<int>
    decreases tabs.len(),
{
    if tabs.len() == 0 {
        None
    } else if tabs[0].bounds.spec_contains(p) {
        Some(0int)
    } else {
        match first_hit(tabs.skip(1), p) {
            Some(i) => Some(i + 1),
            None => None,
        }
    }
}

/// What [`first_hit`] delivers: the least index whose rectangle contains
/// the point, or nothing when no rectangle does.
pub proof fn lemma_first_hit(tabs: Seq<TabRegion>, p: Point)
    ensures
        first_hit(tabs, p) matches Some(k) ==> 0 <= k < tabs.len()
            && tabs[k].bounds.spec_contains(p),
        first_hit(tabs, p) matches Some(k) ==> forall|j: int|
            0 <= j < k ==> !(#[trigger] tabs[j]).bounds.spec_contains(p),
        first_hit(tabs, p) is None ==> forall|j: int|
            0 <= j < tabs.len() ==> !(#[trigger] tabs[j]).bounds.spec_contains(p),
    decreases tabs.len(),
{
    if tabs.len() == 0 {
    } else if tabs[0].bounds.spec_contains(p) {
    } else {
        let rest = tabs.skip(1);
        lemma_first_hit(rest, p);
        match first_hit(tabs, p) {
            Some(k) => {
                assert forall|j: int| 0 <= j < k implies !(#[trigger] tabs[j]).bounds
                    .spec_contains(p) by {
                    if j > 0 {
                        assert(rest[j - 1] == tabs[j]);
                        assert(!rest[j - 1].bounds.spec_contains(p));
                    }
                }
            },
            None => {
                assert forall|j: int| 0 <= j < tabs.len() implies !(#[trigger] tabs[j]).bounds
                    .spec_contains(p) by {
                    if j > 0 {
                        assert(rest[j - 1] == tabs[j]);
                        assert(!rest[j - 1].bounds.spec_contains(p));
                    }
                }
            },
        }
    }
}

/// Whether a press at `p` lands on tab `k`'s enabled close slot.
pub open spec fn close_hit(bar: TabBarV, l: TabBarLayoutV, k: int, p: Point) -> bool {
    &&& bar.on_close
    &&& l.tabs[k].close matches Some(c) && c.spec_contains(p)
}

/// What a bar does with an input event, given its laid-out geometry and
/// the pointer: a press inside the bar on a tab consumes the event and
/// produces a message; the close message wins when the press lands on an
/// enabled close slot.
pub open spec fn event_response(
    bar: TabBarV,
    l: TabBarLayoutV,
    e: Event,
    cursor: Option<Point>,
) -> (Option<Message>, Status) {
    if !is_press(e) {
        (None, Status::Ignored)
    } else {
        let p = pointer_or_origin(cursor);
        if !l.bounds.spec_contains(p) {
            (None, Status::Ignored)
        } else {
            match first_hit(l.tabs, p) {
                None => (None, Status::Ignored),
                Some(k) => {
                    if close_hit(bar, l, k, p) {
                        (Some(Message::Close(bar.ids[k])), Status::Captured)
                    } else {
                        (Some(Message::Select(bar.ids[k])), Status::Captured)
                    }
                },
            }
        }
    }
}

/// The cursor affordance: a clickable pointer exactly when the pointer
/// lies within the union of the tab rectangles, independent of any press.
pub open spec fn hover_interaction(l: TabBarLayoutV, cursor: Option<Point>) -> Interaction {
    if exists|i: int|
        0 <= i < l.tabs.len() && (#[trigger] l.tabs[i]).bounds.spec_contains(
            pointer_or_origin(cursor),
        ) {
        Interaction::Pointer
    } else {
        Interaction::Idle
    }
}

/// An event whose pointer lies outside every tab rectangle produces no
/// message and leaves the event unconsumed.
pub proof fn lemma_press_outside_tabs(
    bar: TabBarV,
    l: TabBarLayoutV,
    e: Event,
    cursor: Option<Point>,
)
    requires
        forall|i: int|
            0 <= i < l.tabs.len() ==> !(#[trigger] l.tabs[i]).bounds.spec_contains(
                pointer_or_origin(cursor),
            ),
    ensures
        event_response(bar, l, e, cursor) == (None::<Message>, Status::Ignored),
{
    let p = pointer_or_origin(cursor);
    lemma_first_hit(l.tabs, p);
    match first_hit(l.tabs, p) {
        Some(k) => {
            assert(!l.tabs[k].bounds.spec_contains(p));
        },
        None => {},
    }
}

/// In a laid-out bar the tab rectangles are pairwise disjoint, so a press
/// inside tab `k`'s rectangle selects exactly tab `k` and consumes the
/// event — unless the press also lands on tab `k`'s enabled close slot,
/// which closes tab `k` instead.
pub proof fn lemma_press_on_tab(
    bar: TabBarV,
    avail_width: int,
    avail_height: int,
    l: TabBarLayoutV,
    k: int,
    e: Event,
    cursor: Option<Point>,
)
    requires
        crate::layout::config_wf(bar),
        bar.wf(),
        0 <= avail_width <= u16::MAX,
        0 <= avail_height <= u16::MAX,
        layout_is(bar, avail_width, avail_height, l),
        is_press(e),
        0 <= k < l.tabs.len(),
        l.bounds.spec_contains(pointer_or_origin(cursor)),
        l.tabs[k].bounds.spec_contains(pointer_or_origin(cursor)),
    ensures
        close_hit(bar, l, k, pointer_or_origin(cursor)) ==> event_response(bar, l, e, cursor)
            == (Some(Message::Close(bar.ids[k])), Status::Captured),
        !close_hit(bar, l, k, pointer_or_origin(cursor)) ==> event_response(bar, l, e, cursor)
            == (Some(Message::Select(bar.ids[k])), Status::Captured),
{
    let p = pointer_or_origin(cursor);
    assert forall|j: int| 0 <= j < l.tabs.len() && j != k implies !(
    #[trigger] l.tabs[j]).bounds.spec_contains(p) by {
        if j < k {
            lemma_tab_x_increasing(bar, avail_width, j, k);
        } else {
            lemma_tab_x_increasing(bar, avail_width, k, j);
            lemma_tab_x_bounds(bar, avail_width, k);
        }
    }
    lemma_first_hit(l.tabs, p);
    match first_hit(l.tabs, p) {
        Some(m) => {
            assert(m == k);
        },
        None => {
            assert(!l.tabs[k].bounds.spec_contains(p));
        },
    }
}

} // verus!
