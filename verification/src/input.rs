//! The decision rules of the input adapter, on plain values. The adapter owns
//! the clock and the raw events; the rules below say what a primary-button
//! click means, so the adapter only measures the time between clicks and
//! records whatever actions come back.

use crate::action::Action;
use crate::geometry::Point;
use vstd::prelude::*;

verus! {

/// The reference double-click threshold, in milliseconds.
pub const DOUBLE_CLICK_THRESHOLD_MS: u64 = 500;

/// Two primary-button presses form a double click when the time between them
/// is below the threshold.
pub fn is_double_click(elapsed_ms: u64, threshold_ms: u64) -> (double: bool)
    ensures
        double == (elapsed_ms < threshold_ms),
{
    elapsed_ms < threshold_ms
}

/// The actions one primary-button press asks the engine to record, in order.
///
/// While the current polygon is incomplete, a double click closes it and
/// starts a new one (two separately recorded, individually undoable actions);
/// a single click places one vertex at the pointer position. A click on a
/// complete current polygon asks for nothing.
pub fn primary_click_actions(pos: Point, double_click: bool, current_complete: bool) -> (actions:
    Vec<Action>)
    ensures
        double_click && !current_complete ==> actions@ == seq![
            Action::CompletePolygon,
            Action::NewPolygon,
        ],
        !double_click && !current_complete ==> actions@ == seq![Action::AddVertex(pos)],
        current_complete ==> actions@ == Seq::<Action>::empty(),
{
    let mut actions: Vec<Action> = Vec::new();
    if double_click && !current_complete {
        actions.push(Action::CompletePolygon);
        actions.push(Action::NewPolygon);
    } else if !current_complete {
        actions.push(Action::AddVertex(pos));
    }
    proof {
        if double_click && !current_complete {
            assert(actions@ =~= seq![Action::CompletePolygon, Action::NewPolygon]);
        } else if !current_complete {
            assert(actions@ =~= seq![Action::AddVertex(pos)]);
        } else {
            assert(actions@ =~= Seq::<Action>::empty());
        }
    }
    actions
}

} // verus!
