//! The laws the engine obeys, each proved from the contracts of the engine's
//! operations and the replay model alone.

use crate::action::Action;
use crate::engine::{
    apply_model, consistent, empty_engine, record_model, redo_model, replay, undo_model,
    CanvasModel, EngineModel,
};
use vstd::prelude::*;

verus! {

/// The engine state after recording a whole sequence of actions, oldest
/// first, on a starting state.
pub open spec fn record_all(state: EngineModel, actions: Seq<Action>) -> EngineModel
    decreases actions.len(),
{
    if actions.len() == 0 {
        state
    } else {
        record_model(record_all(state, actions.drop_last()), actions.last())
    }
}

/// Recording an action on a consistent state yields a consistent state: the
/// visible state still equals the replay of the (extended) undo stack.
pub proof fn lemma_record_preserves_consistency(state: EngineModel, action: Action)
    requires
        consistent(state),
    ensures
        consistent(record_model(state, action)),
{
    let extended = state.undo_actions.push(action);
    assert(extended.drop_last() =~= state.undo_actions);
    assert(record_model(state, action).canvas() =~= replay(extended));
}

/// Undoing preserves consistency: the rebuilt visible state is the replay of
/// the shortened undo stack by construction.
pub proof fn lemma_undo_preserves_consistency(state: EngineModel)
    requires
        consistent(state),
    ensures
        consistent(undo_model(state)),
{
    if state.undo_actions.len() > 0 {
        assert(undo_model(state).canvas() =~= replay(undo_model(state).undo_actions));
    }
}

/// Redoing preserves consistency: reapplying the undone action forward gives
/// exactly the replay of the re-extended undo stack.
pub proof fn lemma_redo_preserves_consistency(state: EngineModel)
    requires
        consistent(state),
    ensures
        consistent(redo_model(state)),
{
    if state.redo_actions.len() > 0 {
        let action = state.redo_actions.last();
        let extended = state.undo_actions.push(action);
        assert(extended.drop_last() =~= state.undo_actions);
        assert(redo_model(state).canvas() =~= replay(extended));
    }
}

/// Replay consistency: recording any sequence of actions on a fresh engine
/// leaves the undo stack equal to that sequence, the redo stack empty, and
/// the visible state equal to the replay of the sequence through `apply`
/// alone.
pub proof fn lemma_replay_consistency(actions: Seq<Action>)
    ensures
        record_all(empty_engine(), actions).undo_actions == actions,
        record_all(empty_engine(), actions).canvas() == replay(actions),
        actions.len() > 0 ==> record_all(empty_engine(), actions).redo_actions
            == Seq::<Action>::empty(),
    decreases actions.len(),
{
    if actions.len() == 0 {
        assert(record_all(empty_engine(), actions) == empty_engine());
        assert(actions =~= Seq::<Action>::empty());
    } else {
        let prefix = actions.drop_last();
        lemma_replay_consistency(prefix);
        assert(prefix.push(actions.last()) =~= actions);
        let before = record_all(empty_engine(), prefix);
        assert(record_all(empty_engine(), actions) == record_model(before, actions.last()));
        assert(record_model(before, actions.last()).canvas() =~= replay(actions));
    }
}

/// Undo/redo inverse law: on a consistent state with a non-empty undo stack,
/// an undo followed by a redo restores the state exactly — the same current
/// polygon, completed polygons, undo stack and redo stack. In particular,
/// when the redo stack was empty before the undo, it ends empty again.
pub proof fn lemma_undo_redo_inverse(state: EngineModel)
    requires
        consistent(state),
        state.undo_actions.len() > 0,
    ensures
        redo_model(undo_model(state)) == state,
        state.redo_actions.len() == 0 ==> redo_model(undo_model(state)).redo_actions.len() == 0,
{
    let after_undo = undo_model(state);
    let action = state.undo_actions.last();
    assert(after_undo.redo_actions.last() == action);
    assert(after_undo.undo_actions.push(action) =~= state.undo_actions);
    assert(after_undo.redo_actions.drop_last() =~= state.redo_actions);
    assert(apply_model(replay(state.undo_actions.drop_last()), action) == replay(
        state.undo_actions,
    ));
    assert(redo_model(after_undo) =~= state);
}

/// Immutability after completion: no action rewrites a polygon that already
/// sits in the completed list — the list only ever grows at the end — and an
/// `AddVertex` leaves it entirely unchanged.
pub proof fn lemma_completed_polygons_immutable(canvas: CanvasModel, action: Action, i: int)
    requires
        0 <= i < canvas.completed.len(),
    ensures
        apply_model(canvas, action).completed.len() >= canvas.completed.len(),
        apply_model(canvas, action).completed[i] == canvas.completed[i],
        action is AddVertex ==> apply_model(canvas, action).completed == canvas.completed,
        action is NewPolygon ==> apply_model(canvas, action).completed == canvas.completed,
{
}

/// A polygon with fewer than three vertices can never become complete: in
/// every replayed state, if the current polygon is flagged complete it has at
/// least three vertices. With `apply`'s contract this gives the completion
/// guard: `CompletePolygon` on a current polygon of fewer than three vertices
/// changes nothing, so the polygon stays incomplete.
pub proof fn lemma_complete_needs_three_vertices(actions: Seq<Action>)
    ensures
        replay(actions).current.is_complete ==> replay(actions).current.vertices.len() >= 3,
    decreases actions.len(),
{
    if actions.len() > 0 {
        lemma_complete_needs_three_vertices(actions.drop_last());
    }
}

/// In every consistent state a completed polygon is really finished: it is
/// flagged complete and has at least three vertices; the current polygon, if
/// incomplete, can still be anything the replay built.
pub proof fn lemma_completed_polygons_are_complete(actions: Seq<Action>, i: int)
    requires
        0 <= i < replay(actions).completed.len(),
    ensures
        replay(actions).completed[i].is_complete,
        replay(actions).completed[i].vertices.len() >= 3,
    decreases actions.len(),
{
    if actions.len() > 0 {
        let prev = replay(actions.drop_last());
        if i < prev.completed.len() {
            lemma_completed_polygons_are_complete(actions.drop_last(), i);
        }
    }
}

} // verus!
