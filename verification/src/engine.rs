//! The drawing engine: a tiny polygon state machine driven by an action log.
//!
//! The engine owns the polygon being built, the list of finished polygons, and
//! two action stacks. Its visible state (current polygon and completed
//! polygons) is always derivable by replaying the undo stack from the empty
//! initial state; `undo` rebuilds it exactly that way.

use crate::action::Action;
use crate::geometry::{empty_polygon_model, Polygon, PolygonModel};
use vstd::prelude::*;

verus! {

/// The visible part of the engine's state: what a renderer reads.
#[verifier::ext_equal]
pub ghost struct CanvasModel {
    pub current: PolygonModel,
    pub completed: Seq<PolygonModel>,
}

/// The whole engine state as a mathematical value.
#[verifier::ext_equal]
pub ghost struct EngineModel {
    pub current: PolygonModel,
    pub completed: Seq<PolygonModel>,
    pub undo_actions: Seq<Action>,
    pub redo_actions: Seq<Action>,
}

impl EngineModel {
    /// The visible part of this state.
    pub open spec fn canvas(self) -> CanvasModel {
        CanvasModel { current: self.current, completed: self.completed }
    }
}

/// The visible state of a freshly created engine: an empty, incomplete current
/// polygon and no completed polygons.
pub open spec fn empty_canvas() -> CanvasModel {
    CanvasModel { current: empty_polygon_model(), completed: Seq::empty() }
}

/// The state of a freshly created engine: everything empty.
pub open spec fn empty_engine() -> EngineModel {
    EngineModel {
        current: empty_polygon_model(),
        completed: Seq::empty(),
        undo_actions: Seq::empty(),
        redo_actions: Seq::empty(),
    }
}

/// How one action transforms the visible state.
///
/// - `AddVertex` appends to an incomplete current polygon and is silently
///   ignored on a complete one.
/// - `CompletePolygon` finalizes a current polygon of at least three vertices
///   and appends the finished snapshot to the completed list; on fewer
///   vertices it is silently ignored.
/// - `NewPolygon` replaces the current polygon with a fresh empty one and
///   never touches the completed list.
pub open spec fn apply_model(canvas: CanvasModel, action: Action) -> CanvasModel {
    match action {
        Action::AddVertex(p) => if canvas.current.is_complete {
            canvas
        } else {
            CanvasModel {
                current: PolygonModel {
                    vertices: canvas.current.vertices.push(p),
                    is_complete: false,
                },
                completed: canvas.completed,
            }
        },
        Action::CompletePolygon => if canvas.current.vertices.len() >= 3 {
            let finished = PolygonModel { vertices: canvas.current.vertices, is_complete: true };
            CanvasModel { current: finished, completed: canvas.completed.push(finished) }
        } else {
            canvas
        },
        Action::NewPolygon => CanvasModel {
            current: empty_polygon_model(),
            completed: canvas.completed,
        },
    }
}

/// The visible state that a sequence of actions produces when applied, in
/// order, to a fresh engine.
pub open spec fn replay(actions: Seq<Action>) -> CanvasModel
    decreases actions.len(),
{
    if actions.len() == 0 {
        empty_canvas()
    } else {
        apply_model(replay(actions.drop_last()), actions.last())
    }
}

/// The engine's central invariant: the visible state equals the replay of the
/// undo stack. The cached current/completed fields are a materialization of
/// that replay, never an independent source of truth.
pub open spec fn consistent(state: EngineModel) -> bool {
    state.canvas() == replay(state.undo_actions)
}

/// What `record_and_apply` does: push the action onto the undo stack, apply
/// it to the visible state, and discard any redo history.
pub open spec fn record_model(state: EngineModel, action: Action) -> EngineModel {
    let canvas = apply_model(state.canvas(), action);
    EngineModel {
        current: canvas.current,
        completed: canvas.completed,
        undo_actions: state.undo_actions.push(action),
        redo_actions: Seq::empty(),
    }
}

/// What `undo` does: with an empty undo stack, nothing; otherwise move the
/// most recent action to the redo stack and rebuild the visible state by
/// replaying what remains.
pub open spec fn undo_model(state: EngineModel) -> EngineModel {
    if state.undo_actions.len() == 0 {
        state
    } else {
        let remaining = state.undo_actions.drop_last();
        let canvas = replay(remaining);
        EngineModel {
            current: canvas.current,
            completed: canvas.completed,
            undo_actions: remaining,
            redo_actions: state.redo_actions.push(state.undo_actions.last()),
        }
    }
}

/// What `redo` does: with an empty redo stack, nothing; otherwise reapply the
/// most recently undone action forward and move it back to the undo stack.
pub open spec fn redo_model(state: EngineModel) -> EngineModel {
    if state.redo_actions.len() == 0 {
        state
    } else {
        let action = state.redo_actions.last();
        let canvas = apply_model(state.canvas(), action);
        EngineModel {
            current: canvas.current,
            completed: canvas.completed,
            undo_actions: state.undo_actions.push(action),
            redo_actions: state.redo_actions.drop_last(),
        }
    }
}

/// The sequence of polygon values held by a list of polygons.
pub open spec fn polygons_model(polygons: Seq<Polygon>) -> Seq<PolygonModel> {
    polygons.map_values(|p: Polygon| p@)
}

/// The undo/redo drawing engine. All mutation goes through `apply`,
/// `record_and_apply`, `undo` and `redo`; collaborators read state through
/// the accessors.
pub struct DrawingEngine {
    current_polygon: Polygon,
    completed_polygons: Vec<Polygon>,
    undo_stack: Vec<Action>,
    redo_stack: Vec<Action>,
}

impl View for DrawingEngine {
    type V = EngineModel;

    closed spec fn view(&self) -> EngineModel {
        EngineModel {
            current: self.current_polygon@,
            completed: polygons_model(self.completed_polygons@),
            undo_actions: self.undo_stack@,
            redo_actions: self.redo_stack@,
        }
    }
}

impl DrawingEngine {
    /// A fresh engine: all containers empty.
    pub fn new() -> (engine: DrawingEngine)
        ensures
            engine@ == empty_engine(),
    {
        let engine = DrawingEngine {
            current_polygon: Polygon::new(),
            completed_polygons: Vec::new(),
            undo_stack: Vec::new(),
            redo_stack: Vec::new(),
        };
        proof {
            assert(engine@ =~= empty_engine());
        }
        engine
    }

    /// Apply one action to the visible state. Every action is total: an
    /// invalid one (adding to a complete polygon, completing one of fewer
    /// than three vertices) is silently ignored. Neither stack is touched.
    pub fn apply(&mut self, action: Action)
        ensures
            final(self)@.canvas() == apply_model(old(self)@.canvas(), action),
            final(self)@.undo_actions == old(self)@.undo_actions,
            final(self)@.redo_actions == old(self)@.redo_actions,
            action is CompletePolygon && old(self)@.current.vertices.len() < 3 ==> final(self)@
                == old(self)@,
    {
        match action {
            Action::AddVertex(p) => {
                if !self.current_polygon.is_complete {
                    self.current_polygon.vertices.push(p);
                }
            },
            Action::CompletePolygon => {
                if self.current_polygon.vertices.len() >= 3 {
                    self.current_polygon.is_complete = true;
                    let finished = self.current_polygon.clone();
                    self.completed_polygons.push(finished);
                }
            },
            Action::NewPolygon => {
                self.current_polygon = Polygon::new();
            },
        }
        proof {
            assert(self@.canvas() =~= apply_model(old(self)@.canvas(), action));
            if action is CompletePolygon && old(self)@.current.vertices.len() < 3 {
                assert(self@ =~= old(self)@);
            }
        }
    }

    /// Record one user-initiated edit: push it onto the undo stack, apply it,
    /// and clear the redo stack (history is linear; any branch is discarded).
    pub fn record_and_apply(&mut self, action: Action)
        ensures
            final(self)@ == record_model(old(self)@, action),
            final(self)@.redo_actions.len() == 0,
    {
        self.undo_stack.push(action);
        self.apply(action);
        self.redo_stack.clear();
        proof {
            assert(self@ =~= record_model(old(self)@, action));
        }
    }

    /// Undo the most recent recorded action: move it to the redo stack and
    /// rebuild the visible state by replaying the remaining undo history from
    /// the empty initial state. With an empty undo stack this is a no-op.
    pub fn undo(&mut self)
        ensures
            final(self)@ == undo_model(old(self)@),
    {
        if let Some(last_action) = self.undo_stack.pop() {
            self.redo_stack.push(last_action);
            self.current_polygon = Polygon::new();
            self.completed_polygons = Vec::new();
            proof {
                assert(self@.canvas() =~= replay(self.undo_stack@.take(0)));
            }
            let n = self.undo_stack.len();
            let mut i: usize = 0;
            while i < n
                invariant
                    i <= n,
                    n == self.undo_stack@.len(),
                    self.undo_stack@ == old(self)@.undo_actions.drop_last(),
                    self.redo_stack@ == old(self)@.redo_actions.push(
                        old(self)@.undo_actions.last(),
                    ),
                    self@.canvas() == replay(self.undo_stack@.take(i as int)),
                decreases n - i,
            {
                let action = self.undo_stack[i];
                proof {
                    lemma_replay_take_step(self.undo_stack@, i as int);
                }
                self.apply(action);
                i = i + 1;
            }
            proof {
                assert(self.undo_stack@.take(n as int) =~= self.undo_stack@);
                assert(self@ =~= undo_model(old(self)@));
            }
        }
    }

    /// Redo the most recently undone action: reapply it forward (the state is
    /// already consistent, so no rebuild is needed) and move it back to the
    /// undo stack. The redo stack is not cleared by this path. With an empty
    /// redo stack this is a no-op.
    pub fn redo(&mut self)
        ensures
            final(self)@ == redo_model(old(self)@),
    {
        if let Some(action) = self.redo_stack.pop() {
            self.apply(action);
            self.undo_stack.push(action);
            proof {
                assert(self@ =~= redo_model(old(self)@));
            }
        }
    }

    /// Read access for the presentation layer: the polygon being built.
    pub fn current_polygon(&self) -> (polygon: &Polygon)
        ensures
            polygon@ == self@.current,
    {
        &self.current_polygon
    }

    /// Read access for the presentation layer: the finished polygons.
    pub fn completed_polygons(&self) -> (polygons: &Vec<Polygon>)
        ensures
            polygons_model(polygons@) == self@.completed,
    {
        &self.completed_polygons
    }

    /// Read access: every recorded action not yet undone, in application
    /// order (the last element is the most recent).
    pub fn undo_stack(&self) -> (actions: &Vec<Action>)
        ensures
            actions@ == self@.undo_actions,
    {
        &self.undo_stack
    }

    /// Read access: every undone action available for redo (the last element
    /// is the most recently undone).
    pub fn redo_stack(&self) -> (actions: &Vec<Action>)
        ensures
            actions@ == self@.redo_actions,
    {
        &self.redo_stack
    }
}

/// Replaying one action more extends the replay of a prefix by one
/// `apply_model` step.
pub proof fn lemma_replay_take_step(actions: Seq<Action>, i: int)
    requires
        0 <= i < actions.len(),
    ensures
        replay(actions.take(i + 1)) == apply_model(replay(actions.take(i)), actions[i]),
{
    let prefix = actions.take(i + 1);
    assert(prefix.drop_last() =~= actions.take(i));
    assert(prefix.last() == actions[i]);
}

} // verus!
