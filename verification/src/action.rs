//! The unit of undo/redo granularity: one immutable record of an edit.

use crate::geometry::Point;
use vstd::prelude::*;

verus! {

/// One undoable edit to the drawing.
#[derive(Clone, Copy, PartialEq, Eq, Structural, Debug)]
pub enum Action {
    /// Append a point to the current polygon.
    AddVertex(Point),
    /// Finalize the current polygon if it has at least three vertices.
    CompletePolygon,
    /// Replace the current polygon with a fresh empty, incomplete one.
    NewPolygon,
}

} // verus!
