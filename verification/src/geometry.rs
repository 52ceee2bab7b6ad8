//! The geometry primitives: a point in window pixel space and a polygon, an
//! ordered list of vertices with a completion flag.

use vstd::prelude::*;

verus! {

/// A point in window pixel space. Immutable once created; copied by value.
#[derive(Clone, Copy, PartialEq, Eq, Structural, Debug)]
pub struct Point {
    pub x: i64,
    pub y: i64,
}

/// The mathematical value of a polygon: its vertex sequence and whether it has
/// been finalized.
#[verifier::ext_equal]
pub ghost struct PolygonModel {
    pub vertices: Seq<Point>,
    pub is_complete: bool,
}

/// A polygon being drawn or already finalized. Once `is_complete` is true the
/// vertex list is a finalized snapshot and is never mutated again by the
/// engine.
#[derive(PartialEq, Debug)]
pub struct Polygon {
    pub vertices: Vec<Point>,
    pub is_complete: bool,
}

impl View for Polygon {
    type V = PolygonModel;

    open spec fn view(&self) -> PolygonModel {
        PolygonModel { vertices: self.vertices@, is_complete: self.is_complete }
    }
}

/// The value every polygon starts from: no vertices, not complete.
pub open spec fn empty_polygon_model() -> PolygonModel {
    PolygonModel { vertices: Seq::empty(), is_complete: false }
}

impl Polygon {
    /// A fresh polygon: no vertices, not complete.
    pub fn new() -> (p: Polygon)
        ensures
            p@ == empty_polygon_model(),
    {
        let p = Polygon { vertices: Vec::new(), is_complete: false };
        proof {
            assert(p@ =~= empty_polygon_model());
        }
        p
    }
}

impl Clone for Polygon {
    /// A clone is the same polygon value: same vertices, same flag.
    fn clone(&self) -> (p: Polygon)
        ensures
            p@ == self@,
    {
        let mut vertices: Vec<Point> = Vec::new();
        let mut i: usize = 0;
        while i < self.vertices.len()
            invariant
                i <= self.vertices.len(),
                vertices@ == self.vertices@.take(i as int),
            decreases self.vertices.len() - i,
        {
            vertices.push(self.vertices[i]);
            proof {
                assert(self.vertices@.take(i + 1) =~= self.vertices@.take(i as int).push(
                    self.vertices@[i as int],
                ));
            }
            i = i + 1;
        }
        proof {
            assert(self.vertices@.take(self.vertices@.len() as int) =~= self.vertices@);
        }
        let p = Polygon { vertices, is_complete: self.is_complete };
        proof {
            assert(p@ =~= self@);
        }
        p
    }
}

} // verus!
