use vstd::prelude::*;

verus! {

/// One of the six faces of an axis-aligned box, in the order in which a hit
/// point is tested against them.
#[derive(Clone, Copy, Debug, PartialEq, Eq, Structural)]
pub enum Face {
    MinX,
    MaxX,
    MinY,
    MaxY,
    MinZ,
    MaxZ,
}

/// Position of a face in the test order `-x, +x, -y, +y, -z, +z`.
pub open spec fn face_rank(f: Face) -> int {
    match f {
        Face::MinX => 0,
        Face::MaxX => 1,
        Face::MinY => 2,
        Face::MaxY => 3,
        Face::MinZ => 4,
        Face::MaxZ => 5,
    }
}

/// The face that a hit point is assigned to, given for each face in test order
/// whether the point lies within tolerance of its plane: the first such face,
/// and `+z` when none is.
pub open spec fn first_face_spec(near: Seq<bool>) -> Face {
    if near[0] {
        Face::MinX
    } else if near[1] {
        Face::MaxX
    } else if near[2] {
        Face::MinY
    } else if near[3] {
        Face::MaxY
    } else if near[4] {
        Face::MinZ
    } else {
        Face::MaxZ
    }
}

/// Outward unit normal of a face, as integer components.
pub open spec fn normal_spec(f: Face) -> (int, int, int) {
    match f {
        Face::MinX => (-1, 0, 0),
        Face::MaxX => (1, 0, 0),
        Face::MinY => (0, -1, 0),
        Face::MaxY => (0, 1, 0),
        Face::MinZ => (0, 0, -1),
        Face::MaxZ => (0, 0, 1),
    }
}

impl Face {
    /// Picks the face of a hit point: `near[i]` says whether the point lies
    /// within tolerance of the plane of the face of rank `i`. Where several
    /// do (an edge or a corner), the first in test order wins.
    pub fn first_near(near: [bool; 6]) -> (f: Face)
        ensures
            f == first_face_spec(near@),
            near@[face_rank(f)] || f == Face::MaxZ,
            forall|i: int| 0 <= i < face_rank(f) ==> !near@[i],
    {
        if near[0] {
            Face::MinX
        } else if near[1] {
            Face::MaxX
        } else if near[2] {
            Face::MinY
        } else if near[3] {
            Face::MaxY
        } else if near[4] {
            Face::MinZ
        } else {
            Face::MaxZ
        }
    }

    /// The outward unit normal of the face.
    pub fn normal(&self) -> (n: (i32, i32, i32))
        ensures
            (n.0 as int, n.1 as int, n.2 as int) == normal_spec(*self),
    {
        match self {
            Face::MinX => (-1, 0, 0),
            Face::MaxX => (1, 0, 0),
            Face::MinY => (0, -1, 0),
            Face::MaxY => (0, 1, 0),
            Face::MinZ => (0, 0, -1),
            Face::MaxZ => (0, 0, 1),
        }
    }
}

} // verus!
