use vstd::prelude::*;

verus! {

/// One of the six faces of an axis-aligned box.
#[derive(Clone, Copy, Debug, PartialEq, Eq, Structural)]
pub enum Face {
    MinX,
    MaxX,
    MinY,
    MaxY,
    MinZ,
    MaxZ,
}

/// An outward axis direction with components in `-1..=1`.
#[derive(Clone, Copy, Debug, PartialEq, Eq, Structural)]
pub struct AxisNormal {
    pub x: i8,
    pub y: i8,
    pub z: i8,
}

/// Which faces a point on a box lies on, each within the box's tolerance.
#[derive(Clone, Copy, Debug, PartialEq, Eq, Structural)]
pub struct FaceProximity {
    pub min_x: bool,
    pub max_x: bool,
    pub min_y: bool,
    pub max_y: bool,
    pub min_z: bool,
    pub max_z: bool,
}

/// Position of a face in the order in which faces are tried: x before y before z,
/// and on each axis the lower face first.
pub open spec fn rank(f: Face) -> nat {
    match f {
        Face::MinX => 0,
        Face::MaxX => 1,
        Face::MinY => 2,
        Face::MaxY => 3,
        Face::MinZ => 4,
        Face::MaxZ => 5,
    }
}

pub open spec fn is_near(p: FaceProximity, f: Face) -> bool {
    match f {
        Face::MinX => p.min_x,
        Face::MaxX => p.max_x,
        Face::MinY => p.min_y,
        Face::MaxY => p.max_y,
        Face::MinZ => p.min_z,
        Face::MaxZ => p.max_z,
    }
}

/// The face a hit point is attributed to: the first face in the order of `rank`
/// that the point is near; the upper z face when it is near none.
pub open spec fn chosen_face(p: FaceProximity, f: Face) -> bool {
    &&& (is_near(p, f) || f == Face::MaxZ)
    &&& forall|g: Face| rank(g) < rank(f) ==> !#[trigger] is_near(p, g)
}

/// A unit vector along one axis: one component is 1 or -1, the others 0.
pub open spec fn is_unit_axis(n: AxisNormal) -> bool {
    let nonzero = |c: i8| c == 1 || c == -1;
    ||| nonzero(n.x) && n.y == 0 && n.z == 0
    ||| n.x == 0 && nonzero(n.y) && n.z == 0
    ||| n.x == 0 && n.y == 0 && nonzero(n.z)
}

pub open spec fn normal_of(f: Face) -> AxisNormal {
    match f {
        Face::MinX => AxisNormal { x: -1i8, y: 0, z: 0 },
        Face::MaxX => AxisNormal { x: 1, y: 0, z: 0 },
        Face::MinY => AxisNormal { x: 0, y: -1i8, z: 0 },
        Face::MaxY => AxisNormal { x: 0, y: 1, z: 0 },
        Face::MinZ => AxisNormal { x: 0, y: 0, z: -1i8 },
        Face::MaxZ => AxisNormal { x: 0, y: 0, z: 1 },
    }
}

impl Face {
    /// Picks the face for a hit point; where the point is near several faces (an
    /// edge or a corner), the first in the order x, y, z wins, lower face first.
    pub fn select(p: FaceProximity) -> (r: Face)
        ensures
            chosen_face(p, r),
    {
        if p.min_x {
            Face::MinX
        } else if p.max_x {
            Face::MaxX
        } else if p.min_y {
            Face::MinY
        } else if p.max_y {
            Face::MaxY
        } else if p.min_z {
            Face::MinZ
        } else {
            Face::MaxZ
        }
    }

    /// The outward unit normal of the face.
    pub fn normal(self) -> (r: AxisNormal)
        ensures
            r == normal_of(self),
            is_unit_axis(r),
    {
        match self {
            Face::MinX => AxisNormal { x: -1, y: 0, z: 0 },
            Face::MaxX => AxisNormal { x: 1, y: 0, z: 0 },
            Face::MinY => AxisNormal { x: 0, y: -1, z: 0 },
            Face::MaxY => AxisNormal { x: 0, y: 1, z: 0 },
            Face::MinZ => AxisNormal { x: 0, y: 0, z: -1 },
            Face::MaxZ => AxisNormal { x: 0, y: 0, z: 1 },
        }
    }
}

/// Exactly one face meets `chosen_face` for any proximity, so the tie-break is
/// fully determined.
pub proof fn lemma_chosen_face_unique(p: FaceProximity, f: Face, g: Face)
    requires
        chosen_face(p, f),
        chosen_face(p, g),
    ensures
        f == g,
{
    if rank(f) < rank(g) {
        assert(!is_near(p, f));
    } else if rank(g) < rank(f) {
        assert(!is_near(p, g));
    } else {
        assert(f == g);
    }
}

} // verus!
