//! Integer vectors used for room sizes and wrap offsets.

use vstd::prelude::*;

verus! {

/// An unsigned 2D vector (room sizes, ideal screen sizes).
#[derive(Clone, Copy, Debug, PartialEq, Eq, Structural, Hash)]
pub struct UVec2 {
    pub x: u32,
    pub y: u32,
}

/// A signed 2D vector (offsets between copies of a wrapped room).
#[derive(Clone, Copy, Debug, PartialEq, Eq, Structural, Hash)]
pub struct IVec2 {
    pub x: i64,
    pub y: i64,
}

impl UVec2 {
    pub fn new(x: u32, y: u32) -> (v: UVec2)
        ensures
            v.x == x,
            v.y == y,
    {
        UVec2 { x, y }
    }

    /// Multiplies both coordinates by `factor`.
    pub fn scaled(self, factor: u32) -> (v: UVec2)
        requires
            self.x * factor <= u32::MAX,
            self.y * factor <= u32::MAX,
        ensures
            v.x == self.x * factor,
            v.y == self.y * factor,
    {
        UVec2 { x: self.x * factor, y: self.y * factor }
    }
}

impl IVec2 {
    pub fn new(x: i64, y: i64) -> (v: IVec2)
        ensures
            v.x == x,
            v.y == y,
    {
        IVec2 { x, y }
    }
}


/// The offsets at which copies of a wrapped room of the given size sit:
/// the eight neighbours of the canonical room, column by column.
pub open spec fn spec_wrap_offsets(size: UVec2) -> Seq<IVec2> {
    let w = size.x as i64;
    let h = size.y as i64;
    let nw = -(size.x as int) as i64;
    let nh = -(size.y as int) as i64;
    seq![
        IVec2 { x: nw, y: nh },
        IVec2 { x: nw, y: 0 },
        IVec2 { x: nw, y: h },
        IVec2 { x: 0, y: nh },
        IVec2 { x: 0, y: h },
        IVec2 { x: w, y: nh },
        IVec2 { x: w, y: 0 },
        IVec2 { x: w, y: h },
    ]
}

/// Computes the offsets of the eight copies of a wrapped room around the canonical one.
pub fn wrap_offsets(size: UVec2) -> (offsets: Vec<IVec2>)
    ensures
        offsets@ == spec_wrap_offsets(size),
{
    let w = size.x as i64;
    let h = size.y as i64;
    let mut offsets: Vec<IVec2> = Vec::new();
    offsets.push(IVec2::new(-w, -h));
    offsets.push(IVec2::new(-w, 0));
    offsets.push(IVec2::new(-w, h));
    offsets.push(IVec2::new(0, -h));
    offsets.push(IVec2::new(0, h));
    offsets.push(IVec2::new(w, -h));
    offsets.push(IVec2::new(w, 0));
    offsets.push(IVec2::new(w, h));
    offsets
}

/// Every copy of a wrapped room sits a whole room width and/or height away,
/// and no copy sits on the canonical room.
pub proof fn lemma_wrap_offsets_are_neighbours(size: UVec2)
    requires
        size.x > 0,
        size.y > 0,
    ensures
        spec_wrap_offsets(size).len() == 8,
        forall|i: int|
            0 <= i < 8 ==> {
                let o = #[trigger] spec_wrap_offsets(size)[i];
                &&& (o.x == 0 || o.x == size.x || o.x == -size.x)
                &&& (o.y == 0 || o.y == size.y || o.y == -size.y)
                &&& !(o.x == 0 && o.y == 0)
            },
        forall|i: int, j: int|
            0 <= i < j < 8 ==> spec_wrap_offsets(size)[i] != spec_wrap_offsets(size)[j],
{
}

} // verus!
