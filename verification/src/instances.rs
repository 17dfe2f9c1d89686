use vstd::prelude::*;
use vstd::arithmetic::div_mod::*;

verus! {

/// Number of instances laid along each axis of the default grid.
pub const GRID_SIDE: u32 = 10;

/// World-space distance between neighbouring instances of the grid.
pub const GRID_SPACING: i32 = 3;

/// Orientation of one grid instance.
#[derive(Clone, Copy, PartialEq, Eq, Structural, Debug)]
pub enum Rotation {
    /// No rotation at all: used for the instance sitting at the
    /// origin, whose position vector cannot be normalised.
    Identity,
    /// A forty-five degree turn about the instance's own, normalised,
    /// position vector.
    AboutPosition,
}

/// One instance of the mesh: a position on the grid and an
/// orientation.
///
/// Positions are stored doubled — each field is twice the world-space
/// coordinate — so that every grid side length, odd as well as even,
/// keeps all coordinates on the integer lattice; the world-space
/// position is half of each stored value.
#[derive(Clone, Copy, PartialEq, Eq, Structural, Debug)]
pub struct Instance {
    /// Twice the world-space x coordinate.
    pub x2: i32,
    /// Twice the world-space y coordinate.
    pub y2: i32,
    /// Twice the world-space z coordinate.
    pub z2: i32,
    /// How the instance is turned.
    pub rotation: Rotation,
}

/// Twice the world-space coordinate of cell `c` along one axis of a
/// grid with `side` cells per axis: cells sit `GRID_SPACING` apart,
/// centred on the origin.
pub open spec fn cell_coord2(side: int, c: int) -> int {
    GRID_SPACING * (2 * c - side)
}

/// The instance placed at grid cell (x, y, z): positioned by
/// `cell_coord2` on each axis, unrotated exactly at the origin and
/// turned about its own position vector everywhere else.
pub open spec fn cell_instance(side: int, x: int, y: int, z: int) -> Instance {
    let cx = cell_coord2(side, x);
    let cy = cell_coord2(side, y);
    let cz = cell_coord2(side, z);
    Instance {
        x2: cx as i32,
        y2: cy as i32,
        z2: cz as i32,
        rotation: if cx == 0 && cy == 0 && cz == 0 {
            Rotation::Identity
        } else {
            Rotation::AboutPosition
        },
    }
}

/// Where cell (x, y, z) lands in the flattened instance list: the z
/// axis varies slowest and the y axis fastest, the order in which the
/// builder walks the grid.
pub open spec fn cell_index(side: int, x: int, y: int, z: int) -> int {
    (z * side + x) * side + y
}

/// The instance stored at position `i` of the flattened list.
pub open spec fn instance_at(side: int, i: int) -> Instance {
    let z = i / (side * side);
    let rem = i % (side * side);
    let x = rem / side;
    let y = rem % side;
    cell_instance(side, x, y, z)
}

/// Builds the fixed instance grid: `side` cells per axis, one
/// instance per cell, flattened with the z axis slowest. The list is
/// derived once at startup and never changed afterwards.
pub fn build_instances(side: u32) -> (v: Vec<Instance>)
    requires
        side <= 1000,
    ensures
        v@.len() == side * side * side,
        forall|i: int|
            0 <= i < v@.len() ==> v@[i] == instance_at(side as int, i),
{
    let s: usize = side as usize;
    proof {
        assert(s * s <= 1000000 && s * s * s <= 1000000000) by (nonlinear_arith)
            requires
                s <= 1000,
        ;
    }
    let total: usize = s * s * s;
    let mut v: Vec<Instance> = Vec::new();
    let mut i: usize = 0;
    while i < total
        invariant
            side <= 1000,
            s == side as usize,
            total == s * s * s,
            i <= total,
            v@.len() == i,
            forall|j: int| 0 <= j < i ==> v@[j] == instance_at(side as int, j),
        decreases total - i,
    {
        proof {
            if s == 0 {
                assert(total == 0);
            }
            assert(s * s <= 1000000) by (nonlinear_arith)
                requires
                    s <= 1000,
            ;
        }
        let ss: usize = s * s;
        let z: usize = i / ss;
        let rem: usize = i % ss;
        let x: usize = rem / s;
        let y: usize = rem % s;
        proof {
            lemma_multiply_divide_lt(i as int, ss as int, s as int);
            assert(z < s);
            lemma_mod_bound(i as int, ss as int);
            lemma_multiply_divide_lt(rem as int, s as int, s as int);
            assert(x < s);
            lemma_mod_bound(rem as int, s as int);
            assert(y < s);
        }
        let cx: i32 = GRID_SPACING * (2 * (x as i32) - side as i32);
        let cy: i32 = GRID_SPACING * (2 * (y as i32) - side as i32);
        let cz: i32 = GRID_SPACING * (2 * (z as i32) - side as i32);
        let inst = Instance {
            x2: cx,
            y2: cy,
            z2: cz,
            rotation: if cx == 0 && cy == 0 && cz == 0 {
                Rotation::Identity
            } else {
                Rotation::AboutPosition
            },
        };
        proof {
            assert(inst == instance_at(side as int, i as int));
        }
        v.push(inst);
        i = i + 1;
    }
    v
}

/// Flattening and unflattening agree: the instance listed at
/// `cell_index(side, x, y, z)` is exactly the one `cell_instance`
/// places at cell (x, y, z), and that index is always in range.
pub proof fn lemma_cell_lookup(side: int, x: int, y: int, z: int)
    requires
        0 <= x < side,
        0 <= y < side,
        0 <= z < side,
    ensures
        0 <= cell_index(side, x, y, z) < side * side * side,
        instance_at(side, cell_index(side, x, y, z)) == cell_instance(side, x, y, z),
{
    let i = cell_index(side, x, y, z);
    let rem = x * side + y;
    assert(i == z * (side * side) + rem && 0 <= rem && rem < side * side && 0 <= i
        && i < side * side * side) by (nonlinear_arith)
        requires
            0 <= x < side,
            0 <= y < side,
            0 <= z < side,
            i == (z * side + x) * side + y,
            rem == x * side + y,
    ;
    lemma_fundamental_div_mod_converse(i, side * side, z, rem);
    lemma_fundamental_div_mod_converse(rem, side, x, y);
}

/// Exactly the grid-centre cell — the one whose position is the
/// origin, which exists only when the side length is even — carries
/// the identity rotation; every other instance is turned about its
/// own position vector.
pub proof fn lemma_identity_only_at_centre(side: int, x: int, y: int, z: int)
    requires
        0 <= x < side,
        0 <= y < side,
        0 <= z < side,
        side <= 1000,
    ensures
        cell_instance(side, x, y, z).rotation == Rotation::Identity
            <==> (2 * x == side && 2 * y == side && 2 * z == side),
        cell_instance(side, x, y, z).x2 == 0 <==> 2 * x == side,
        cell_instance(side, x, y, z).y2 == 0 <==> 2 * y == side,
        cell_instance(side, x, y, z).z2 == 0 <==> 2 * z == side,
{
}

/// Deriving the instance list is deterministic: any two lists that
/// meet the grid builder's contract for the same side length are
/// equal, element for element.
pub proof fn lemma_grid_deterministic(a: Seq<Instance>, b: Seq<Instance>, side: int)
    requires
        a.len() == side * side * side,
        b.len() == side * side * side,
        forall|i: int| 0 <= i < a.len() ==> a[i] == instance_at(side, i),
        forall|i: int| 0 <= i < b.len() ==> b[i] == instance_at(side, i),
    ensures
        a == b,
{
    assert(a =~= b);
}

} // verus!
