//! The grid of mesh instances. Positions are held in half world units so
//! that a grid centred on the origin stays exact: the coordinate `x2` stands
//! for the position `x2 / 2`.
use vstd::prelude::*;

verus! {

/// Cells along each side of the scene's grid.
pub const NUM_INSTANCES_PER_ROW: u32 = 10;

/// World units between neighbouring cells of the scene's grid.
pub const SPACE_BETWEEN_MODELS: u32 = 3;

/// Degrees by which an instance off the centre is turned about its axis.
pub const INSTANCE_TILT_DEGREES: u32 = 45;

/// How an instance is turned.
#[derive(Clone, Copy, Debug, PartialEq, Eq, Structural)]
pub enum Rotation {
    /// Not turned at all.
    Identity,
    /// Turned by [`INSTANCE_TILT_DEGREES`] about the axis through the origin
    /// and the instance's own position (its normalised position).
    AboutPosition,
}

/// One instance of the mesh: a position, in half world units, and a rotation.
#[derive(Clone, Copy, Debug, PartialEq, Eq, Structural)]
pub struct Instance {
    pub x2: i64,
    pub y2: i64,
    pub z2: i64,
    pub rotation: Rotation,
}

impl Instance {
    pub fn new(x2: i64, y2: i64, z2: i64, rotation: Rotation) -> (r: Instance)
        ensures
            r == (Instance { x2, y2, z2, rotation }),
    {
        Instance { x2, y2, z2, rotation }
    }

    /// Whether the instance sits at the origin.
    pub fn is_at_origin(&self) -> (r: bool)
        ensures
            r == (self.x2 == 0 && self.y2 == 0 && self.z2 == 0),
    {
        self.x2 == 0 && self.y2 == 0 && self.z2 == 0
    }
}

impl Default for Instance {
    /// An instance at the origin, not turned.
    fn default() -> (r: Instance)
        ensures
            r == (Instance { x2: 0, y2: 0, z2: 0, rotation: Rotation::Identity }),
    {
        Instance { x2: 0, y2: 0, z2: 0, rotation: Rotation::Identity }
    }
}

/// The doubled coordinate of cell `index` of `count` cells spaced `spacing`
/// apart and centred on zero: `2 * spacing * (index - (count - 1) / 2)`.
pub open spec fn grid_coordinate(index: int, count: int, spacing: int) -> int {
    spacing * (2 * index - (count - 1))
}

/// The instance of cell `k` of a `rows` x `cols` grid, numbered row by row:
/// row `k / cols` gives its z, column `k % cols` its x, and its y is zero.
/// Only an instance at the origin goes unturned, since there the axis
/// through the origin and the instance is undefined.
pub open spec fn grid_instance(k: int, rows: int, cols: int, spacing: int) -> Instance {
    let x2 = grid_coordinate(k % cols, cols, spacing);
    let z2 = grid_coordinate(k / cols, rows, spacing);
    Instance {
        x2: x2 as i64,
        y2: 0,
        z2: z2 as i64,
        rotation: if x2 == 0 && z2 == 0 {
            Rotation::Identity
        } else {
            Rotation::AboutPosition
        },
    }
}

proof fn lemma_coordinate_fits(index: int, count: int, spacing: int)
    requires
        0 <= index < count,
        0 <= spacing,
        spacing * count <= i64::MAX,
    ensures
        i64::MIN <= grid_coordinate(index, count, spacing) <= i64::MAX,
{
    let d = 2 * index - (count - 1);
    assert(-count <= d <= count);
    assert(-(spacing * count) <= spacing * d <= spacing * count) by (nonlinear_arith)
        requires
            -count <= d <= count,
            0 <= spacing,
    ;
}

proof fn lemma_cell_index(row: int, col: int, cols: int)
    requires
        0 <= row,
        0 <= col < cols,
    ensures
        (row * cols + col) / cols == row,
        (row * cols + col) % cols == col,
{
    vstd::arithmetic::div_mod::lemma_fundamental_div_mod_converse(row * cols + col, cols, row, col);
}

/// Lays out a `rows` x `cols` grid of instances `spacing` world units apart,
/// centred on the origin, row by row.
pub fn grid(rows: u32, cols: u32, spacing: u32) -> (r: Vec<Instance>)
    requires
        spacing as int * rows as int <= i64::MAX,
        spacing as int * cols as int <= i64::MAX,
    ensures
        r@.len() == rows as int * cols as int,
        forall|k: int| 0 <= k < r@.len() ==> #[trigger] r@[k] == grid_instance(k, rows as int, cols as int, spacing as int),
        forall|k: int|
            0 <= k < r@.len() ==> ((#[trigger] r@[k]).rotation == Rotation::Identity <==> (r@[k].x2 == 0
                && r@[k].y2 == 0 && r@[k].z2 == 0)),
{
    let mut v: Vec<Instance> = Vec::new();
    let mut row: u32 = 0;
    while row < rows
        invariant
            row <= rows,
            spacing as int * rows as int <= i64::MAX,
            spacing as int * cols as int <= i64::MAX,
            v@.len() == row as int * cols as int,
            forall|k: int| 0 <= k < v@.len() ==> #[trigger] v@[k] == grid_instance(k, rows as int, cols as int, spacing as int),
            forall|k: int|
                0 <= k < v@.len() ==> ((#[trigger] v@[k]).rotation == Rotation::Identity <==> (v@[k].x2 == 0
                    && v@[k].y2 == 0 && v@[k].z2 == 0)),
        decreases rows - row,
    {
        proof {
            lemma_coordinate_fits(row as int, rows as int, spacing as int);
        }
        let z2 = spacing as i64 * (2 * row as i64 - (rows as i64 - 1));
        let mut col: u32 = 0;
        while col < cols
            invariant
                row < rows,
                col <= cols,
                spacing as int * rows as int <= i64::MAX,
                spacing as int * cols as int <= i64::MAX,
                z2 == grid_coordinate(row as int, rows as int, spacing as int),
                v@.len() == row as int * cols as int + col as int,
                forall|k: int| 0 <= k < v@.len() ==> #[trigger] v@[k] == grid_instance(k, rows as int, cols as int, spacing as int),
                forall|k: int|
                    0 <= k < v@.len() ==> ((#[trigger] v@[k]).rotation == Rotation::Identity <==> (v@[k].x2 == 0
                        && v@[k].y2 == 0 && v@[k].z2 == 0)),
            decreases cols - col,
        {
            proof {
                lemma_coordinate_fits(col as int, cols as int, spacing as int);
                lemma_cell_index(row as int, col as int, cols as int);
            }
            let x2 = spacing as i64 * (2 * col as i64 - (cols as i64 - 1));
            let rotation = if x2 == 0 && z2 == 0 {
                Rotation::Identity
            } else {
                Rotation::AboutPosition
            };
            v.push(Instance { x2, y2: 0, z2, rotation });
            col = col + 1;
        }
        proof {
            assert(row as int * cols as int + cols as int == (row as int + 1) * cols as int) by (nonlinear_arith);
        }
        row = row + 1;
    }
    v
}

/// Distinct cells of a grid with positive spacing sit at distinct positions.
pub proof fn lemma_grid_positions_distinct(rows: int, cols: int, spacing: int, j: int, k: int)
    requires
        0 < spacing,
        0 <= rows,
        0 <= cols,
        0 <= j < rows * cols,
        0 <= k < rows * cols,
        j != k,
        spacing * rows <= i64::MAX,
        spacing * cols <= i64::MAX,
    ensures
        grid_instance(j, rows, cols, spacing).x2 != grid_instance(k, rows, cols, spacing).x2
            || grid_instance(j, rows, cols, spacing).z2 != grid_instance(k, rows, cols, spacing).z2,
{
    assert(cols > 0) by (nonlinear_arith)
        requires
            0 <= j < rows * cols,
            0 <= rows,
            0 <= cols,
    ;
    assert(rows > 0) by (nonlinear_arith)
        requires
            0 <= j < rows * cols,
            cols > 0,
    ;
    vstd::arithmetic::div_mod::lemma_fundamental_div_mod(j, cols);
    vstd::arithmetic::div_mod::lemma_fundamental_div_mod(k, cols);
    let (jr, jc, kr, kc) = (j / cols, j % cols, k / cols, k % cols);
    assert(0 <= jr < rows && 0 <= kr < rows) by (nonlinear_arith)
        requires
            j == cols * jr + jc,
            k == cols * kr + kc,
            0 <= jc < cols,
            0 <= kc < cols,
            0 <= j < rows * cols,
            0 <= k < rows * cols,
    ;
    lemma_coordinate_fits(jc, cols, spacing);
    lemma_coordinate_fits(kc, cols, spacing);
    lemma_coordinate_fits(jr, rows, spacing);
    lemma_coordinate_fits(kr, rows, spacing);
    if jc == kc {
        assert(jr != kr);
        assert(grid_coordinate(jr, rows, spacing) != grid_coordinate(kr, rows, spacing)) by (nonlinear_arith)
            requires
                jr != kr,
                0 < spacing,
        ;
    } else {
        assert(grid_coordinate(jc, cols, spacing) != grid_coordinate(kc, cols, spacing)) by (nonlinear_arith)
            requires
                jc != kc,
                0 < spacing,
        ;
    }
}

} // verus!
