//! Integer vectors and 4×4 matrices.
//!
//! World coordinates are fixed-point: one unit of length is `WORLD_UNIT`
//! steps, and every coordinate is a whole number of steps. Matrices act on
//! column vectors and are stored row by row: `rows[r][c]` is the entry in
//! row `r` and column `c`, so the translation of an affine matrix stands in
//! column 3.
use vstd::prelude::*;

verus! {

/// Number of fixed-point steps in one unit of world length.
pub const WORLD_UNIT: i64 = 100;

/// A point or displacement in the plane, in fixed-point steps.
#[derive(Clone, Copy, Debug, PartialEq, Eq, Structural)]
pub struct Vec2 {
    pub x: i64,
    pub y: i64,
}

/// A point, displacement or per-axis factor in space.
#[derive(Clone, Copy, Debug, PartialEq, Eq, Structural)]
pub struct Vec3 {
    pub x: i64,
    pub y: i64,
    pub z: i64,
}

impl Vec2 {
    pub fn new(x: i64, y: i64) -> (r: Vec2)
        ensures
            r.x == x,
            r.y == y,
    {
        Vec2 { x, y }
    }

    pub fn zeros() -> (r: Vec2)
        ensures
            r.x == 0,
            r.y == 0,
    {
        Vec2 { x: 0, y: 0 }
    }
}

impl Vec3 {
    pub fn new(x: i64, y: i64, z: i64) -> (r: Vec3)
        ensures
            r.x == x,
            r.y == y,
            r.z == z,
    {
        Vec3 { x, y, z }
    }

    pub fn zeros() -> (r: Vec3)
        ensures
            r.x == 0,
            r.y == 0,
            r.z == 0,
    {
        Vec3 { x: 0, y: 0, z: 0 }
    }

    pub fn from_element(e: i64) -> (r: Vec3)
        ensures
            r.x == e,
            r.y == e,
            r.z == e,
    {
        Vec3 { x: e, y: e, z: e }
    }
}

/// A 4×4 integer matrix, stored row by row.
#[derive(Clone, Copy, Debug)]
pub struct Mat4 {
    pub rows: [[i128; 4]; 4],
}

impl View for Mat4 {
    type V = Seq<Seq<int>>;

    open spec fn view(&self) -> Seq<Seq<int>> {
        Seq::new(4, |r: int| Seq::new(4, |c: int| self.rows@[r]@[c] as int))
    }
}

/// Product of two 4×4 matrices.
pub open spec fn mat_mul(a: Seq<Seq<int>>, b: Seq<Seq<int>>) -> Seq<Seq<int>> {
    Seq::new(
        4,
        |r: int|
            Seq::new(
                4,
                |c: int|
                    a[r][0] * b[0][c] + a[r][1] * b[1][c] + a[r][2] * b[2][c] + a[r][3] * b[3][c],
            ),
    )
}

pub open spec fn identity_matrix() -> Seq<Seq<int>> {
    seq![seq![1, 0, 0, 0], seq![0, 1, 0, 0], seq![0, 0, 1, 0], seq![0, 0, 0, 1]]
}

/// The affine matrix that moves every point by `p`.
pub open spec fn translation_matrix(p: Vec3) -> Seq<Seq<int>> {
    seq![
        seq![1, 0, 0, p.x as int],
        seq![0, 1, 0, p.y as int],
        seq![0, 0, 1, p.z as int],
        seq![0, 0, 0, 1],
    ]
}

/// The matrix that stretches each axis by the matching factor of `s`.
pub open spec fn scaling_matrix(s: Vec3) -> Seq<Seq<int>> {
    seq![
        seq![s.x as int, 0, 0, 0],
        seq![0, s.y as int, 0, 0],
        seq![0, 0, s.z as int, 0],
        seq![0, 0, 0, 1],
    ]
}

/// Cosine of `q` quarter turns.
pub open spec fn quarter_cos(q: int) -> int {
    if q % 4 == 0 {
        1
    } else if q % 4 == 2 {
        -1
    } else {
        0
    }
}

/// Sine of `q` quarter turns.
pub open spec fn quarter_sin(q: int) -> int {
    if q % 4 == 1 {
        1
    } else if q % 4 == 3 {
        -1
    } else {
        0
    }
}

/// The matrix that turns the plane counter-clockwise about the z axis by
/// `q` quarter turns.
pub open spec fn rotation_z_matrix(q: int) -> Seq<Seq<int>> {
    seq![
        seq![quarter_cos(q), -quarter_sin(q), 0, 0],
        seq![quarter_sin(q), quarter_cos(q), 0, 0],
        seq![0, 0, 1, 0],
        seq![0, 0, 0, 1],
    ]
}

/// Translation, then rotation, then scaling, as one matrix: the matrix
/// first scales a point, then turns it, then moves it.
pub open spec fn trs_matrix(p: Vec3, q: int, s: Vec3) -> Seq<Seq<int>> {
    mat_mul(mat_mul(translation_matrix(p), rotation_z_matrix(q)), scaling_matrix(s))
}

/// `q` quarter turns brought into `0..4`.
fn quarter_index(q: i64) -> (r: i64)
    ensures
        r == q as int % 4,
        0 <= r < 4,
{
    let m = q % 4;
    if m < 0 {
        m + 4
    } else {
        m
    }
}

/// `f` taken with the sign `sign`, or zero.
fn signed(sign: i128, f: i64) -> (r: i128)
    requires
        -1 <= sign <= 1,
    ensures
        r == sign * f,
{
    proof {
        assert(sign * f == if sign == 1 {
            f as int
        } else if sign == -1 {
            -f
        } else {
            0
        }) by (nonlinear_arith)
            requires
                -1 <= sign <= 1,
        ;
    }
    if sign == 1 {
        f as i128
    } else if sign == -1 {
        -(f as i128)
    } else {
        0
    }
}

impl Mat4 {
    pub fn identity() -> (r: Mat4)
        ensures
            r@ == identity_matrix(),
    {
        let r = Mat4 { rows: [[1, 0, 0, 0], [0, 1, 0, 0], [0, 0, 1, 0], [0, 0, 0, 1]] };
        assert(r@ =~~= identity_matrix());
        r
    }

    pub fn new_translation(p: &Vec3) -> (r: Mat4)
        ensures
            r@ == translation_matrix(*p),
    {
        let r = Mat4 {
            rows: [
                [1, 0, 0, p.x as i128],
                [0, 1, 0, p.y as i128],
                [0, 0, 1, p.z as i128],
                [0, 0, 0, 1],
            ],
        };
        assert(r@ =~~= translation_matrix(*p));
        r
    }

    /// The matrix that scales by `s`, turns by `q` quarter turns about z,
    /// then moves by `p`.
    pub fn new_trs(p: &Vec3, q: i64, s: &Vec3) -> (r: Mat4)
        ensures
            r@ == trs_matrix(*p, q as int, *s),
    {
        let k = quarter_index(q);
        let c: i128 = if k == 0 {
            1
        } else if k == 2 {
            -1
        } else {
            0
        };
        let n: i128 = if k == 1 {
            1
        } else if k == 3 {
            -1
        } else {
            0
        };
        let r = Mat4 {
            rows: [
                [signed(c, s.x), signed(-n, s.y), 0, p.x as i128],
                [signed(n, s.x), signed(c, s.y), 0, p.y as i128],
                [0, 0, s.z as i128, p.z as i128],
                [0, 0, 0, 1],
            ],
        };
        proof {
            lemma_trs_closed_form(*p, q as int, *s);
        }
        assert(r@ =~~= trs_matrix(*p, q as int, *s));
        r
    }
}

/// Entry by entry value of the translate-rotate-scale product.
pub proof fn lemma_trs_closed_form(p: Vec3, q: int, s: Vec3)
    ensures
        trs_matrix(p, q, s) == seq![
            seq![quarter_cos(q) * s.x, -quarter_sin(q) * s.y, 0, p.x as int],
            seq![quarter_sin(q) * s.x, quarter_cos(q) * s.y, 0, p.y as int],
            seq![0, 0, s.z as int, p.z as int],
            seq![0int, 0, 0, 1],
        ],
{
    broadcast use vstd::arithmetic::mul::group_mul_basics;

    let c = quarter_cos(q);
    let n = quarter_sin(q);
    let tr = mat_mul(translation_matrix(p), rotation_z_matrix(q));
    assert(tr =~~= seq![
        seq![c, -n, 0, p.x as int],
        seq![n, c, 0, p.y as int],
        seq![0, 0, 1, p.z as int],
        seq![0int, 0, 0, 1],
    ]);
    assert(mat_mul(tr, scaling_matrix(s)) =~~= seq![
        seq![c * s.x, -n * s.y, 0, p.x as int],
        seq![n * s.x, c * s.y, 0, p.y as int],
        seq![0, 0, s.z as int, p.z as int],
        seq![0int, 0, 0, 1],
    ]);
}

} // verus!
