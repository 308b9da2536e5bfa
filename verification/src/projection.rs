//! The projection unit.
//!
//! `compute` derives the 4x4 orthographic transform that maps pixel
//! coordinates (origin at the top left, y growing downward) onto the
//! clip-space cube of a graphics API whose depth range is `0..1`. The
//! matrix is the composition of a textbook orthographic projection over
//! `(0,0)..(width,height)` with near `-1` and far `1`, and the depth
//! remap `z' = z/2 + w/2`. Every entry is an exact fraction; the host
//! divides the two integers into a float only when it uploads the
//! matrix to the GPU uniform buffer.

use vstd::prelude::*;

use crate::rat::{
    lemma_rat_eq_trans, lemma_rat_lt_congruence, rat_add, rat_eq, rat_lt, rat_mul, rat_of_int,
    rat_wf, Frac, Rat, FRAC_LIMIT,
};

verus! {

/// The value of the projection matrix entry in column `col`, row `row`
/// (column-major, as the GPU consumes it), for a viewport of `w` by `h`
/// pixels.
pub open spec fn ortho_entry(w: int, h: int, col: int, row: int) -> Rat {
    if col == 0 && row == 0 {
        Rat { num: 2, den: w }
    } else if col == 1 && row == 1 {
        Rat { num: -2, den: h }
    } else if col == 2 && row == 2 {
        Rat { num: -1, den: 2 }
    } else if col == 3 && row == 0 {
        Rat { num: -1, den: 1 }
    } else if col == 3 && row == 1 {
        Rat { num: 1, den: 1 }
    } else if col == 3 && row == 2 {
        Rat { num: 1, den: 2 }
    } else if col == 3 && row == 3 {
        Rat { num: 1, den: 1 }
    } else {
        Rat { num: 0, den: 1 }
    }
}

/// The cached projection matrix: 16 exact fractions in column-major
/// order.
pub struct ProjectionMatrix {
    pub entries: Vec<Frac>,
}

impl ProjectionMatrix {
    /// Sixteen entries, each a well-formed fraction.
    pub open spec fn wf(self) -> bool {
        &&& self.entries@.len() == 16
        &&& forall|i: int| 0 <= i < 16 ==> (#[trigger] self.entries@[i]).wf()
    }

    /// The rational denoted by the entry in column `col`, row `row`.
    pub open spec fn entry(self, col: int, row: int) -> Rat {
        self.entries@[col * 4 + row]@
    }

    /// The matrix is exactly the orthographic transform for a viewport
    /// of `w` by `h` pixels.
    pub open spec fn is_projection_for(self, w: int, h: int) -> bool {
        forall|col: int, row: int|
            0 <= col < 4 && 0 <= row < 4 ==> #[trigger] self.entry(col, row) == ortho_entry(
                w,
                h,
                col,
                row,
            )
    }
}

/// The clip-space x coordinate the matrix assigns to the pixel-space
/// point `(x, y, 0, 1)`.
pub open spec fn clip_x(m: ProjectionMatrix, x: int, y: int) -> Rat {
    rat_add(
        rat_add(
            rat_add(rat_mul(m.entry(0, 0), rat_of_int(x)), rat_mul(m.entry(1, 0), rat_of_int(y))),
            rat_mul(m.entry(2, 0), rat_of_int(0)),
        ),
        m.entry(3, 0),
    )
}

/// The clip-space y coordinate the matrix assigns to the pixel-space
/// point `(x, y, 0, 1)`.
pub open spec fn clip_y(m: ProjectionMatrix, x: int, y: int) -> Rat {
    rat_add(
        rat_add(
            rat_add(rat_mul(m.entry(0, 1), rat_of_int(x)), rat_mul(m.entry(1, 1), rat_of_int(y))),
            rat_mul(m.entry(2, 1), rat_of_int(0)),
        ),
        m.entry(3, 1),
    )
}

/// The clip-space depth the matrix assigns to the pixel-space point
/// `(x, y, 0, 1)`.
pub open spec fn clip_z(m: ProjectionMatrix, x: int, y: int) -> Rat {
    rat_add(
        rat_add(
            rat_add(rat_mul(m.entry(0, 2), rat_of_int(x)), rat_mul(m.entry(1, 2), rat_of_int(y))),
            rat_mul(m.entry(2, 2), rat_of_int(0)),
        ),
        m.entry(3, 2),
    )
}

/// The homogeneous w coordinate the matrix assigns to the pixel-space
/// point `(x, y, 0, 1)`.
pub open spec fn clip_w(m: ProjectionMatrix, x: int, y: int) -> Rat {
    rat_add(
        rat_add(
            rat_add(rat_mul(m.entry(0, 3), rat_of_int(x)), rat_mul(m.entry(1, 3), rat_of_int(y))),
            rat_mul(m.entry(2, 3), rat_of_int(0)),
        ),
        m.entry(3, 3),
    )
}

/// Computes the projection matrix for a viewport of `width` by `height`
/// pixels.
pub fn compute(width: u32, height: u32) -> (m: ProjectionMatrix)
    requires
        1 <= width < FRAC_LIMIT as u32,
        1 <= height < FRAC_LIMIT as u32,
    ensures
        m.wf(),
        m.is_projection_for(width as int, height as int),
{
    let w: i64 = width as i64;
    let h: i64 = height as i64;
    let entries: Vec<Frac> = vec![
        Frac::new(2, w),
        Frac::new(0, 1),
        Frac::new(0, 1),
        Frac::new(0, 1),
        Frac::new(0, 1),
        Frac::new(-2, h),
        Frac::new(0, 1),
        Frac::new(0, 1),
        Frac::new(0, 1),
        Frac::new(0, 1),
        Frac::new(-1, 2),
        Frac::new(0, 1),
        Frac::new(-1, 1),
        Frac::new(1, 1),
        Frac::new(1, 2),
        Frac::new(1, 1),
    ];
    let m = ProjectionMatrix { entries };
    proof {
        assert forall|col: int, row: int| 0 <= col < 4 && 0 <= row < 4 implies #[trigger] m.entry(
            col,
            row,
        ) == ortho_entry(width as int, height as int, col, row) by {
            assert(0 <= col * 4 + row < 16);
        }
    }
    m
}

/// Evaluates the four clip coordinates of a pixel-space point under the
/// orthographic matrix: `x` maps to `(2x - w)/w`, `y` to `(h - 2y)/h`,
/// depth to `1/2`, and the homogeneous coordinate to `1`.
pub proof fn lemma_clip_eval(m: ProjectionMatrix, w: int, h: int, x: int, y: int) by (nonlinear_arith)
    requires
        w >= 1,
        h >= 1,
        m.entry(0, 0) == (Rat { num: 2, den: w }),
        m.entry(1, 0) == (Rat { num: 0, den: 1 }),
        m.entry(2, 0) == (Rat { num: 0, den: 1 }),
        m.entry(3, 0) == (Rat { num: -1, den: 1 }),
        m.entry(0, 1) == (Rat { num: 0, den: 1 }),
        m.entry(1, 1) == (Rat { num: -2, den: h }),
        m.entry(2, 1) == (Rat { num: 0, den: 1 }),
        m.entry(3, 1) == (Rat { num: 1, den: 1 }),
        m.entry(0, 2) == (Rat { num: 0, den: 1 }),
        m.entry(1, 2) == (Rat { num: 0, den: 1 }),
        m.entry(2, 2) == (Rat { num: -1, den: 2 }),
        m.entry(3, 2) == (Rat { num: 1, den: 2 }),
        m.entry(0, 3) == (Rat { num: 0, den: 1 }),
        m.entry(1, 3) == (Rat { num: 0, den: 1 }),
        m.entry(2, 3) == (Rat { num: 0, den: 1 }),
        m.entry(3, 3) == (Rat { num: 1, den: 1 }),
    ensures
        rat_eq(clip_x(m, x, y), (Rat { num: 2 * x - w, den: w })),
        rat_eq(clip_y(m, x, y), (Rat { num: h - 2 * y, den: h })),
        rat_eq(clip_z(m, x, y), (Rat { num: 1, den: 2 })),
        rat_eq(clip_w(m, x, y), rat_of_int(1)),
        rat_wf(clip_x(m, x, y)),
        rat_wf(clip_y(m, x, y)),
        rat_wf(clip_z(m, x, y)),
        rat_wf(clip_w(m, x, y)),
{
}

/// The projection maps the viewport's corner pixels onto the corners of
/// the clip square, with y inverted: pixel `(0,0)` lands on clip
/// `(-1, 1)` (top left) and pixel `(w,h)` on clip `(1, -1)` (bottom
/// right). Depth stays at the midpoint `1/2` of the `0..1` range and
/// the homogeneous coordinate at `1`, so no perspective division
/// disturbs the mapping.
pub proof fn lemma_projection_corners(m: ProjectionMatrix, w: int, h: int)
    requires
        m.wf(),
        w >= 1,
        h >= 1,
        m.is_projection_for(w, h),
    ensures
        rat_eq(clip_x(m, 0, 0), rat_of_int(-1)),
        rat_eq(clip_y(m, 0, 0), rat_of_int(1)),
        rat_eq(clip_x(m, w, h), rat_of_int(1)),
        rat_eq(clip_y(m, w, h), rat_of_int(-1)),
        rat_eq(clip_z(m, 0, 0), (Rat { num: 1, den: 2 })),
        rat_eq(clip_z(m, w, h), (Rat { num: 1, den: 2 })),
        rat_eq(clip_w(m, 0, 0), rat_of_int(1)),
        rat_eq(clip_w(m, w, h), rat_of_int(1)),
        rat_wf(clip_x(m, 0, 0)),
        rat_wf(clip_y(m, 0, 0)),
        rat_wf(clip_x(m, w, h)),
        rat_wf(clip_y(m, w, h)),
{
    assert forall|col: int, row: int| 0 <= col < 4 && 0 <= row < 4 implies #[trigger] m.entry(
        col,
        row,
    ) == ortho_entry(w, h, col, row) by {}
    lemma_clip_eval(m, w, h, 0, 0);
    lemma_clip_eval(m, w, h, w, h);
    lemma_rat_eq_trans(clip_x(m, 0, 0), Rat { num: -w, den: w }, rat_of_int(-1));
    lemma_rat_eq_trans(clip_y(m, 0, 0), Rat { num: h, den: h }, rat_of_int(1));
    assert(rat_eq(Rat { num: w, den: w }, rat_of_int(1))) by (nonlinear_arith);
    lemma_rat_eq_trans(clip_x(m, w, h), Rat { num: w, den: w }, rat_of_int(1));
    lemma_rat_eq_trans(clip_y(m, w, h), Rat { num: -h, den: h }, rat_of_int(-1));
}

/// Pixel y runs downward: of two pixels in the same column, the one
/// lower on screen (the larger y) maps to the strictly smaller
/// clip-space y.
pub proof fn lemma_y_axis_points_down(m: ProjectionMatrix, w: int, h: int, x: int, y1: int, y2: int)
    requires
        m.wf(),
        w >= 1,
        h >= 1,
        m.is_projection_for(w, h),
        y1 < y2,
    ensures
        rat_lt(clip_y(m, x, y2), clip_y(m, x, y1)),
{
    assert forall|col: int, row: int| 0 <= col < 4 && 0 <= row < 4 implies #[trigger] m.entry(
        col,
        row,
    ) == ortho_entry(w, h, col, row) by {}
    lemma_clip_eval(m, w, h, x, y1);
    lemma_clip_eval(m, w, h, x, y2);
    assert(rat_lt(Rat { num: h - 2 * y2, den: h }, Rat { num: h - 2 * y1, den: h }))
        by (nonlinear_arith)
        requires
            h >= 1,
            y1 < y2,
    ;
    lemma_rat_lt_congruence(
        clip_y(m, x, y2),
        clip_y(m, x, y1),
        Rat { num: h - 2 * y2, den: h },
        Rat { num: h - 2 * y1, den: h },
    );
}

} // verus!
