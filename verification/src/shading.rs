//! A model of the two shader stages.
//!
//! The vertex stage needs no vertex buffer: each rectangle's six
//! vertices (two triangles) are synthesized from the vertex index
//! alone, through a fixed six-entry lookup of unit-square corners. The
//! fragment stage samples the record's texture when a reference is
//! present and multiplies it with the record's color; without a
//! reference it emits the flat color and samples nothing. Colors are
//! modeled as exact fractions.

use vstd::prelude::*;

use crate::rat::{rat_eq, rat_mul, rat_of_int, Frac, Rat};

verus! {

/// Vertices per rectangle: two triangles of three.
pub const VERTICES_PER_RECTANGLE: u32 = 6;

/// The unit-square corner assigned to vertex `i` of a rectangle: the
/// first triangle covers the top-left half, the second the bottom-right
/// half, and together they tile the square.
pub open spec fn corner_spec(i: int) -> (int, int) {
    if i == 0 {
        (0, 0)
    } else if i == 1 {
        (0, 1)
    } else if i == 2 {
        (1, 0)
    } else if i == 3 {
        (1, 0)
    } else if i == 4 {
        (0, 1)
    } else {
        (1, 1)
    }
}

/// The corner offset for a running vertex index, taken modulo six as
/// the vertex stage does.
pub fn corner_offset(vertex_index: u32) -> (r: (u32, u32))
    ensures
        (r.0 as int, r.1 as int) == corner_spec(vertex_index as int % 6),
        r.0 <= 1,
        r.1 <= 1,
{
    match vertex_index % 6 {
        0 => (0, 0),
        1 => (0, 1),
        2 => (1, 0),
        3 => (1, 0),
        4 => (0, 1),
        _ => (1, 1),
    }
}

/// The six corner entries cover every corner of the unit square, so
/// the two triangles together span the whole rectangle.
pub proof fn lemma_corners_cover_unit_square(cx: int, cy: int)
    requires
        0 <= cx <= 1,
        0 <= cy <= 1,
    ensures
        exists|i: int| 0 <= i < 6 && corner_spec(i) == (cx, cy),
{
    if cx == 0 && cy == 0 {
        assert(corner_spec(0) == (cx, cy));
    } else if cx == 0 && cy == 1 {
        assert(corner_spec(1) == (cx, cy));
    } else if cx == 1 && cy == 0 {
        assert(corner_spec(2) == (cx, cy));
    } else {
        assert(corner_spec(5) == (cx, cy));
    }
}

/// An exact color: red, green and blue as fractions.
#[derive(Clone, Copy, Debug, PartialEq, Eq, Structural)]
pub struct ColorRgb {
    pub r: Frac,
    pub g: Frac,
    pub b: Frac,
}

impl ColorRgb {
    /// Each component is a well-formed bounded fraction.
    pub open spec fn wf(self) -> bool {
        self.r.wf() && self.g.wf() && self.b.wf()
    }
}

/// Where a fragment's color comes from.
#[derive(Clone, Copy, Debug, PartialEq, Eq, Structural)]
pub enum FragmentSource {
    /// The fragment samples the texture in this binding slot.
    Sampled(u32),
    /// The fragment emits the flat color; no texture is sampled.
    Flat,
}

/// A record with a texture reference samples that texture; one without
/// samples nothing.
pub fn fragment_source(texture: Option<u32>) -> (r: FragmentSource)
    ensures
        texture matches Some(handle) ==> r == FragmentSource::Sampled(handle),
        texture is None ==> r == FragmentSource::Flat,
{
    match texture {
        Option::Some(handle) => FragmentSource::Sampled(handle),
        Option::None => FragmentSource::Flat,
    }
}

/// The fragment stage's output: the sampled texture color multiplied
/// componentwise with the record's flat color when a texture is
/// present, the flat color alone otherwise.
pub fn shade(sample: Option<&ColorRgb>, flat: &ColorRgb) -> (out: ColorRgb)
    requires
        flat.wf(),
        sample matches Some(s) ==> s.wf(),
    ensures
        sample matches Some(s) ==> {
            &&& out.r@ == rat_mul(s.r@, flat.r@)
            &&& out.g@ == rat_mul(s.g@, flat.g@)
            &&& out.b@ == rat_mul(s.b@, flat.b@)
        },
        sample is None ==> out == *flat,
{
    match sample {
        Option::Some(s) => ColorRgb { r: s.r.mul(flat.r), g: s.g.mul(flat.g), b: s.b.mul(flat.b) },
        Option::None => *flat,
    }
}

/// Texture-over-color precedence: multiplying a sampled component with
/// a flat component of one leaves the sample unchanged, so a textured
/// rectangle whose flat color is white shows exactly the texture.
pub proof fn lemma_white_flat_passes_sample(s: Rat)
    ensures
        rat_eq(rat_mul(s, rat_of_int(1)), s),
{
}

} // verus!
