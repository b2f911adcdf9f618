//! The whole image request: validate the three inputs in order, decode the
//! color, and build the pixel buffer, or say exactly which input was refused.

use crate::buffer::{buffer_fits, build_buffer, solid_buffer};
use crate::color::{color_of, parse_color, valid_hex_color, Color};
use crate::dims::{dec_value, parse_dimension, valid_dimension};
use vstd::prelude::*;

verus! {

/// Why an image request was refused: one variant per offending input, and one
/// for a buffer whose byte count exceeds `usize::MAX`.
#[derive(Clone, Copy, Debug, PartialEq, Eq, Structural)]
pub enum PlanError {
    BadWidth,
    BadHeight,
    BadColor,
    TooLarge,
}

/// A validated image request, ready for an encoder: the dimensions in pixels
/// and the pixel buffer, `width * height` copies of one RGB triplet.
pub struct ImagePlan {
    pub width: u32,
    pub height: u32,
    pub color: Color,
    pub pixels: Vec<u8>,
}

/// An image plan is well formed when its buffer is the solid buffer of its
/// own dimensions and color.
pub open spec fn plan_well_formed(p: ImagePlan) -> bool {
    &&& p.width >= 1
    &&& p.height >= 1
    &&& p.pixels@ == solid_buffer(p.width as nat, p.height as nat, p.color)
}

/// An image request is accepted: both dimension strings and the color string
/// are well formed, and the buffer they ask for fits in memory.
pub open spec fn accepted(width_s: Seq<char>, height_s: Seq<char>, hex_s: Seq<char>) -> bool {
    &&& valid_dimension(width_s)
    &&& valid_dimension(height_s)
    &&& valid_hex_color(hex_s)
    &&& buffer_fits(dec_value(width_s), dec_value(height_s))
}

/// Validate an image request and build its pixel buffer.
///
/// The three inputs are checked in order — width, height, color — and the
/// first offender is reported; a request whose buffer would not be
/// addressable is refused last. An accepted request yields the plan that the
/// inputs denote, pixel buffer included.
pub fn build_image(width_s: &str, height_s: &str, hex_s: &str) -> (r: Result<ImagePlan, PlanError>)
    ensures
        r is Ok <==> accepted(width_s@, height_s@, hex_s@),
        r matches Ok(p) ==> {
            &&& p.width == dec_value(width_s@)
            &&& p.height == dec_value(height_s@)
            &&& p.color == color_of(hex_s@)
            &&& p.pixels@ == solid_buffer(dec_value(width_s@), dec_value(height_s@), color_of(hex_s@))
            &&& plan_well_formed(p)
        },
        r == Result::<ImagePlan, PlanError>::Err(PlanError::BadWidth) <==> !valid_dimension(
            width_s@,
        ),
        r == Result::<ImagePlan, PlanError>::Err(PlanError::BadHeight) <==> valid_dimension(
            width_s@,
        ) && !valid_dimension(height_s@),
        r == Result::<ImagePlan, PlanError>::Err(PlanError::BadColor) <==> valid_dimension(
            width_s@,
        ) && valid_dimension(height_s@) && !valid_hex_color(hex_s@),
        r == Result::<ImagePlan, PlanError>::Err(PlanError::TooLarge) <==> valid_dimension(
            width_s@,
        ) && valid_dimension(height_s@) && valid_hex_color(hex_s@) && !buffer_fits(
            dec_value(width_s@),
            dec_value(height_s@),
        ),
{
    let width = match parse_dimension(width_s) {
        Some(w) => w,
        None => {
            return Err(PlanError::BadWidth);
        },
    };
    let height = match parse_dimension(height_s) {
        Some(h) => h,
        None => {
            return Err(PlanError::BadHeight);
        },
    };
    let color = match parse_color(hex_s) {
        Some(c) => c,
        None => {
            return Err(PlanError::BadColor);
        },
    };
    let pixels = match build_buffer(width, height, color) {
        Some(b) => b,
        None => {
            return Err(PlanError::TooLarge);
        },
    };
    Ok(ImagePlan { width, height, color, pixels })
}

/// Determinism: two accepted requests built from equal input strings yield
/// plans with the same dimensions, the same color, and byte-identical pixel
/// buffers. With a deterministic encoder behind it, running the program twice
/// on the same arguments therefore writes identical files.
pub proof fn lemma_build_image_deterministic(
    p1: ImagePlan,
    p2: ImagePlan,
    width_s: Seq<char>,
    height_s: Seq<char>,
    hex_s: Seq<char>,
)
    requires
        p1.width == dec_value(width_s) && p1.height == dec_value(height_s) && p1.color == color_of(
            hex_s,
        ) && p1.pixels@ == solid_buffer(dec_value(width_s), dec_value(height_s), color_of(hex_s)),
        p2.width == dec_value(width_s) && p2.height == dec_value(height_s) && p2.color == color_of(
            hex_s,
        ) && p2.pixels@ == solid_buffer(dec_value(width_s), dec_value(height_s), color_of(hex_s)),
    ensures
        p1.width == p2.width,
        p1.height == p2.height,
        p1.color == p2.color,
        p1.pixels@ == p2.pixels@,
{
}

} // verus!
