//! Coordinate utilities.

use vstd::prelude::*;

use crate::fixed::FX_SCALE;
use crate::fixed::Fx;
use crate::fixed::fx;
use crate::fixed::fx_add;
use crate::fixed::fx_sub;
use crate::fixed::tdiv2;
use crate::vec2::Vec2;

verus! {

/// The unit direction vector at angle zero: (sin 0, cos 0) = (0, 1),
/// exactly representable. The impulses of the core all aim along this axis;
/// a general angle would need trigonometry with no exact fixed-point form.
pub fn unit_vector_up() -> (v: Vec2)
    ensures
        v == (Vec2 { x: fx(0), y: fx(FX_SCALE as int) }),
{
    Vec2 { x: Fx::zero(), y: Fx { raw: FX_SCALE } }
}

/// What `translate_coords` returns.
pub open spec fn spec_translate_coords(point: Vec2, screen_width: Fx, screen_height: Fx) -> Vec2 {
    Vec2 {
        x: fx(fx_add(point.x.raw as int, tdiv2(screen_width.raw as int))),
        y: fx(
            fx_sub(
                screen_height.raw as int,
                fx_add(point.y.raw as int, tdiv2(screen_height.raw as int)),
            ),
        ),
    }
}

/// Translates the world coordinate system, which has Y pointing up and the
/// origin at the center, to the screen coordinate system, which has Y
/// pointing downward and the origin at the top-left.
pub fn translate_coords(point: Vec2, screen_width: Fx, screen_height: Fx) -> (r: Vec2)
    ensures
        r == spec_translate_coords(point, screen_width, screen_height),
{
    let x = point.x.add(screen_width.half());
    let y = screen_height.sub(point.y.add(screen_height.half()));
    Vec2 { x, y }
}

} // verus!
