//! The defaults of optional fields that are a constant of the format.

use vstd::prelude::*;
use crate::geometry::Point;
use crate::single::{Single, HALF_BITS, MINUS_ONE_BITS, ONE_BITS, ZERO_BITS};
use crate::skeleton::BlendMode;
use crate::skin::{BoundBoxType, BoundBoxTypeView};

verus! {

/// The frame rate of an armature that gives none: -1, which stands for "the document's".
pub fn default_armature_frame_rate() -> (r: Single)
    ensures
        r.bits == MINUS_ONE_BITS,
{
    Single { bits: MINUS_ONE_BITS }
}

/// The blend mode of a slot that gives none: `normal`.
pub fn default_slot_blend_mode() -> (r: BlendMode)
    ensures
        r@ == BlendMode::initial(),
{
    BlendMode::default()
}

/// The shape of a bounding box that gives none: a rectangle.
pub fn default_display_sub_type() -> (r: BoundBoxType)
    ensures
        r@ == BoundBoxTypeView::Rectangle,
{
    BoundBoxType::Rectangle
}

/// Whether a constraint that does not say bends clockwise: it does.
pub fn default_ik_bend_positive() -> (r: bool)
    ensures
        r,
{
    true
}

/// How many parent bones a constraint that does not say reaches: none.
pub fn default_ik_chain() -> (r: usize)
    ensures
        r == 0,
{
    0
}

/// The weight of a constraint that gives none: 0.
pub fn default_ik_weight() -> (r: Single)
    ensures
        r.bits == ZERO_BITS,
{
    Single { bits: ZERO_BITS }
}

/// How often an animation that does not say plays: once.
pub fn default_animation_loop() -> (r: usize)
    ensures
        r == 1,
{
    1
}

/// How long an animation or a key frame that does not say lasts: one frame.
pub fn default_animation_duration() -> (r: Single)
    ensures
        r.bits == ONE_BITS,
{
    Single { bits: ONE_BITS }
}

/// The scale of a bone timeline that gives none: 1.
pub fn default_scale() -> (r: Single)
    ensures
        r.bits == ONE_BITS,
{
    Single { bits: ONE_BITS }
}

/// Which display object a slot that does not say shows at first: the one at 0.
pub fn default_slot_display_index() -> (r: isize)
    ensures
        r == 0,
{
    0
}

/// The pivot of a display object that gives none: its centre, (0.5, 0.5).
pub fn default_display_pivot() -> (r: Point)
    ensures
        r.x.bits == HALF_BITS,
        r.y.bits == HALF_BITS,
{
    Point { x: Single { bits: HALF_BITS }, y: Single { bits: HALF_BITS } }
}

/// Whether a shared mesh that does not say takes over the free-form deformation: it does.
pub fn default_display_inherit_fdd() -> (r: bool)
    ensures
        r,
{
    true
}

} // verus!
