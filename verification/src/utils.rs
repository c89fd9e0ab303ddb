//! Small helpers shared by the vehicle and the track.

use vstd::prelude::*;
use crate::fixed::Fixed;
use crate::vector::Vector2;

verus! {

/// The way a straight piece of track runs.
#[derive(Clone, Copy, Debug, PartialEq, Eq, Structural)]
pub enum FacingDirection {
    North,
    West,
}

/// Whether `p` lies between `a` and `b`, whichever of the two is smaller,
/// both included.
pub open spec fn between(a: Fixed, b: Fixed, p: Fixed) -> bool {
    (a@ <= p@ <= b@) || (b@ <= p@ <= a@)
}

/// Whether `point` lies in the upright rectangle spanned by `start` and
/// `end`.
pub open spec fn in_span(start: Vector2, end: Vector2, point: Vector2) -> bool {
    between(start.x, end.x, point.x) && between(start.y, end.y, point.y)
}

/// What `limit` returns.
pub open spec fn spec_limit(value: Fixed, from: Fixed, to: Fixed) -> Fixed {
    value.min(to).max(from)
}

/// Brings `value` down to `to` if it is above, then up to `from` if it is
/// below.
#[verifier::when_used_as_spec(spec_limit)]
pub fn limit(value: Fixed, from: Fixed, to: Fixed) -> (r: Fixed)
    ensures
        r == spec_limit(value, from, to),
        from@ <= to@ ==> from@ <= r@ <= to@,
        from@ <= value@ <= to@ ==> r == value,
{
    value.min(to).max(from)
}

/// Whether `point` lies within the bounds of the segment from `start` to
/// `end` on both axes. For a point on the line through the segment this
/// says that the point is on the segment.
pub fn line_contains_point(start: &Vector2, end: &Vector2, point: &Vector2) -> (r: bool)
    ensures
        r == in_span(*start, *end, *point),
{
    // The segment may run in either direction on each axis.
    if start.x.le(end.x) {
        if !(point.x.ge(start.x) && point.x.le(end.x)) {
            return false;
        }
    } else if start.x.gt(end.x) {
        if !(point.x.ge(end.x) && point.x.le(start.x)) {
            return false;
        }
    }
    if start.y.le(end.y) {
        if !(point.y.ge(start.y) && point.y.le(end.y)) {
            return false;
        }
    } else if start.y.gt(end.y) {
        if !(point.y.ge(end.y) && point.y.le(start.y)) {
            return false;
        }
    }
    true
}

} // verus!
