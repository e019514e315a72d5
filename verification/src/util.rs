use vstd::prelude::*;

use crate::fixed::in_range;
use crate::gamestate::Vec2;

verus! {

/// The offset that centers an element of the given extent inside a
/// container, on one axis: half the leftover space, with the magnitude
/// rounded down when the leftover is odd (negative when the element is
/// larger than the container).
pub open spec fn centered(container: int, element: int) -> int {
    if container >= element {
        (container - element) / 2
    } else {
        -((element - container) / 2)
    }
}

/// The x that horizontally centers `element_size` in `container_size`.
/// (The name is kept from a long-standing pair of helpers that are
/// applied to the x and y axis respectively.)
pub fn vertically_centered_position(container_size: Vec2, element_size: Vec2) -> (r: i64)
    requires
        in_range(container_size.x as int),
        in_range(element_size.x as int),
    ensures
        r as int == centered(container_size.x as int, element_size.x as int),
{
    half_difference(container_size.x, element_size.x)
}

/// The y that vertically centers `element_size` in `container_size`.
pub fn horizontally_centered_position(container_size: Vec2, element_size: Vec2) -> (r: i64)
    requires
        in_range(container_size.y as int),
        in_range(element_size.y as int),
    ensures
        r as int == centered(container_size.y as int, element_size.y as int),
{
    half_difference(container_size.y, element_size.y)
}

/// Half of `container - element`, magnitude rounded down.
fn half_difference(container: i64, element: i64) -> (r: i64)
    requires
        in_range(container as int),
        in_range(element as int),
    ensures
        r as int == centered(container as int, element as int),
{
    if container >= element {
        let d = container - element;
        ((d as u64) / 2) as i64
    } else {
        let d = element - container;
        -(((d as u64) / 2) as i64)
    }
}

} // verus!
