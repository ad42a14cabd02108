//! Helpers of the visualizers.

use crate::show::layout::{centred_percent, is_percent_part, middle_part, Direction, Rect};
use vstd::prelude::*;

verus! {

/// Whether `popup` is the rectangle in the middle of `r` that takes
/// `percent_width` hundredths of its width and `percent_height` hundredths of
/// its height, each to the cell that rounding allows.
pub open spec fn is_centered_in(r: Rect, popup: Rect, percent_width: int, percent_height: int) -> bool {
    &&& r.encloses(popup)
    &&& is_percent_part(r, Direction::Horizontal, popup, percent_width)
    &&& is_percent_part(r, Direction::Vertical, popup, percent_height)
}

/// The rectangle in the middle of `r` that takes `percent_width` hundredths
/// of its width and `percent_height` hundredths of its height: the middle
/// column of the middle row into which the percentages cut `r`.
pub fn centered_rect(r: Rect, percent_width: u16, percent_height: u16) -> (popup: Rect)
    requires
        percent_width <= 100,
        percent_height <= 100,
    ensures
        is_centered_in(r, popup, percent_width as int, percent_height as int),
{
    let row = middle_part(&r, Direction::Vertical, &centred_percent(percent_height));
    let popup = middle_part(&row, Direction::Horizontal, &centred_percent(percent_width));
    proof {
        assert(is_percent_part(r, Direction::Vertical, row, percent_height as int));
        assert(is_percent_part(row, Direction::Horizontal, popup, percent_width as int));
    }
    popup
}

} // verus!
