//! Tracker for the horizontal confirmation stroke.
//!
//! One pointer drag is fed point by point; the drag counts as a horizontal
//! stroke when it moved far enough sideways while staying nearly level.

use vstd::prelude::*;

verus! {

/// Least horizontal distance (exclusive) a confirming stroke must cover.
pub const STROKE_MIN_DX: i32 = 100;

/// Greatest vertical drift (exclusive) a confirming stroke may have.
pub const STROKE_MAX_DY: i32 = 50;

/// Abstract state of a [`HorizontalLineTracker`].
pub struct StrokeView {
    /// First point of the drag, if any point arrived since the last reset.
    pub start: Option<(int, int)>,
    /// Most recent point of the drag.
    pub end: Option<(int, int)>,
    /// Whether the drag from `start` to `end` counts as horizontal.
    pub horizontal: bool,
}

/// Whether a drag from `(sx, sy)` to `(ex, ey)` is a valid horizontal stroke:
/// its horizontal span exceeds [`STROKE_MIN_DX`] and its vertical drift stays
/// under [`STROKE_MAX_DY`].
pub open spec fn spec_stroke_valid(sx: int, sy: int, ex: int, ey: int) -> bool {
    &&& (if ex >= sx { ex - sx } else { sx - ex }) > STROKE_MIN_DX
    &&& (if ey >= sy { ey - sy } else { sy - ey }) < STROKE_MAX_DY
}

/// Accumulates one pointer drag and judges whether it was predominantly
/// horizontal.
pub struct HorizontalLineTracker {
    start_x: Option<i32>,
    start_y: Option<i32>,
    end_x: Option<i32>,
    end_y: Option<i32>,
    is_horizontal: bool,
}

impl View for HorizontalLineTracker {
    type V = StrokeView;

    closed spec fn view(&self) -> StrokeView {
        StrokeView {
            start: match (self.start_x, self.start_y) {
                (Some(x), Some(y)) => Some((x as int, y as int)),
                _ => None,
            },
            end: match (self.end_x, self.end_y) {
                (Some(x), Some(y)) => Some((x as int, y as int)),
                _ => None,
            },
            horizontal: self.is_horizontal,
        }
    }
}

/// The view of a tracker that has seen no point since its last reset.
pub open spec fn spec_stroke_empty() -> StrokeView {
    StrokeView { start: None, end: None, horizontal: false }
}

impl HorizontalLineTracker {
    /// Creates a tracker holding no drag yet.
    pub fn new() -> (t: Self)
        ensures
            t@ == spec_stroke_empty(),
    {
        HorizontalLineTracker {
            start_x: None,
            start_y: None,
            end_x: None,
            end_y: None,
            is_horizontal: false,
        }
    }

    /// Forgets the current drag so a new one can be traced.
    pub fn reset(&mut self)
        ensures
            final(self)@ == spec_stroke_empty(),
    {
        *self = HorizontalLineTracker::new();
    }

    /// Feeds the next pointer position: the first point after a reset becomes
    /// the start, every point becomes the new end, and validity is recomputed
    /// from the start and the new end.
    pub fn update(&mut self, x: i32, y: i32)
        ensures
            final(self)@.start == match old(self)@.start {
                None => Some((x as int, y as int)),
                Some(p) => Some(p),
            },
            final(self)@.end == Some((x as int, y as int)),
            final(self)@.horizontal == {
                let (sx, sy) = final(self)@.start->Some_0;
                spec_stroke_valid(sx, sy, x as int, y as int)
            },
    {
        if self.start_x.is_none() || self.start_y.is_none() {
            self.start_x = Some(x);
            self.start_y = Some(y);
        }
        self.end_x = Some(x);
        self.end_y = Some(y);
        if let (Some(start_x), Some(start_y), Some(end_x), Some(end_y)) =
            (self.start_x, self.start_y, self.end_x, self.end_y) {
            let horizontal_distance: i64 = if end_x as i64 >= start_x as i64 {
                end_x as i64 - start_x as i64
            } else {
                start_x as i64 - end_x as i64
            };
            let vertical_distance: i64 = if end_y as i64 >= start_y as i64 {
                end_y as i64 - start_y as i64
            } else {
                start_y as i64 - end_y as i64
            };
            self.is_horizontal = horizontal_distance > STROKE_MIN_DX as i64
                && vertical_distance < STROKE_MAX_DY as i64;
        }
    }

    /// Whether the drag recorded so far is a valid horizontal stroke.
    pub fn is_valid_horizontal(&self) -> (valid: bool)
        ensures
            valid == self@.horizontal,
    {
        self.is_horizontal
    }
}

} // verus!
