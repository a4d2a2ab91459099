//! The drag handler: a drag of the thumb moves the thumb along its track and
//! sets the scroll offset that belongs to the new position.

use vstd::prelude::*;
use crate::fixed::{fits_i64, in_coord_range, lemma_floor_div_unique, ONE};
use crate::geometry::{coord_ok, Length, ScrollbarDirection, ScrollbarError};
use crate::scrollbar::{ScrollArea, ThumbWidget};
use crate::thumb::{
    clamp_position, clamped, free_length, free_length_of, offset_of, scroll_offset, track_delta,
    track_delta_of, travel, travel_of,
};

verus! {

/// One step of a drag gesture: the distance that the pointer moved on screen
/// since the step before.
#[derive(Clone, Copy, Debug, PartialEq, Eq, Structural)]
pub struct DragEvent {
    pub delta_x: i64,
    pub delta_y: i64,
    /// Whether the modifier is held that lets the pointer's other axis drive
    /// the thumb.
    pub swap_axes: bool,
}

impl DragEvent {
    /// Both distances are within the supported range.
    pub open spec fn wf(&self) -> bool {
        in_coord_range(self.delta_x as int) && in_coord_range(self.delta_y as int)
    }

    /// The distance that drives a thumb scrolling along `direction`: the
    /// distance along that axis, or along the other one where the axes are
    /// swapped.
    pub open spec fn spec_along(&self, direction: ScrollbarDirection) -> i64 {
        match direction {
            ScrollbarDirection::Horizontal => if self.swap_axes {
                self.delta_y
            } else {
                self.delta_x
            },
            ScrollbarDirection::Vertical => if self.swap_axes {
                self.delta_x
            } else {
                self.delta_y
            },
        }
    }

    /// Tests `wf`.
    pub fn is_wf(&self) -> (r: bool)
        ensures
            r == self.wf(),
    {
        coord_ok(self.delta_x) && coord_ok(self.delta_y)
    }

    /// The distance that drives a thumb scrolling along `direction`.
    #[verifier::when_used_as_spec(spec_along)]
    pub fn along(&self, direction: ScrollbarDirection) -> (r: i64)
        ensures
            r == self.spec_along(direction),
    {
        let horizontal = match direction {
            ScrollbarDirection::Horizontal => true,
            ScrollbarDirection::Vertical => false,
        };
        if horizontal != self.swap_axes {
            self.delta_x
        } else {
            self.delta_y
        }
    }
}

/// The physical size of the window.
#[derive(Clone, Copy, Debug, PartialEq, Eq, Structural)]
pub struct WindowSize {
    pub width: i64,
    pub height: i64,
}

impl WindowSize {
    /// The size of the window along `direction`.
    pub open spec fn spec_along(&self, direction: ScrollbarDirection) -> i64 {
        match direction {
            ScrollbarDirection::Horizontal => self.width,
            ScrollbarDirection::Vertical => self.height,
        }
    }

    /// The size of the window along `direction`.
    #[verifier::when_used_as_spec(spec_along)]
    pub fn along(&self, direction: ScrollbarDirection) -> (r: i64)
        ensures
            r == self.spec_along(direction),
    {
        match direction {
            ScrollbarDirection::Horizontal => self.width,
            ScrollbarDirection::Vertical => self.height,
        }
    }
}

/// What a drag makes of a widget: the outcome, and the widget as it is left.
///
/// A failure leaves the widget unchanged. The bindings are looked at first,
/// then the unit of the position attribute, then the geometry. On success the
/// thumb has moved by the drag distance in the track's pixels, as far as the
/// range from zero to the travel lets it, and the scroll offset along the axis
/// is the one that belongs to that position.
pub open spec fn dragged(w: ThumbWidget, event: DragEvent, window: WindowSize) -> (
    Result<(), ScrollbarError>,
    ThumbWidget,
) {
    let direction = w.scrollbar.direction;
    if w.track is None || w.area is None {
        (Err(ScrollbarError::MissingBinding), w)
    } else if !(w.style.position(direction) is Px) {
        (Err(ScrollbarError::UnitMismatch), w)
    } else if window.along(direction) == 0 {
        (Err(ScrollbarError::DegenerateGeometry), w)
    } else {
        let track = w.track.unwrap();
        let area = w.area.unwrap();
        let start = w.style.position(direction)->Px_0;
        let delta = track_delta_of(
            event.along(direction) as int,
            track.inverse_scale as int,
            track.length(direction) as int,
            window.along(direction) as int,
        );
        let range = travel_of(track, w.computed, direction);
        let free = free_length_of(track, w.computed, direction);
        let position = clamped(start + delta, range);
        let offset = offset_of(position, w.scrollbar.max_scroll as int, free);
        if !fits_i64(delta) {
            (Err(ScrollbarError::OutOfRange), w)
        } else if range < 0 || free == 0 {
            (Err(ScrollbarError::DegenerateGeometry), w)
        } else if !fits_i64(offset) {
            (Err(ScrollbarError::OutOfRange), w)
        } else {
            (
                Ok(()),
                ThumbWidget {
                    style: w.style.with_position(direction, Length::Px(position as i64)),
                    area: Some(
                        ScrollArea {
                            offset: area.offset.with_along(direction, offset as i64),
                            ..area
                        },
                    ),
                    ..w
                },
            )
        }
    }
}

/// A drag over no distance leaves a thumb that lies within its track where it
/// is: for a position between zero and the travel, a successful drag whose
/// distance along the axis is zero writes that same position.
pub proof fn lemma_dragged_by_nothing(w: ThumbWidget, event: DragEvent, window: WindowSize)
    requires
        dragged(w, event, window).0 is Ok,
        event.along(w.scrollbar.direction) == 0,
        w.style.position(w.scrollbar.direction) matches Length::Px(p) && 0 <= p <= travel_of(
            w.track.unwrap(),
            w.computed,
            w.scrollbar.direction,
        ),
    ensures
        dragged(w, event, window).1.style == w.style,
{
    let direction = w.scrollbar.direction;
    let track = w.track.unwrap();
    let divisor = ONE * window.along(direction);
    assert(divisor != 0) by (nonlinear_arith)
        requires
            divisor == ONE * window.along(direction),
            window.along(direction) != 0,
            ONE == 1_000_000,
    ;
    assert(0 * track.inverse_scale * track.length(direction) == 0) by (nonlinear_arith);
    lemma_floor_div_unique(0, divisor, 0);
}

/// Handles one drag event that targets the thumb of `widget`.
///
/// On success the thumb's new position lies between zero and the travel.
pub fn drag_scrollbar(
    widget: &mut ThumbWidget,
    event: &DragEvent,
    window: &WindowSize,
) -> (r: Result<(), ScrollbarError>)
    requires
        old(widget).wf(),
        event.wf(),
    ensures
        (r, *final(widget)) == dragged(*old(widget), *event, *window),
        final(widget).wf(),
        r.is_ok() ==> ({
            let direction = old(widget).scrollbar.direction;
            final(widget).style.position(direction) matches Length::Px(p) && 0 <= p <= travel_of(
                old(widget).track.unwrap(),
                old(widget).computed,
                direction,
            )
        }),
{
    let direction = widget.scrollbar.direction;
    let track = match widget.track {
        None => {
            return Err(ScrollbarError::MissingBinding);
        },
        Some(track) => track,
    };
    if widget.area.is_none() {
        return Err(ScrollbarError::MissingBinding);
    }
    let start: i64 = match widget.style.position(direction) {
        Length::Px(start) => start,
        _ => {
            return Err(ScrollbarError::UnitMismatch);
        },
    };
    let on_screen: i64 = event.along(direction);
    let delta: i64 = match track_delta(on_screen, &track, direction, window.along(direction)) {
        Err(e) => {
            return Err(e);
        },
        Ok(delta) => delta,
    };
    let range: i64 = travel(&track, &widget.computed, direction);
    let free: i64 = free_length(&track, &widget.computed, direction);
    if range < 0 || free == 0 {
        return Err(ScrollbarError::DegenerateGeometry);
    }
    let position: i64 = clamp_sum(start, delta, range);
    let offset: i64 = match scroll_offset(position, widget.scrollbar.max_scroll, free) {
        Err(e) => {
            return Err(e);
        },
        Ok(offset) => offset,
    };
    widget.style.set_position(direction, Length::Px(position));
    match &mut widget.area {
        Some(area) => {
            area.offset.set_along(direction, offset);
        },
        None => {},
    }
    Ok(())
}

/// Moves the sum of a position and a distance into the range from zero to
/// `travel`.
fn clamp_sum(position: i64, delta: i64, travel: i64) -> (r: i64)
    requires
        0 <= travel,
    ensures
        r == clamped(position + delta, travel as int),
{
    let sum: i128 = position as i128 + delta as i128;
    if sum < 0 {
        0
    } else if sum > travel as i128 {
        travel
    } else {
        clamp_position(sum as i64, travel)
    }
}

} // verus!
