//! The per-frame synchronisation: the maximum scroll of the area, then the
//! thumb's length, then the thumb's position, in that order.

use vstd::prelude::*;
use crate::fixed::fits_i64;
use crate::geometry::{Length, ScrollbarError};
use crate::max_scroll::{max_scroll, max_scroll_of};
use crate::scrollbar::{Scrollbar, ThumbWidget};
use crate::thumb::{
    fraction_to_percent, lemma_position_in_range, percent_of, position_of, thumb_fraction,
    thumb_fraction_of, thumb_position, travel, travel_of,
};

verus! {

/// What one synchronisation makes of a widget: the outcome, and the widget as
/// it is left.
///
/// The steps run in order and each failure leaves what the steps before it
/// wrote: a missing area or a maximum scroll out of range changes nothing; a
/// missing track or a size attribute that is no percentage leaves the new
/// maximum scroll; a position attribute that is no pixel value, or a position
/// out of range, leaves the new maximum scroll and the new size.
pub open spec fn synchronized(w: ThumbWidget) -> (Result<(), ScrollbarError>, ThumbWidget) {
    let direction = w.scrollbar.direction;
    match w.area {
        None => (Err(ScrollbarError::MissingBinding), w),
        Some(area) => {
            let max = max_scroll_of(area.children@, area.computed, direction);
            let measured = ThumbWidget {
                scrollbar: Scrollbar { max_scroll: max as i64, ..w.scrollbar },
                ..w
            };
            let fraction = thumb_fraction_of(
                max,
                area.computed.length(direction) as int,
                area.computed.inverse_scale as int,
            );
            let sized = ThumbWidget {
                style: w.style.with_size(direction, Length::Percent(percent_of(fraction) as i64)),
                ..measured
            };
            if !fits_i64(max) {
                (Err(ScrollbarError::OutOfRange), w)
            } else if w.track is None {
                (Err(ScrollbarError::MissingBinding), measured)
            } else if !(w.style.size(direction) is Percent) {
                (Err(ScrollbarError::UnitMismatch), measured)
            } else if !(w.style.position(direction) is Px) {
                (Err(ScrollbarError::UnitMismatch), sized)
            } else {
                let position = position_of(
                    area.offset.along(direction) as int,
                    max,
                    travel_of(w.track.unwrap(), w.computed, direction),
                );
                if !fits_i64(position) {
                    (Err(ScrollbarError::OutOfRange), sized)
                } else {
                    (
                        Ok(()),
                        ThumbWidget {
                            style: sized.style.with_position(
                                direction,
                                Length::Px(position as i64),
                            ),
                            ..sized
                        },
                    )
                }
            }
        },
    }
}

/// After a successful synchronisation the thumb lies within its track where
/// the scroll offset lies within the scroll range: for an offset between zero
/// and the maximum scroll and a travel that is not negative, the position
/// written is between zero and the travel.
pub proof fn lemma_synchronized_position_in_range(w: ThumbWidget)
    requires
        synchronized(w).0 is Ok,
        0 <= w.area.unwrap().offset.along(w.scrollbar.direction) <= synchronized(
            w,
        ).1.scrollbar.max_scroll,
        0 <= travel_of(w.track.unwrap(), w.computed, w.scrollbar.direction),
    ensures
        synchronized(w).1.style.position(w.scrollbar.direction) matches Length::Px(p) && 0 <= p
            <= travel_of(w.track.unwrap(), w.computed, w.scrollbar.direction),
{
    let direction = w.scrollbar.direction;
    let area = w.area.unwrap();
    lemma_position_in_range(
        area.offset.along(direction) as int,
        max_scroll_of(area.children@, area.computed, direction),
        travel_of(w.track.unwrap(), w.computed, direction),
    );
}

/// Synchronises one widget with its scroll area.
///
/// Stores the area's maximum scroll in the widget state, writes the thumb's
/// length as a percentage to its size attribute and the thumb's position in
/// pixels to its position attribute.
pub fn synchronize(widget: &mut ThumbWidget) -> (r: Result<(), ScrollbarError>)
    requires
        old(widget).wf(),
    ensures
        (r, *final(widget)) == synchronized(*old(widget)),
        final(widget).wf(),
{
    let direction = widget.scrollbar.direction;
    let (max, visible, inverse_scale, offset): (i64, i64, i64, i64) = match &widget.area {
        None => {
            return Err(ScrollbarError::MissingBinding);
        },
        Some(area) => match max_scroll(&area.children, &area.computed, direction) {
            Err(e) => {
                return Err(e);
            },
            Ok(max) => (
                max,
                area.computed.length(direction),
                area.computed.inverse_scale,
                area.offset.along(direction),
            ),
        },
    };
    widget.scrollbar.max_scroll = max;
    let track = match widget.track {
        None => {
            return Err(ScrollbarError::MissingBinding);
        },
        Some(track) => track,
    };
    match widget.style.size(direction) {
        Length::Percent(_) => {},
        _ => {
            return Err(ScrollbarError::UnitMismatch);
        },
    }
    let fraction: i64 = thumb_fraction(max, visible, inverse_scale);
    widget.style.set_size(direction, Length::Percent(fraction_to_percent(fraction)));
    match widget.style.position(direction) {
        Length::Px(_) => {},
        _ => {
            return Err(ScrollbarError::UnitMismatch);
        },
    }
    let range: i64 = travel(&track, &widget.computed, direction);
    match thumb_position(offset, max, range) {
        Err(e) => Err(e),
        Ok(position) => {
            widget.style.set_position(direction, Length::Px(position));
            Ok(())
        },
    }
}

/// Synchronises every widget of a frame, each on its own: a widget whose
/// update fails is left as its failure left it and the others are updated all
/// the same. The outcomes come back in the order of the widgets.
pub fn update_scrollbars(widgets: &mut Vec<ThumbWidget>) -> (outcomes: Vec<
    Result<(), ScrollbarError>,
>)
    requires
        forall|i: int| 0 <= i < old(widgets).len() ==> (#[trigger] old(widgets)[i]).wf(),
    ensures
        outcomes.len() == old(widgets).len(),
        final(widgets).len() == old(widgets).len(),
        forall|i: int|
            0 <= i < old(widgets).len() ==> (outcomes[i], final(widgets)[i]) == synchronized(
                #[trigger] old(widgets)[i],
            ),
{
    let mut outcomes: Vec<Result<(), ScrollbarError>> = Vec::new();
    let mut i: usize = 0;
    while i < widgets.len()
        invariant
            i <= widgets.len(),
            widgets.len() == old(widgets).len(),
            outcomes.len() == i,
            forall|j: int| i <= j < widgets.len() ==> widgets[j] == old(widgets)[j],
            forall|j: int| 0 <= j < old(widgets).len() ==> (#[trigger] old(widgets)[j]).wf(),
            forall|j: int|
                0 <= j < i ==> (outcomes[j], widgets[j]) == synchronized(
                    #[trigger] old(widgets)[j],
                ),
        decreases widgets.len() - i,
    {
        let outcome = synchronize(&mut widgets[i]);
        outcomes.push(outcome);
        i = i + 1;
    }
    outcomes
}

} // verus!
