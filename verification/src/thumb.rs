//! The geometry of the thumb: its length as a fraction of the track, its
//! position along the track for a scroll offset, and the way back from a
//! position to an offset.

use vstd::prelude::*;
use crate::fixed::{
    floor_div, floor_div_wide, in_coord_range, lemma_floor_div_bounds, lemma_floor_div_unique,
    mul_div, scale, scaled, COORD_MAX, ONE, SCALE_MAX, WIDE_MAX,
};
use crate::geometry::{check, checked, ComputedBox, ScrollbarDirection, ScrollbarError};

verus! {

/// The shortest thumb, as a fraction of the track: `0.05`.
pub const MIN_FRACTION: i64 = 50_000;

/// The length of the thumb as a fraction of the track.
///
/// It is the visible length over the whole content length, scale-corrected,
/// and kept between `MIN_FRACTION` and `ONE`. Where the content length
/// `max_scroll + visible` is zero the thumb fills the track.
pub open spec fn thumb_fraction_of(max_scroll: int, visible: int, inverse_scale: int) -> int {
    if max_scroll + visible == 0 {
        ONE as int
    } else {
        let raw = floor_div(visible * inverse_scale, max_scroll + visible);
        if raw < MIN_FRACTION {
            MIN_FRACTION as int
        } else if raw > ONE {
            ONE as int
        } else {
            raw
        }
    }
}

/// A fraction as the percentage that a size attribute holds.
pub open spec fn percent_of(fraction: int) -> int {
    fraction * 100
}

/// The distance that the thumb can travel along its track, in logical pixels:
/// the track's length less the thumb's, scaled by the track's factor.
pub open spec fn travel_of(
    track: ComputedBox,
    thumb: ComputedBox,
    direction: ScrollbarDirection,
) -> int {
    scaled(track.length(direction) - thumb.length(direction), track.inverse_scale as int)
}

/// The length of the track that the thumb leaves free, each of the two lengths
/// scaled by the factor of its own box.
pub open spec fn free_length_of(
    track: ComputedBox,
    thumb: ComputedBox,
    direction: ScrollbarDirection,
) -> int {
    scaled(track.length(direction) as int, track.inverse_scale as int) - scaled(
        thumb.length(direction) as int,
        thumb.inverse_scale as int,
    )
}

/// The position of the thumb for a scroll offset: the scrolled share
/// `offset / max_scroll` of the travel. Where there is nothing to scroll the
/// thumb stays at zero.
pub open spec fn position_of(offset: int, max_scroll: int, travel: int) -> int {
    if max_scroll == 0 {
        0
    } else {
        floor_div(offset * travel, max_scroll)
    }
}

/// The scroll offset for a position of the thumb: the share
/// `position / travel` of the maximum scroll.
pub open spec fn offset_of(position: int, max_scroll: int, travel: int) -> int {
    floor_div(position * max_scroll, travel)
}

/// A position moved into the range from zero to `travel`.
pub open spec fn clamped(position: int, travel: int) -> int {
    if position < 0 {
        0
    } else if position > travel {
        travel
    } else {
        position
    }
}

/// A drag distance on screen in the pixels of the track: scaled by the
/// track's factor and by the ratio of the track's length to the window's.
pub open spec fn track_delta_of(
    delta: int,
    inverse_scale: int,
    track_length: int,
    window_length: int,
) -> int {
    floor_div(delta * inverse_scale * track_length, ONE * window_length)
}

/// Computes the length of the thumb as a fraction of the track.
///
/// The result lies between `MIN_FRACTION` and `ONE` for every input.
pub fn thumb_fraction(max_scroll: i64, visible: i64, inverse_scale: i64) -> (r: i64)
    ensures
        r == thumb_fraction_of(max_scroll as int, visible as int, inverse_scale as int),
        MIN_FRACTION <= r <= ONE,
{
    let content: i128 = max_scroll as i128 + visible as i128;
    if content == 0 {
        return ONE;
    }
    assert(-WIDE_MAX <= visible * inverse_scale <= WIDE_MAX) by (nonlinear_arith)
        requires
            -0x8000_0000_0000_0000 <= visible <= 0x7fff_ffff_ffff_ffff,
            -0x8000_0000_0000_0000 <= inverse_scale <= 0x7fff_ffff_ffff_ffff,
    ;
    let raw: i128 = floor_div_wide((visible as i128) * (inverse_scale as i128), content);
    if raw < MIN_FRACTION as i128 {
        MIN_FRACTION
    } else if raw > ONE as i128 {
        ONE
    } else {
        raw as i64
    }
}

/// Converts a fraction between zero and one to a percentage.
pub fn fraction_to_percent(fraction: i64) -> (r: i64)
    requires
        0 <= fraction <= ONE,
    ensures
        r == percent_of(fraction as int),
{
    fraction * 100
}

/// Computes the distance that the thumb can travel along its track.
pub fn travel(track: &ComputedBox, thumb: &ComputedBox, direction: ScrollbarDirection) -> (r: i64)
    requires
        track.wf(),
        thumb.wf(),
    ensures
        r == travel_of(*track, *thumb, direction),
{
    let free: i128 = track.length(direction) as i128 - thumb.length(direction) as i128;
    proof {
        assert(-(2 * COORD_MAX * SCALE_MAX) <= free * track.inverse_scale <= 2 * COORD_MAX
            * SCALE_MAX) by (nonlinear_arith)
            requires
                -(2 * COORD_MAX) <= free <= 2 * COORD_MAX,
                0 < track.inverse_scale <= SCALE_MAX,
        ;
        lemma_floor_div_bounds(free * track.inverse_scale, ONE as int);
    }
    let q: i128 = floor_div_wide(free * (track.inverse_scale as i128), ONE as i128);
    q as i64
}

/// Computes the length of the track that the thumb leaves free.
pub fn free_length(
    track: &ComputedBox,
    thumb: &ComputedBox,
    direction: ScrollbarDirection,
) -> (r: i64)
    requires
        track.wf(),
        thumb.wf(),
    ensures
        r == free_length_of(*track, *thumb, direction),
{
    scale(track.length(direction), track.inverse_scale) - scale(
        thumb.length(direction),
        thumb.inverse_scale,
    )
}

/// Computes the position of the thumb for a scroll offset.
///
/// The position is an error only where it cannot be held in an `i64`. For an
/// offset between zero and a positive `max_scroll` it lies between zero and
/// `travel`.
pub fn thumb_position(offset: i64, max_scroll: i64, travel: i64) -> (r: Result<
    i64,
    ScrollbarError,
>)
    ensures
        r == checked(position_of(offset as int, max_scroll as int, travel as int)),
        0 <= offset <= max_scroll && 0 <= travel ==> r.is_ok() && 0 <= r.unwrap() <= travel,
{
    proof {
        if 0 <= offset <= max_scroll && 0 <= travel {
            lemma_position_in_range(offset as int, max_scroll as int, travel as int);
        }
    }
    if max_scroll == 0 {
        return Ok(0);
    }
    match mul_div(offset, travel, max_scroll) {
        Some(v) => Ok(v),
        None => Err(ScrollbarError::OutOfRange),
    }
}

/// Moves a position into the range from zero to `travel`.
///
/// A position that is already in the range comes back unchanged.
pub fn clamp_position(position: i64, travel: i64) -> (r: i64)
    requires
        0 <= travel,
    ensures
        r == clamped(position as int, travel as int),
        0 <= r <= travel,
        0 <= position <= travel ==> r == position,
{
    if position < 0 {
        0
    } else if position > travel {
        travel
    } else {
        position
    }
}

/// Computes the scroll offset for a position of the thumb.
///
/// A travel of zero is degenerate; an offset that cannot be held in an `i64`
/// is out of range.
pub fn scroll_offset(position: i64, max_scroll: i64, travel: i64) -> (r: Result<
    i64,
    ScrollbarError,
>)
    ensures
        travel == 0 ==> r == Err::<i64, ScrollbarError>(ScrollbarError::DegenerateGeometry),
        travel != 0 ==> r == checked(offset_of(position as int, max_scroll as int, travel as int)),
{
    if travel == 0 {
        return Err(ScrollbarError::DegenerateGeometry);
    }
    match mul_div(position, max_scroll, travel) {
        Some(v) => Ok(v),
        None => Err(ScrollbarError::OutOfRange),
    }
}

/// Converts a drag distance on screen to the pixels of the track.
///
/// A window length of zero is degenerate; a distance that cannot be held in
/// an `i64` is out of range.
pub fn track_delta(
    delta: i64,
    track: &ComputedBox,
    direction: ScrollbarDirection,
    window_length: i64,
) -> (r: Result<i64, ScrollbarError>)
    requires
        in_coord_range(delta as int),
        track.wf(),
    ensures
        window_length == 0 ==> r == Err::<i64, ScrollbarError>(ScrollbarError::DegenerateGeometry),
        window_length != 0 ==> r == checked(
            track_delta_of(
                delta as int,
                track.inverse_scale as int,
                track.length(direction) as int,
                window_length as int,
            ),
        ),
{
    if window_length == 0 {
        return Err(ScrollbarError::DegenerateGeometry);
    }
    let length: i64 = track.length(direction);
    proof {
        assert(-(COORD_MAX * SCALE_MAX) <= delta * track.inverse_scale <= COORD_MAX * SCALE_MAX)
            by (nonlinear_arith)
            requires
                -COORD_MAX <= delta <= COORD_MAX,
                0 < track.inverse_scale <= SCALE_MAX,
        ;
        assert(-(COORD_MAX * SCALE_MAX * COORD_MAX) <= (delta * track.inverse_scale) * length
            <= COORD_MAX * SCALE_MAX * COORD_MAX) by (nonlinear_arith)
            requires
                -(COORD_MAX * SCALE_MAX) <= delta * track.inverse_scale <= COORD_MAX * SCALE_MAX,
                -COORD_MAX <= length <= COORD_MAX,
        ;
    }
    let scaled_delta: i128 = (delta as i128) * (track.inverse_scale as i128);
    let numerator: i128 = scaled_delta * (length as i128);
    assert(ONE * window_length != 0 && -10_000_000_000_000_000_000_000_000 <= ONE * window_length
        <= 10_000_000_000_000_000_000_000_000) by (nonlinear_arith)
        requires
            ONE == 1_000_000,
            window_length != 0,
            -0x8000_0000_0000_0000 <= window_length <= 0x7fff_ffff_ffff_ffff,
    ;
    let denominator: i128 = (ONE as i128) * (window_length as i128);
    check(floor_div_wide(numerator, denominator))
}

/// The position for an offset between zero and a positive maximum scroll lies
/// between zero and the travel.
pub proof fn lemma_position_in_range(offset: int, max_scroll: int, travel: int)
    requires
        0 <= offset <= max_scroll,
        0 <= travel,
    ensures
        0 <= position_of(offset, max_scroll, travel) <= travel,
{
    if max_scroll != 0 {
        let p = position_of(offset, max_scroll, travel);
        lemma_floor_div_bounds(offset * travel, max_scroll);
        assert(0 <= p <= travel) by (nonlinear_arith)
            requires
                p * max_scroll <= offset * travel < p * max_scroll + max_scroll,
                0 <= offset <= max_scroll,
                0 < max_scroll,
                0 <= travel,
        ;
    }
}

/// From an offset to the thumb's position and back: for one maximum scroll
/// that is not zero and one positive travel, the offset that comes back
/// differs from the one that went in by less than `|max_scroll| / travel + 1`.
/// It is never above it where the maximum scroll is positive, and never
/// below it where the maximum scroll is negative.
pub proof fn lemma_offset_round_trip(offset: int, max_scroll: int, travel: int)
    requires
        max_scroll != 0,
        travel > 0,
    ensures
        ({
            let back = offset_of(position_of(offset, max_scroll, travel), max_scroll, travel);
            &&& max_scroll > 0 ==> 0 <= (offset - back) * travel < max_scroll + travel
            &&& max_scroll < 0 ==> 0 <= (back - offset) * travel < -max_scroll
        }),
{
    let p = position_of(offset, max_scroll, travel);
    let back = offset_of(p, max_scroll, travel);
    lemma_floor_div_bounds(offset * travel, max_scroll);
    lemma_floor_div_bounds(p * max_scroll, travel);
    if max_scroll > 0 {
        assert(0 <= (offset - back) * travel < max_scroll + travel) by (nonlinear_arith)
            requires
                p * max_scroll <= offset * travel < p * max_scroll + max_scroll,
                back * travel <= p * max_scroll < back * travel + travel,
        ;
    } else {
        assert(0 <= (back - offset) * travel < -max_scroll) by (nonlinear_arith)
            requires
                p * max_scroll >= offset * travel > p * max_scroll + max_scroll,
                back * travel <= p * max_scroll < back * travel + travel,
                travel > 0,
        ;
    }
}

/// From a position of the thumb to the scroll offset and back: for one
/// positive maximum scroll and one positive travel, the position that comes
/// back is never above the one that went in and lies less than
/// `travel / max_scroll + 1` below it.
pub proof fn lemma_position_round_trip(position: int, max_scroll: int, travel: int)
    requires
        max_scroll > 0,
        travel > 0,
    ensures
        ({
            let back = position_of(offset_of(position, max_scroll, travel), max_scroll, travel);
            0 <= (position - back) * max_scroll < travel + max_scroll
        }),
{
    let o = offset_of(position, max_scroll, travel);
    let back = position_of(o, max_scroll, travel);
    lemma_floor_div_bounds(position * max_scroll, travel);
    lemma_floor_div_bounds(o * travel, max_scroll);
    assert(0 <= (position - back) * max_scroll < travel + max_scroll) by (nonlinear_arith)
        requires
            o * travel <= position * max_scroll < o * travel + travel,
            back * max_scroll <= o * travel < back * max_scroll + max_scroll,
    ;
}

/// The thumb fills the track where the content fits: for a positive visible
/// length, a scale factor of at least one and a maximum scroll between the
/// negated visible length and zero, the fraction is `ONE`.
pub proof fn lemma_thumb_fills_track(max_scroll: int, visible: int, inverse_scale: int)
    requires
        0 < visible,
        -visible <= max_scroll <= 0,
        ONE <= inverse_scale,
    ensures
        thumb_fraction_of(max_scroll, visible, inverse_scale) == ONE,
{
    let content = max_scroll + visible;
    if content != 0 {
        let raw = floor_div(visible * inverse_scale, content);
        lemma_floor_div_bounds(visible * inverse_scale, content);
        assert(raw >= ONE) by (nonlinear_arith)
            requires
                visible * inverse_scale < raw * content + content,
                0 < content <= visible,
                ONE <= inverse_scale,
                ONE == 1_000_000,
        ;
    }
}

/// The fraction lies between `MIN_FRACTION` and `ONE` for every maximum
/// scroll, visible length and scale factor.
pub proof fn lemma_thumb_fraction_bounds(max_scroll: int, visible: int, inverse_scale: int)
    ensures
        MIN_FRACTION <= thumb_fraction_of(max_scroll, visible, inverse_scale) <= ONE,
{
}

/// From an offset to the thumb's position and back is exact where the
/// position is: an offset whose scrolled share of the travel is a whole
/// number of units comes back unchanged.
pub proof fn lemma_offset_round_trip_exact(offset: int, max_scroll: int, travel: int)
    requires
        max_scroll != 0,
        travel > 0,
        position_of(offset, max_scroll, travel) * max_scroll == offset * travel,
    ensures
        offset_of(position_of(offset, max_scroll, travel), max_scroll, travel) == offset,
{
    lemma_floor_div_unique(offset * travel, travel, offset);
}

/// Clamping twice is clamping once, and a position already between zero and
/// the travel is left where it is.
pub proof fn lemma_clamp_idempotent(position: int, travel: int)
    requires
        0 <= travel,
    ensures
        clamped(clamped(position, travel), travel) == clamped(position, travel),
        0 <= position <= travel ==> clamped(position, travel) == position,
{
}

} // verus!
