use bevy_simple_scrollbar::fixed::{mul_div, narrow, scale, COORD_MAX, ONE, SCALE_MAX};
use bevy_simple_scrollbar::geometry::{
    ChildNode, ComputedBox, Length, Margins, ScrollbarDirection, ScrollbarError,
};
use bevy_simple_scrollbar::max_scroll::{extent_of_child, max_scroll};
use bevy_simple_scrollbar::thumb::{
    clamp_position, fraction_to_percent, free_length, scroll_offset, thumb_fraction,
    thumb_position, track_delta, travel, MIN_FRACTION,
};

fn px(v: i64) -> i64 {
    v * ONE
}

fn boxed(width: i64, height: i64, inverse_scale: i64) -> ComputedBox {
    ComputedBox::new(px(width), px(height), 0, 0, 0, 0, inverse_scale).unwrap()
}

fn child(width: i64, height: i64) -> ChildNode {
    ChildNode { computed: Some(boxed(width, height, ONE)), margin: Margins::none() }
}

#[test]
fn mul_div_rounds_toward_negative_infinity() {
    assert_eq!(mul_div(7, 1, 2), Some(3));
    assert_eq!(mul_div(-7, 1, 2), Some(-4));
    assert_eq!(mul_div(7, 1, -2), Some(-4));
    assert_eq!(mul_div(-7, 1, -2), Some(3));
    assert_eq!(mul_div(-8, 1, 2), Some(-4));
    assert_eq!(mul_div(6, 5, 3), Some(10));
}

#[test]
fn mul_div_rejects_zero_divisor_and_overflow() {
    assert_eq!(mul_div(1, 1, 0), None);
    assert_eq!(mul_div(i64::MAX, 2, 1), None);
    assert_eq!(mul_div(i64::MIN, -1, 1), None);
    assert_eq!(mul_div(i64::MAX, i64::MAX, i64::MAX), Some(i64::MAX));
    assert_eq!(mul_div(i64::MIN, i64::MIN, i64::MIN), Some(i64::MIN));
    assert_eq!(mul_div(i64::MIN, 1, -1), None);
}

#[test]
fn narrow_keeps_what_fits() {
    assert_eq!(narrow(5), Some(5));
    assert_eq!(narrow(i64::MAX as i128), Some(i64::MAX));
    assert_eq!(narrow(i64::MAX as i128 + 1), None);
    assert_eq!(narrow(i64::MIN as i128 - 1), None);
}

#[test]
fn scale_multiplies_by_the_factor() {
    assert_eq!(scale(px(100), ONE), px(100));
    assert_eq!(scale(px(100), ONE / 2), px(50));
    assert_eq!(scale(px(-100), ONE * 2), px(-200));
    assert_eq!(scale(3, ONE / 2), 1);
    assert_eq!(scale(-3, ONE / 2), -2);
}

#[test]
fn computed_box_new_checks_ranges() {
    let b = ComputedBox::new(px(10), px(20), 1, 2, 3, 4, ONE).unwrap();
    assert_eq!(b.width, px(10));
    assert_eq!(b.height, px(20));
    assert_eq!(b.padding_left, 1);
    assert_eq!(b.padding_right, 2);
    assert_eq!(b.padding_top, 3);
    assert_eq!(b.padding_bottom, 4);
    assert_eq!(b.inverse_scale, ONE);
    assert!(b.is_wf());
    assert_eq!(
        ComputedBox::new(0, 0, 0, 0, 0, 0, 0),
        Err(ScrollbarError::DegenerateGeometry)
    );
    assert_eq!(
        ComputedBox::new(0, 0, 0, 0, 0, 0, -ONE),
        Err(ScrollbarError::DegenerateGeometry)
    );
    assert_eq!(
        ComputedBox::new(COORD_MAX + 1, 0, 0, 0, 0, 0, ONE),
        Err(ScrollbarError::OutOfRange)
    );
    assert_eq!(
        ComputedBox::new(0, 0, 0, 0, 0, -COORD_MAX - 1, ONE),
        Err(ScrollbarError::OutOfRange)
    );
    assert_eq!(
        ComputedBox::new(0, 0, 0, 0, 0, 0, SCALE_MAX + 1),
        Err(ScrollbarError::OutOfRange)
    );
    assert!(ComputedBox::new(COORD_MAX, -COORD_MAX, 0, 0, 0, 0, SCALE_MAX).is_ok());
}

#[test]
fn box_accessors_follow_the_direction() {
    let b = ComputedBox::new(px(10), px(20), 1, 2, 3, 4, ONE).unwrap();
    assert_eq!(b.length(ScrollbarDirection::Horizontal), px(10));
    assert_eq!(b.length(ScrollbarDirection::Vertical), px(20));
    assert_eq!(b.leading_padding(ScrollbarDirection::Horizontal), 1);
    assert_eq!(b.trailing_padding(ScrollbarDirection::Horizontal), 2);
    assert_eq!(b.leading_padding(ScrollbarDirection::Vertical), 3);
    assert_eq!(b.trailing_padding(ScrollbarDirection::Vertical), 4);
    let m = Margins {
        left: Length::Px(1),
        right: Length::Px(2),
        top: Length::Px(3),
        bottom: Length::Percent(4),
    };
    assert_eq!(m.leading(ScrollbarDirection::Horizontal), Length::Px(1));
    assert_eq!(m.trailing(ScrollbarDirection::Horizontal), Length::Px(2));
    assert_eq!(m.leading(ScrollbarDirection::Vertical), Length::Px(3));
    assert_eq!(m.trailing(ScrollbarDirection::Vertical), Length::Percent(4));
}

#[test]
fn child_validity_covers_box_and_margins() {
    let mut c = child(10, 10);
    assert!(c.is_wf());
    c.margin.top = Length::Px(COORD_MAX + 1);
    assert!(!c.is_wf());
    c.margin.top = Length::Percent(COORD_MAX + 1);
    assert!(c.is_wf());
    c.computed = Some(ComputedBox {
        width: 0,
        height: 0,
        padding_left: 0,
        padding_right: 0,
        padding_top: 0,
        padding_bottom: 0,
        inverse_scale: 0,
    });
    assert!(!c.is_wf());
    c.computed = None;
    assert!(c.is_wf());
}

#[test]
fn child_extent_sums_size_padding_and_margin() {
    let c = ChildNode {
        computed: Some(
            ComputedBox::new(px(30), px(40), px(1), px(2), px(3), px(4), ONE).unwrap(),
        ),
        margin: Margins {
            left: Length::Px(px(5)),
            right: Length::Px(px(6)),
            top: Length::Px(px(7)),
            bottom: Length::Px(px(8)),
        },
    };
    assert_eq!(extent_of_child(&c, ScrollbarDirection::Horizontal), px(30 + 1 + 2 + 5 + 6));
    assert_eq!(extent_of_child(&c, ScrollbarDirection::Vertical), px(40 + 3 + 4 + 7 + 8));
}

#[test]
fn child_extent_scales_by_the_childs_own_factor() {
    // At a UI scale of two the box is in physical pixels twice the logical
    // size; the margin is declared in logical pixels.
    let c = ChildNode {
        computed: Some(ComputedBox::new(px(60), px(80), px(2), px(2), 0, 0, ONE / 2).unwrap()),
        margin: Margins {
            left: Length::Px(px(3)),
            right: Length::Px(px(3)),
            top: Length::Unspecified,
            bottom: Length::Unspecified,
        },
    };
    // (60 + 2 + 2 + 3 / 0.5 + 3 / 0.5) * 0.5 = 38
    assert_eq!(extent_of_child(&c, ScrollbarDirection::Horizontal), px(38));
    assert_eq!(extent_of_child(&c, ScrollbarDirection::Vertical), px(40));
}

#[test]
fn margins_that_are_not_absolute_count_as_zero() {
    let c = ChildNode {
        computed: Some(boxed(30, 40, ONE)),
        margin: Margins {
            left: Length::Percent(px(50)),
            right: Length::Unspecified,
            top: Length::Percent(px(10)),
            bottom: Length::Px(px(1)),
        },
    };
    assert_eq!(extent_of_child(&c, ScrollbarDirection::Horizontal), px(30));
    assert_eq!(extent_of_child(&c, ScrollbarDirection::Vertical), px(41));
}

#[test]
fn children_without_geometry_are_skipped() {
    let missing = ChildNode {
        computed: None,
        margin: Margins {
            left: Length::Px(px(9)),
            right: Length::Px(px(9)),
            top: Length::Px(px(9)),
            bottom: Length::Px(px(9)),
        },
    };
    assert_eq!(extent_of_child(&missing, ScrollbarDirection::Vertical), 0);
    let children = vec![child(10, 100), missing, child(10, 150)];
    let area = boxed(200, 100, ONE);
    assert_eq!(max_scroll(&children, &area, ScrollbarDirection::Vertical), Ok(px(150)));
    assert_eq!(max_scroll(&children, &area, ScrollbarDirection::Horizontal), Ok(px(-180)));
}

#[test]
fn max_scroll_subtracts_the_scaled_visible_length() {
    let children = vec![child(10, 400)];
    assert_eq!(
        max_scroll(&children, &boxed(50, 100, ONE), ScrollbarDirection::Vertical),
        Ok(px(300))
    );
    assert_eq!(
        max_scroll(&children, &boxed(50, 100, ONE / 2), ScrollbarDirection::Vertical),
        Ok(px(350))
    );
}

#[test]
fn max_scroll_is_negative_when_content_is_shorter() {
    let children = vec![child(10, 30)];
    assert_eq!(
        max_scroll(&children, &boxed(50, 100, ONE), ScrollbarDirection::Vertical),
        Ok(px(-70))
    );
}

#[test]
fn max_scroll_is_at_least_the_negated_visible_length() {
    for factor in [ONE / 4, ONE, ONE * 3] {
        let area = ComputedBox::new(px(50), px(100), 0, 0, 0, 0, factor).unwrap();
        let floor = -scale(px(100), factor);
        let mut children: Vec<ChildNode> = Vec::new();
        for height in [0, 0, 1, 30, 500] {
            let max = max_scroll(&children, &area, ScrollbarDirection::Vertical).unwrap();
            assert!(max >= floor);
            let mut next = child(10, height);
            next.margin.top = Length::Px(height);
            next.margin.bottom = Length::Percent(-px(1000));
            children.push(next);
        }
    }
    // A negative margin can pull the content below nothing.
    let mut pulled = child(10, 10);
    pulled.margin.top = Length::Px(-px(40));
    assert_eq!(
        max_scroll(&vec![pulled], &boxed(50, 100, ONE), ScrollbarDirection::Vertical),
        Ok(-px(130))
    );
}

#[test]
fn no_children_gives_negated_visible_length() {
    let children: Vec<ChildNode> = Vec::new();
    let area = boxed(50, 100, ONE);
    let max = max_scroll(&children, &area, ScrollbarDirection::Vertical).unwrap();
    assert_eq!(max, px(-100));
    assert_eq!(thumb_fraction(max, area.height, area.inverse_scale), ONE);
}

#[test]
fn max_scroll_never_decreases_when_a_child_grows() {
    let area = boxed(50, 100, ONE);
    for scale_factor in [ONE / 4, ONE / 2, ONE, ONE * 3 / 2, 1] {
        let mut last = i64::MIN;
        for height in [0, 1, 2, 3, 50, 99, 100, 101, 4000] {
            let mut grown = child(10, height);
            grown.computed = Some(
                ComputedBox::new(px(10), px(height) + 1, px(1), 0, px(2), 7, scale_factor)
                    .unwrap(),
            );
            grown.margin.top = Length::Px(-px(5));
            let children = vec![child(10, 60), grown, child(10, 10)];
            let max = max_scroll(&children, &area, ScrollbarDirection::Vertical).unwrap();
            assert!(max >= last);
            last = max;
        }
    }
}

#[test]
fn thumb_is_a_quarter_of_the_track() {
    let fraction = thumb_fraction(px(300), px(100), ONE);
    assert_eq!(fraction, ONE / 4);
    assert_eq!(fraction_to_percent(fraction), px(25));
}

#[test]
fn content_that_fits_fills_the_track() {
    assert_eq!(thumb_fraction(0, px(100), ONE), ONE);
    assert_eq!(thumb_position(px(40), 0, px(384)), Ok(0));
    assert_eq!(thumb_position(0, 0, px(384)), Ok(0));
}

#[test]
fn thumb_fraction_guards_a_content_length_of_zero() {
    assert_eq!(thumb_fraction(px(-100), px(100), ONE), ONE);
    assert_eq!(thumb_fraction(0, 0, ONE), ONE);
    assert_eq!(thumb_fraction(i64::MIN, i64::MIN, ONE), ONE / 2);
    assert_eq!(thumb_fraction(i64::MAX, i64::MAX, ONE), ONE / 2);
}

#[test]
fn thumb_fraction_is_clamped_at_both_ends() {
    assert_eq!(MIN_FRACTION, ONE / 20);
    assert_eq!(thumb_fraction(px(10_000), px(100), ONE), MIN_FRACTION);
    assert_eq!(thumb_fraction(px(1900), px(100), ONE), MIN_FRACTION);
    assert_eq!(thumb_fraction(px(1899), px(100), ONE), 50_025);
    assert_eq!(thumb_fraction(px(-50), px(100), ONE), ONE);
    assert_eq!(thumb_fraction(px(-200), px(100), ONE), MIN_FRACTION);
    assert_eq!(thumb_fraction(px(300), px(100), ONE * 2), ONE / 2);
    assert_eq!(thumb_fraction(px(300), px(100), ONE * 8), ONE);
}

#[test]
fn thumb_fraction_stays_in_range_for_any_input() {
    let values = [i64::MIN, -px(100), -1, 0, 1, 3, px(1), px(100), px(300), COORD_MAX, i64::MAX];
    for max in values {
        for visible in values {
            for factor in values {
                let f = thumb_fraction(max, visible, factor);
                assert!(MIN_FRACTION <= f && f <= ONE);
            }
        }
    }
}

#[test]
fn travel_is_the_scaled_difference_of_the_lengths() {
    let track = boxed(16, 512, ONE);
    let thumb = boxed(8, 128, ONE);
    assert_eq!(travel(&track, &thumb, ScrollbarDirection::Vertical), px(384));
    assert_eq!(travel(&track, &thumb, ScrollbarDirection::Horizontal), px(8));
    let track = boxed(16, 512, ONE / 2);
    assert_eq!(travel(&track, &thumb, ScrollbarDirection::Vertical), px(192));
    assert_eq!(travel(&thumb, &track, ScrollbarDirection::Vertical), px(-384));
}

#[test]
fn free_length_scales_each_box_by_its_own_factor() {
    let track = boxed(16, 512, ONE / 2);
    let thumb = boxed(8, 128, ONE);
    assert_eq!(free_length(&track, &thumb, ScrollbarDirection::Vertical), px(128));
    let thumb = boxed(8, 128, ONE / 2);
    assert_eq!(free_length(&track, &thumb, ScrollbarDirection::Vertical), px(192));
    assert_eq!(free_length(&track, &thumb, ScrollbarDirection::Horizontal), px(4));
}

#[test]
fn half_scrolled_is_half_the_travel() {
    let track = boxed(16, 512, ONE);
    let thumb = boxed(8, 128, ONE);
    let range = travel(&track, &thumb, ScrollbarDirection::Vertical);
    assert_eq!(thumb_position(px(150), px(300), range), Ok(px(192)));
}

#[test]
fn thumb_position_reports_what_does_not_fit() {
    assert_eq!(thumb_position(i64::MAX, 1, 2), Err(ScrollbarError::OutOfRange));
    assert_eq!(thumb_position(i64::MAX, 2, 2), Ok(i64::MAX));
    assert_eq!(thumb_position(-px(30), px(300), px(384)), Ok(-38_400_000));
    assert_eq!(thumb_position(px(30), -px(300), px(384)), Ok(-38_400_000));
    assert_eq!(thumb_position(1, 3, 1), Ok(0));
    assert_eq!(thumb_position(-1, 3, 1), Ok(-1));
}

#[test]
fn thumb_position_stays_on_the_track_for_offsets_in_range() {
    for max in [1, 2, 7, px(300), COORD_MAX] {
        for range in [0, 1, 5, px(384), COORD_MAX] {
            for offset in [0, 1, max / 3, max / 2, max - 1, max] {
                if offset < 0 {
                    continue;
                }
                let p = thumb_position(offset, max, range).unwrap();
                assert!(0 <= p && p <= range);
            }
        }
    }
}

#[test]
fn clamp_position_keeps_what_is_in_range() {
    assert_eq!(clamp_position(px(242), px(384)), px(242));
    assert_eq!(clamp_position(0, px(384)), 0);
    assert_eq!(clamp_position(px(384), px(384)), px(384));
    assert_eq!(clamp_position(-1, px(384)), 0);
    assert_eq!(clamp_position(px(384) + 1, px(384)), px(384));
    assert_eq!(clamp_position(i64::MIN, 0), 0);
    assert_eq!(clamp_position(i64::MAX, 0), 0);
}

#[test]
fn clamp_position_is_idempotent() {
    for range in [0, 1, px(384), i64::MAX] {
        for p in [i64::MIN, -1, 0, 1, px(100), px(384), px(385), i64::MAX] {
            let once = clamp_position(p, range);
            assert_eq!(clamp_position(once, range), once);
            if 0 <= p && p <= range {
                assert_eq!(once, p);
            }
        }
    }
}

#[test]
fn scroll_offset_is_the_share_of_the_maximum_scroll() {
    assert_eq!(scroll_offset(px(242), px(300), px(384)), Ok(189_062_500));
    assert_eq!(scroll_offset(px(192), px(300), px(384)), Ok(px(150)));
    assert_eq!(scroll_offset(0, px(300), px(384)), Ok(0));
    assert_eq!(scroll_offset(px(384), px(300), px(384)), Ok(px(300)));
    assert_eq!(scroll_offset(px(192), -px(300), px(384)), Ok(-px(150)));
    assert_eq!(scroll_offset(px(192), px(300), -px(384)), Ok(-px(150)));
    assert_eq!(scroll_offset(1, 1, 3), Ok(0));
    assert_eq!(scroll_offset(1, -1, 3), Ok(-1));
}

#[test]
fn scroll_offset_rejects_degenerate_and_oversized() {
    assert_eq!(scroll_offset(px(1), px(300), 0), Err(ScrollbarError::DegenerateGeometry));
    assert_eq!(scroll_offset(i64::MAX, i64::MAX, 1), Err(ScrollbarError::OutOfRange));
}

#[test]
fn offset_round_trip_stays_within_tolerance() {
    for max in [1_i64, 7, px(300), px(3000), 123_456_789] {
        for range in [1_i64, 5, px(384), px(30), 987_654_321] {
            for offset in [0, 1, max / 7, max / 3, max / 2, max - 1, max] {
                let p = thumb_position(offset, max, range).unwrap();
                let back = scroll_offset(p, max, range).unwrap();
                assert!(back <= offset);
                assert!(((offset - back) as i128) * (range as i128) < (max + range) as i128);
            }
        }
    }
    // Negative maximum scroll: the offset comes back from the other side.
    let p = thumb_position(-px(10), -px(300), px(384)).unwrap();
    assert_eq!(p, 12_800_000);
    assert_eq!(scroll_offset(p, -px(300), px(384)), Ok(-px(10)));
    let p = thumb_position(-7, -3, 2).unwrap();
    assert_eq!(p, 4);
    assert_eq!(scroll_offset(p, -3, 2), Ok(-6));
}

#[test]
fn offset_round_trip_is_exact_for_whole_positions() {
    let p = thumb_position(px(150), px(300), px(384)).unwrap();
    assert_eq!(p, px(192));
    assert_eq!(scroll_offset(p, px(300), px(384)), Ok(px(150)));
}

#[test]
fn position_round_trip_stays_within_tolerance() {
    for max in [1_i64, 7, px(300), px(3000)] {
        for range in [1_i64, 5, px(384), px(30)] {
            for p in [0, 1, range / 3, range / 2, range] {
                let offset = scroll_offset(p, max, range).unwrap();
                let back = thumb_position(offset, max, range).unwrap();
                assert!(back <= p);
                assert!(((p - back) as i128) * (max as i128) < (max + range) as i128);
            }
        }
    }
}

#[test]
fn track_delta_applies_scale_and_window_ratio() {
    let track = boxed(16, 512, ONE);
    assert_eq!(track_delta(px(50), &track, ScrollbarDirection::Vertical, px(512)), Ok(px(50)));
    assert_eq!(track_delta(px(50), &track, ScrollbarDirection::Vertical, px(1024)), Ok(px(25)));
    assert_eq!(track_delta(px(50), &track, ScrollbarDirection::Horizontal, px(1024)), Ok(781_250));
    assert_eq!(track_delta(-px(50), &track, ScrollbarDirection::Vertical, px(1024)), Ok(-px(25)));
    let track = boxed(16, 512, ONE / 2);
    assert_eq!(track_delta(px(50), &track, ScrollbarDirection::Vertical, px(512)), Ok(px(25)));
    assert_eq!(track_delta(1, &track, ScrollbarDirection::Vertical, px(512)), Ok(0));
    assert_eq!(track_delta(-1, &track, ScrollbarDirection::Vertical, px(512)), Ok(-1));
    assert_eq!(track_delta(1, &track, ScrollbarDirection::Vertical, -px(512)), Ok(-1));
}

#[test]
fn track_delta_rejects_degenerate_and_oversized() {
    let track = boxed(16, 512, ONE);
    assert_eq!(
        track_delta(px(50), &track, ScrollbarDirection::Vertical, 0),
        Err(ScrollbarError::DegenerateGeometry)
    );
    let wide = ComputedBox::new(COORD_MAX, COORD_MAX, 0, 0, 0, 0, SCALE_MAX).unwrap();
    assert_eq!(
        track_delta(COORD_MAX, &wide, ScrollbarDirection::Vertical, 1),
        Err(ScrollbarError::OutOfRange)
    );
}
