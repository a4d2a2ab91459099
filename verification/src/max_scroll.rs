//! The maximum scroll of a scroll area: how far its content reaches beyond the
//! visible length along the scroll axis.

use vstd::prelude::*;
use crate::fixed::{
    floor_div, floor_div_wide, lemma_floor_div_bounds, lemma_floor_div_non_negative,
    lemma_scaled_monotonic, scale, scaled, COORD_MAX, ONE, SCALE_MAX,
};
use crate::geometry::{
    check, checked, margin_in_range, ChildNode, ComputedBox, Length, ScrollbarDirection,
    ScrollbarError,
};

verus! {

/// Largest magnitude of the extent of one well-formed content item.
pub const EXTENT_MAX: i64 = 40_000_000_000_000_000;

/// A declared margin in the physical pixels of a box with the scale factor
/// `inverse_scale`. Only an absolute margin counts; any other unit gives zero.
pub open spec fn physical_margin(margin: Length, inverse_scale: int) -> int {
    match margin {
        Length::Px(v) => floor_div(v * ONE, inverse_scale),
        _ => 0,
    }
}

/// The length that one content item takes along `direction`, in logical
/// pixels: its size, both paddings and both margins, scaled by the item's own
/// factor. An item that has not been laid out takes none.
pub open spec fn child_extent(child: ChildNode, direction: ScrollbarDirection) -> int {
    match child.computed {
        None => 0,
        Some(b) => scaled(
            b.length(direction) + b.leading_padding(direction) + b.trailing_padding(direction)
                + physical_margin(child.margin.leading(direction), b.inverse_scale as int)
                + physical_margin(child.margin.trailing(direction), b.inverse_scale as int),
            b.inverse_scale as int,
        ),
    }
}

/// The sum of the extents of all content items.
pub open spec fn content_extent(children: Seq<ChildNode>, direction: ScrollbarDirection) -> int
    decreases children.len(),
{
    if children.len() == 0 {
        0
    } else {
        content_extent(children.drop_last(), direction) + child_extent(children.last(), direction)
    }
}

/// The content extent less the visible length of the area. It is negative
/// where the content is shorter than the area.
pub open spec fn max_scroll_of(
    children: Seq<ChildNode>,
    area: ComputedBox,
    direction: ScrollbarDirection,
) -> int {
    content_extent(children, direction) - scaled(
        area.length(direction) as int,
        area.inverse_scale as int,
    )
}

/// Whether every item of `children` is well formed.
pub open spec fn all_wf(children: Seq<ChildNode>) -> bool {
    forall|i: int| 0 <= i < children.len() ==> (#[trigger] children[i]).wf()
}

/// The physical margin of a well-formed item, scaled back, stays within one
/// scale factor of the declared margin.
proof fn lemma_physical_margin_bounds(margin: Length, inverse_scale: int)
    requires
        margin_in_range(margin),
        0 < inverse_scale <= SCALE_MAX,
    ensures
        -(COORD_MAX * ONE) - inverse_scale <= physical_margin(margin, inverse_scale) * inverse_scale
            <= COORD_MAX * ONE,
        -(COORD_MAX * ONE) <= physical_margin(margin, inverse_scale) <= COORD_MAX * ONE,
{
    match margin {
        Length::Px(v) => {
            let n = v * ONE;
            let p = floor_div(n, inverse_scale);
            lemma_floor_div_bounds(n, inverse_scale);
            assert(-(COORD_MAX * ONE) <= p <= COORD_MAX * ONE) by (nonlinear_arith)
                requires
                    p * inverse_scale <= n < p * inverse_scale + inverse_scale,
                    -(COORD_MAX * ONE) <= n <= COORD_MAX * ONE,
                    0 < inverse_scale,
            ;
        },
        _ => {
            assert(0 * inverse_scale == 0);
        },
    }
}

/// The extent of a well-formed item is bounded by `EXTENT_MAX`.
pub proof fn lemma_child_extent_bounds(child: ChildNode, direction: ScrollbarDirection)
    requires
        child.wf(),
    ensures
        -EXTENT_MAX <= child_extent(child, direction) <= EXTENT_MAX,
{
    match child.computed {
        None => {},
        Some(b) => {
            let s = b.inverse_scale as int;
            let base = b.length(direction) + b.leading_padding(direction) + b.trailing_padding(
                direction,
            );
            let lead = physical_margin(child.margin.leading(direction), s);
            let trail = physical_margin(child.margin.trailing(direction), s);
            lemma_physical_margin_bounds(child.margin.leading(direction), s);
            lemma_physical_margin_bounds(child.margin.trailing(direction), s);
            let total = (base + lead + trail) * s;
            assert(total == base * s + lead * s + trail * s) by (nonlinear_arith)
                requires
                    total == (base + lead + trail) * s,
            ;
            assert(-(3 * COORD_MAX * SCALE_MAX) <= base * s <= 3 * COORD_MAX * SCALE_MAX)
                by (nonlinear_arith)
                requires
                    -(3 * COORD_MAX) <= base <= 3 * COORD_MAX,
                    0 < s <= SCALE_MAX,
            ;
            lemma_floor_div_bounds(total, ONE as int);
        },
    }
}

/// Whether `grown` is `child` with a size that is no smaller in either
/// dimension, and nothing else changed.
pub open spec fn grows_in_size(child: ChildNode, grown: ChildNode) -> bool {
    &&& grown.margin == child.margin
    &&& match (child.computed, grown.computed) {
        (Some(b), Some(g)) => {
            &&& b.width <= g.width
            &&& b.height <= g.height
            &&& g == (ComputedBox { width: g.width, height: g.height, ..b })
        },
        (None, None) => true,
        _ => false,
    }
}

/// Replacing one item changes the content extent by the difference of the two
/// items' extents.
pub proof fn lemma_content_extent_update(
    children: Seq<ChildNode>,
    direction: ScrollbarDirection,
    i: int,
    child: ChildNode,
)
    requires
        0 <= i < children.len(),
    ensures
        content_extent(children.update(i, child), direction) == content_extent(children, direction)
            - child_extent(children[i], direction) + child_extent(child, direction),
    decreases children.len(),
{
    let updated = children.update(i, child);
    if i == children.len() - 1 {
        assert(updated.drop_last() =~= children.drop_last());
    } else {
        lemma_content_extent_update(children.drop_last(), direction, i, child);
        assert(updated.drop_last() =~= children.drop_last().update(i, child));
    }
}

/// The maximum scroll never decreases when one content item grows in size:
/// for any items, margins and paddings, giving the item at `i` a larger width
/// or height leaves the maximum scroll where it was or raises it.
pub proof fn lemma_max_scroll_monotonic(
    children: Seq<ChildNode>,
    area: ComputedBox,
    direction: ScrollbarDirection,
    i: int,
    grown: ChildNode,
)
    requires
        0 <= i < children.len(),
        children[i].wf(),
        grows_in_size(children[i], grown),
    ensures
        max_scroll_of(children, area, direction) <= max_scroll_of(
            children.update(i, grown),
            area,
            direction,
        ),
{
    lemma_content_extent_update(children, direction, i, grown);
    match (children[i].computed, grown.computed) {
        (Some(b), Some(g)) => {
            let s = b.inverse_scale as int;
            let margins = physical_margin(children[i].margin.leading(direction), s)
                + physical_margin(children[i].margin.trailing(direction), s);
            let paddings = b.leading_padding(direction) + b.trailing_padding(direction);
            lemma_scaled_monotonic(
                b.length(direction) + paddings + margins,
                g.length(direction) + paddings + margins,
                s,
            );
        },
        _ => {},
    }
}

/// Whether no length of `child` along `direction` is negative: neither its
/// size, nor a padding, nor an absolute margin.
pub open spec fn has_no_negative_length(child: ChildNode, direction: ScrollbarDirection) -> bool {
    &&& child.computed matches Some(b) ==> 0 <= b.length(direction) && 0 <= b.leading_padding(
        direction,
    ) && 0 <= b.trailing_padding(direction)
    &&& child.margin.leading(direction) matches Length::Px(v) ==> 0 <= v
    &&& child.margin.trailing(direction) matches Length::Px(v) ==> 0 <= v
}

/// The maximum scroll is never below the negated visible length of the area
/// where no content item has a negative length: the content can fall short of
/// the area by no more than the area itself.
pub proof fn lemma_max_scroll_lower_bound(
    children: Seq<ChildNode>,
    area: ComputedBox,
    direction: ScrollbarDirection,
)
    requires
        all_wf(children),
        forall|i: int|
            0 <= i < children.len() ==> has_no_negative_length(#[trigger] children[i], direction),
    ensures
        0 <= content_extent(children, direction),
        -scaled(area.length(direction) as int, area.inverse_scale as int) <= max_scroll_of(
            children,
            area,
            direction,
        ),
    decreases children.len(),
{
    if children.len() > 0 {
        lemma_max_scroll_lower_bound(children.drop_last(), area, direction);
        let child = children.last();
        assert(child.wf() && has_no_negative_length(child, direction));
        match child.computed {
            None => {},
            Some(b) => {
                let s = b.inverse_scale as int;
                let lead = physical_margin(child.margin.leading(direction), s);
                let trail = physical_margin(child.margin.trailing(direction), s);
                if let Length::Px(v) = child.margin.leading(direction) {
                    lemma_floor_div_non_negative(v * ONE, s);
                }
                if let Length::Px(v) = child.margin.trailing(direction) {
                    lemma_floor_div_non_negative(v * ONE, s);
                }
                let sum = b.length(direction) + b.leading_padding(direction) + b.trailing_padding(
                    direction,
                ) + lead + trail;
                assert(0 <= sum * s) by (nonlinear_arith)
                    requires
                        0 <= sum,
                        0 < s,
                ;
                lemma_floor_div_non_negative(sum * s, ONE as int);
            },
        }
    }
}

/// The extent of one content item along `direction`.
pub fn extent_of_child(child: &ChildNode, direction: ScrollbarDirection) -> (r: i64)
    requires
        child.wf(),
    ensures
        r == child_extent(*child, direction),
{
    match child.computed {
        None => 0,
        Some(b) => {
            let lead: i128 = margin_in_physical(child.margin.leading(direction), b.inverse_scale);
            let trail: i128 = margin_in_physical(child.margin.trailing(direction), b.inverse_scale);
            let base: i128 = b.length(direction) as i128 + b.leading_padding(direction) as i128
                + b.trailing_padding(direction) as i128;
            let sum: i128 = base + lead + trail;
            proof {
                lemma_child_extent_bounds(*child, direction);
                assert(-30_000_000_000_000_000_000_000_000_000 <= sum * b.inverse_scale
                    <= 30_000_000_000_000_000_000_000_000_000) by (nonlinear_arith)
                    requires
                        -30_000_000_000_000_000_000 <= sum <= 30_000_000_000_000_000_000,
                        0 < b.inverse_scale <= 1_000_000_000,
                ;
            }
            let product: i128 = sum * (b.inverse_scale as i128);
            let q: i128 = floor_div_wide(product, ONE as i128);
            q as i64
        },
    }
}

/// A declared margin in the physical pixels of a box with the scale factor
/// `inverse_scale`.
fn margin_in_physical(margin: Length, inverse_scale: i64) -> (r: i128)
    requires
        margin_in_range(margin),
        0 < inverse_scale <= SCALE_MAX,
    ensures
        r == physical_margin(margin, inverse_scale as int),
        -(COORD_MAX * ONE) <= r <= COORD_MAX * ONE,
{
    proof {
        lemma_physical_margin_bounds(margin, inverse_scale as int);
    }
    match margin {
        Length::Px(v) => floor_div_wide((v as i128) * (ONE as i128), inverse_scale as i128),
        _ => 0,
    }
}

/// Computes the maximum scroll of an area from its content items.
///
/// Items that have not been laid out are skipped, and a margin that is not
/// absolute counts as zero. The result may be negative. It is an error only
/// where it cannot be held in an `i64`.
pub fn max_scroll(
    children: &Vec<ChildNode>,
    area: &ComputedBox,
    direction: ScrollbarDirection,
) -> (r: Result<i64, ScrollbarError>)
    requires
        all_wf(children@),
        area.wf(),
    ensures
        r == checked(max_scroll_of(children@, *area, direction)),
{
    let mut total: i128 = 0;
    let mut i: usize = 0;
    while i < children.len()
        invariant
            i <= children.len(),
            all_wf(children@),
            total == content_extent(children@.take(i as int), direction),
            -(i * EXTENT_MAX) <= total <= i * EXTENT_MAX,
        decreases children.len() - i,
    {
        let e: i64 = extent_of_child(&children[i], direction);
        proof {
            lemma_child_extent_bounds(children@[i as int], direction);
            assert(children@.take(i + 1).drop_last() =~= children@.take(i as int));
            assert(children@.take(i + 1).last() == children@[i as int]);
        }
        total = total + e as i128;
        i = i + 1;
    }
    proof {
        assert(children@.take(i as int) =~= children@);
    }
    let visible: i64 = scale(area.length(direction), area.inverse_scale);
    check(total - visible as i128)
}

} // verus!
