//! The plain values that the scrollbar rules read and write: the boxes that the
//! layout pass resolved, the declared attributes of a node, and the ways an
//! update can fail.

use vstd::prelude::*;
use crate::fixed::{fits_i64, in_coord_range, in_scale_range, narrow, COORD_MAX, SCALE_MAX};

verus! {

/// The axis along which a scrollbar scrolls its area.
#[derive(Clone, Copy, Debug, PartialEq, Eq, Structural)]
pub enum ScrollbarDirection {
    Vertical,
    Horizontal,
}

/// A declared geometry attribute of a node, tagged with its unit.
#[derive(Clone, Copy, Debug, PartialEq, Eq, Structural)]
pub enum Length {
    /// Any unit other than the two below (automatic, relative to the viewport).
    Unspecified,
    /// An absolute length in pixels.
    Px(i64),
    /// A percentage of the parent's length; `100.0` is the whole parent.
    Percent(i64),
}

/// Why the update of one scrollbar was abandoned.
#[derive(Clone, Copy, Debug, PartialEq, Eq, Structural)]
pub enum ScrollbarError {
    /// An attribute of the thumb does not carry the unit that the rules write.
    UnitMismatch,
    /// The scroll area or the track of the scrollbar is missing.
    MissingBinding,
    /// A length that the rules divide by is zero, or a range is empty.
    DegenerateGeometry,
    /// A value lies outside the range of the fixed-point numbers.
    OutOfRange,
}

/// A value as the rules report it: itself where it can be held in an `i64`,
/// and out of range where it cannot.
pub open spec fn checked(v: int) -> Result<i64, ScrollbarError> {
    if fits_i64(v) {
        Ok(v as i64)
    } else {
        Err(ScrollbarError::OutOfRange)
    }
}

/// Reports a wide value as an `i64`, or as out of range.
pub fn check(v: i128) -> (r: Result<i64, ScrollbarError>)
    ensures
        r == checked(v as int),
{
    match narrow(v) {
        Some(v) => Ok(v),
        None => Err(ScrollbarError::OutOfRange),
    }
}

/// The box of a node as the layout pass resolved it.
///
/// Sizes and paddings are in physical pixels; `inverse_scale` converts them to
/// logical pixels.
#[derive(Clone, Copy, Debug, PartialEq, Eq, Structural)]
pub struct ComputedBox {
    pub width: i64,
    pub height: i64,
    pub padding_left: i64,
    pub padding_right: i64,
    pub padding_top: i64,
    pub padding_bottom: i64,
    pub inverse_scale: i64,
}

impl ComputedBox {
    /// Every coordinate is within the supported range and the scale factor is
    /// positive and within its range.
    pub open spec fn wf(self) -> bool {
        &&& in_coord_range(self.width as int)
        &&& in_coord_range(self.height as int)
        &&& in_coord_range(self.padding_left as int)
        &&& in_coord_range(self.padding_right as int)
        &&& in_coord_range(self.padding_top as int)
        &&& in_coord_range(self.padding_bottom as int)
        &&& in_scale_range(self.inverse_scale as int)
    }

    /// The size of the box along `direction`.
    pub open spec fn spec_length(&self, direction: ScrollbarDirection) -> i64 {
        match direction {
            ScrollbarDirection::Horizontal => self.width,
            ScrollbarDirection::Vertical => self.height,
        }
    }

    /// The padding before the content along `direction`.
    pub open spec fn spec_leading_padding(&self, direction: ScrollbarDirection) -> i64 {
        match direction {
            ScrollbarDirection::Horizontal => self.padding_left,
            ScrollbarDirection::Vertical => self.padding_top,
        }
    }

    /// The padding after the content along `direction`.
    pub open spec fn spec_trailing_padding(&self, direction: ScrollbarDirection) -> i64 {
        match direction {
            ScrollbarDirection::Horizontal => self.padding_right,
            ScrollbarDirection::Vertical => self.padding_bottom,
        }
    }

    /// Builds a box from resolved values.
    ///
    /// A scale factor that is not positive is degenerate; any other value
    /// outside its range is reported as out of range.
    pub fn new(
        width: i64,
        height: i64,
        padding_left: i64,
        padding_right: i64,
        padding_top: i64,
        padding_bottom: i64,
        inverse_scale: i64,
    ) -> (r: Result<ComputedBox, ScrollbarError>)
        ensures
            r == Self::validated(
                (ComputedBox {
                    width,
                    height,
                    padding_left,
                    padding_right,
                    padding_top,
                    padding_bottom,
                    inverse_scale,
                }),
            ),
            r.is_ok() ==> r.unwrap().wf(),
    {
        let b = ComputedBox {
            width,
            height,
            padding_left,
            padding_right,
            padding_top,
            padding_bottom,
            inverse_scale,
        };
        if inverse_scale <= 0 {
            Err(ScrollbarError::DegenerateGeometry)
        } else if b.is_wf() {
            Ok(b)
        } else {
            Err(ScrollbarError::OutOfRange)
        }
    }

    /// What `new` returns for the fields of `b`.
    pub open spec fn validated(b: ComputedBox) -> Result<ComputedBox, ScrollbarError> {
        if b.inverse_scale <= 0 {
            Err(ScrollbarError::DegenerateGeometry)
        } else if b.wf() {
            Ok(b)
        } else {
            Err(ScrollbarError::OutOfRange)
        }
    }

    /// Tests `wf`.
    pub fn is_wf(&self) -> (r: bool)
        ensures
            r == self.wf(),
    {
        coord_ok(self.width) && coord_ok(self.height) && coord_ok(self.padding_left) && coord_ok(
            self.padding_right,
        ) && coord_ok(self.padding_top) && coord_ok(self.padding_bottom) && 0 < self.inverse_scale
            && self.inverse_scale <= SCALE_MAX
    }

    /// The size of the box along `direction`.
    #[verifier::when_used_as_spec(spec_length)]
    pub fn length(&self, direction: ScrollbarDirection) -> (r: i64)
        ensures
            r == self.spec_length(direction),
    {
        match direction {
            ScrollbarDirection::Horizontal => self.width,
            ScrollbarDirection::Vertical => self.height,
        }
    }

    /// The padding before the content along `direction`.
    #[verifier::when_used_as_spec(spec_leading_padding)]
    pub fn leading_padding(&self, direction: ScrollbarDirection) -> (r: i64)
        ensures
            r == self.spec_leading_padding(direction),
    {
        match direction {
            ScrollbarDirection::Horizontal => self.padding_left,
            ScrollbarDirection::Vertical => self.padding_top,
        }
    }

    /// The padding after the content along `direction`.
    #[verifier::when_used_as_spec(spec_trailing_padding)]
    pub fn trailing_padding(&self, direction: ScrollbarDirection) -> (r: i64)
        ensures
            r == self.spec_trailing_padding(direction),
    {
        match direction {
            ScrollbarDirection::Horizontal => self.padding_right,
            ScrollbarDirection::Vertical => self.padding_bottom,
        }
    }
}

/// Tests whether `v` is a coordinate within the supported range.
pub fn coord_ok(v: i64) -> (r: bool)
    ensures
        r == in_coord_range(v as int),
{
    -COORD_MAX <= v && v <= COORD_MAX
}

/// The declared margins of a node, one attribute per edge.
#[derive(Clone, Copy, Debug, PartialEq, Eq, Structural)]
pub struct Margins {
    pub left: Length,
    pub right: Length,
    pub top: Length,
    pub bottom: Length,
}

impl Margins {
    /// The margin before the node along `direction`.
    pub open spec fn spec_leading(&self, direction: ScrollbarDirection) -> Length {
        match direction {
            ScrollbarDirection::Horizontal => self.left,
            ScrollbarDirection::Vertical => self.top,
        }
    }

    /// The margin after the node along `direction`.
    pub open spec fn spec_trailing(&self, direction: ScrollbarDirection) -> Length {
        match direction {
            ScrollbarDirection::Horizontal => self.right,
            ScrollbarDirection::Vertical => self.bottom,
        }
    }

    /// The margin before the node along `direction`.
    #[verifier::when_used_as_spec(spec_leading)]
    pub fn leading(&self, direction: ScrollbarDirection) -> (r: Length)
        ensures
            r == self.spec_leading(direction),
    {
        match direction {
            ScrollbarDirection::Horizontal => self.left,
            ScrollbarDirection::Vertical => self.top,
        }
    }

    /// The margin after the node along `direction`.
    #[verifier::when_used_as_spec(spec_trailing)]
    pub fn trailing(&self, direction: ScrollbarDirection) -> (r: Length)
        ensures
            r == self.spec_trailing(direction),
    {
        match direction {
            ScrollbarDirection::Horizontal => self.right,
            ScrollbarDirection::Vertical => self.bottom,
        }
    }

    /// Margins without a pixel value on any edge.
    pub fn none() -> (r: Margins)
        ensures
            r == (Margins {
                left: Length::Unspecified,
                right: Length::Unspecified,
                top: Length::Unspecified,
                bottom: Length::Unspecified,
            }),
    {
        Margins {
            left: Length::Unspecified,
            right: Length::Unspecified,
            top: Length::Unspecified,
            bottom: Length::Unspecified,
        }
    }
}

/// Whether a margin, where it is a pixel value, is within the supported range.
pub open spec fn margin_in_range(margin: Length) -> bool {
    match margin {
        Length::Px(v) => in_coord_range(v as int),
        _ => true,
    }
}

/// Tests `margin_in_range`.
pub fn margin_ok(margin: Length) -> (r: bool)
    ensures
        r == margin_in_range(margin),
{
    match margin {
        Length::Px(v) => coord_ok(v),
        _ => true,
    }
}

/// One content item of a scroll area.
#[derive(Clone, Copy, Debug, PartialEq, Eq, Structural)]
pub struct ChildNode {
    /// The resolved box; `None` while the item has not been laid out.
    pub computed: Option<ComputedBox>,
    /// The declared margins, in logical pixels where they are absolute.
    pub margin: Margins,
}

impl ChildNode {
    /// The box, where there is one, is well formed and the pixel margins are
    /// within the supported range.
    pub open spec fn wf(self) -> bool {
        &&& self.computed matches Some(b) ==> b.wf()
        &&& margin_in_range(self.margin.left)
        &&& margin_in_range(self.margin.right)
        &&& margin_in_range(self.margin.top)
        &&& margin_in_range(self.margin.bottom)
    }

    /// Tests `wf`.
    pub fn is_wf(&self) -> (r: bool)
        ensures
            r == self.wf(),
    {
        let box_ok = match self.computed {
            Some(b) => b.is_wf(),
            None => true,
        };
        box_ok && margin_ok(self.margin.left) && margin_ok(self.margin.right) && margin_ok(
            self.margin.top,
        ) && margin_ok(self.margin.bottom)
    }
}

} // verus!
