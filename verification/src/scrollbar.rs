//! The scrollbar widget: its state, and the record of everything that one
//! update of it reads and writes.

use vstd::prelude::*;
use crate::geometry::{ChildNode, ComputedBox, Length, ScrollbarDirection};
use crate::max_scroll::all_wf;

verus! {

/// The state of one scrollbar, attached to the thumb node.
#[derive(Clone, Copy, Debug, PartialEq, Eq, Structural)]
pub struct Scrollbar {
    /// The axis along which the scrollbar scrolls.
    pub direction: ScrollbarDirection,
    /// The handle of the scroll area in the host's store.
    pub scroll_area: u64,
    /// The maximum scroll that the last synchronisation found, in logical
    /// pixels; zero before the first. Synchronisation writes it and the drag
    /// handler reads it.
    pub max_scroll: i64,
}

impl Scrollbar {
    /// A scrollbar for the area `scroll_area`, with a maximum scroll of zero.
    pub fn new(direction: ScrollbarDirection, scroll_area: u64) -> (r: Scrollbar)
        ensures
            r == (Scrollbar { direction, scroll_area, max_scroll: 0 }),
    {
        Scrollbar { direction, scroll_area, max_scroll: 0 }
    }
}

/// The scroll offset of a scroll area, in logical pixels.
#[derive(Clone, Copy, Debug, PartialEq, Eq, Structural)]
pub struct ScrollOffset {
    pub x: i64,
    pub y: i64,
}

impl ScrollOffset {
    /// The offset along `direction`.
    pub open spec fn spec_along(&self, direction: ScrollbarDirection) -> i64 {
        match direction {
            ScrollbarDirection::Horizontal => self.x,
            ScrollbarDirection::Vertical => self.y,
        }
    }

    /// This offset with `value` along `direction`.
    pub open spec fn with_along(self, direction: ScrollbarDirection, value: i64) -> ScrollOffset {
        match direction {
            ScrollbarDirection::Horizontal => ScrollOffset { x: value, ..self },
            ScrollbarDirection::Vertical => ScrollOffset { y: value, ..self },
        }
    }

    /// The offset along `direction`.
    #[verifier::when_used_as_spec(spec_along)]
    pub fn along(&self, direction: ScrollbarDirection) -> (r: i64)
        ensures
            r == self.spec_along(direction),
    {
        match direction {
            ScrollbarDirection::Horizontal => self.x,
            ScrollbarDirection::Vertical => self.y,
        }
    }

    /// Writes the offset along `direction`.
    pub fn set_along(&mut self, direction: ScrollbarDirection, value: i64)
        ensures
            *final(self) == old(self).with_along(direction, value),
    {
        match direction {
            ScrollbarDirection::Horizontal => {
                self.x = value;
            },
            ScrollbarDirection::Vertical => {
                self.y = value;
            },
        }
    }
}

/// The declared size and position attributes of the thumb node.
///
/// The size along the scroll axis is a percentage of the track; the position
/// along it is an absolute pixel value.
#[derive(Clone, Copy, Debug, PartialEq, Eq, Structural)]
pub struct ThumbStyle {
    pub width: Length,
    pub height: Length,
    pub left: Length,
    pub top: Length,
}

impl ThumbStyle {
    /// The size attribute along `direction`: the width or the height.
    pub open spec fn spec_size(&self, direction: ScrollbarDirection) -> Length {
        match direction {
            ScrollbarDirection::Horizontal => self.width,
            ScrollbarDirection::Vertical => self.height,
        }
    }

    /// The position attribute along `direction`: the left or the top.
    pub open spec fn spec_position(&self, direction: ScrollbarDirection) -> Length {
        match direction {
            ScrollbarDirection::Horizontal => self.left,
            ScrollbarDirection::Vertical => self.top,
        }
    }

    /// This style with `value` as the size attribute along `direction`.
    pub open spec fn with_size(self, direction: ScrollbarDirection, value: Length) -> ThumbStyle {
        match direction {
            ScrollbarDirection::Horizontal => ThumbStyle { width: value, ..self },
            ScrollbarDirection::Vertical => ThumbStyle { height: value, ..self },
        }
    }

    /// This style with `value` as the position attribute along `direction`.
    pub open spec fn with_position(
        self,
        direction: ScrollbarDirection,
        value: Length,
    ) -> ThumbStyle {
        match direction {
            ScrollbarDirection::Horizontal => ThumbStyle { left: value, ..self },
            ScrollbarDirection::Vertical => ThumbStyle { top: value, ..self },
        }
    }

    /// The size attribute along `direction`.
    #[verifier::when_used_as_spec(spec_size)]
    pub fn size(&self, direction: ScrollbarDirection) -> (r: Length)
        ensures
            r == self.spec_size(direction),
    {
        match direction {
            ScrollbarDirection::Horizontal => self.width,
            ScrollbarDirection::Vertical => self.height,
        }
    }

    /// The position attribute along `direction`.
    #[verifier::when_used_as_spec(spec_position)]
    pub fn position(&self, direction: ScrollbarDirection) -> (r: Length)
        ensures
            r == self.spec_position(direction),
    {
        match direction {
            ScrollbarDirection::Horizontal => self.left,
            ScrollbarDirection::Vertical => self.top,
        }
    }

    /// Writes the size attribute along `direction`.
    pub fn set_size(&mut self, direction: ScrollbarDirection, value: Length)
        ensures
            *final(self) == old(self).with_size(direction, value),
    {
        match direction {
            ScrollbarDirection::Horizontal => {
                self.width = value;
            },
            ScrollbarDirection::Vertical => {
                self.height = value;
            },
        }
    }

    /// Writes the position attribute along `direction`.
    pub fn set_position(&mut self, direction: ScrollbarDirection, value: Length)
        ensures
            *final(self) == old(self).with_position(direction, value),
    {
        match direction {
            ScrollbarDirection::Horizontal => {
                self.left = value;
            },
            ScrollbarDirection::Vertical => {
                self.top = value;
            },
        }
    }
}

/// A scroll area as one frame sees it.
#[derive(Debug)]
pub struct ScrollArea {
    /// The current scroll offset.
    pub offset: ScrollOffset,
    /// The resolved box of the area itself.
    pub computed: ComputedBox,
    /// The content items, in order.
    pub children: Vec<ChildNode>,
}

impl ScrollArea {
    /// The box and every content item are well formed.
    pub open spec fn wf(&self) -> bool {
        &&& self.computed.wf()
        &&& all_wf(self.children@)
    }

    /// Tests `wf`.
    pub fn is_wf(&self) -> (r: bool)
        ensures
            r == self.wf(),
    {
        if !self.computed.is_wf() {
            return false;
        }
        let mut i: usize = 0;
        while i < self.children.len()
            invariant
                i <= self.children.len(),
                forall|j: int| 0 <= j < i ==> (#[trigger] self.children@[j]).wf(),
            decreases self.children.len() - i,
        {
            if !self.children[i].is_wf() {
                return false;
            }
            i = i + 1;
        }
        true
    }
}

/// One scrollbar with everything that a frame or a drag reads and writes: the
/// widget state, the thumb node's attributes and box, and what the host found
/// behind the widget's two bindings.
#[derive(Debug)]
pub struct ThumbWidget {
    /// The widget state.
    pub scrollbar: Scrollbar,
    /// The declared attributes of the thumb node.
    pub style: ThumbStyle,
    /// The resolved box of the thumb node.
    pub computed: ComputedBox,
    /// The resolved box of the track, the thumb's parent; `None` where the
    /// thumb has no laid-out parent.
    pub track: Option<ComputedBox>,
    /// The scroll area; `None` where the handle names no scrollable node.
    pub area: Option<ScrollArea>,
}

impl ThumbWidget {
    /// The boxes of the thumb and the track and the scroll area are well
    /// formed.
    pub open spec fn wf(&self) -> bool {
        &&& self.computed.wf()
        &&& self.track matches Some(t) ==> t.wf()
        &&& self.area matches Some(a) ==> a.wf()
    }

    /// Tests `wf`.
    pub fn is_wf(&self) -> (r: bool)
        ensures
            r == self.wf(),
    {
        let track_ok = match &self.track {
            Some(t) => t.is_wf(),
            None => true,
        };
        let area_ok = match &self.area {
            Some(a) => a.is_wf(),
            None => true,
        };
        self.computed.is_wf() && track_ok && area_ok
    }
}

} // verus!
