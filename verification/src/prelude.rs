//! The names that a host needs to set up scrollbars and to run the two
//! updates.

pub use crate::drag::{drag_scrollbar, DragEvent, WindowSize};
pub use crate::fixed::{COORD_MAX, ONE, SCALE_MAX};
pub use crate::geometry::{
    ChildNode, ComputedBox, Length, Margins, ScrollbarDirection, ScrollbarError,
};
pub use crate::scrollbar::{ScrollArea, ScrollOffset, Scrollbar, ThumbStyle, ThumbWidget};
pub use crate::synchronizer::{synchronize, update_scrollbars};
