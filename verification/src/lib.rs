//! Scrollbar geometry for a retained-mode UI layout tree.
//!
//! A scrollbar thumb mirrors the scroll offset of a scroll area: every frame
//! the thumb is resized and repositioned from the area's content overflow, and
//! every drag of the thumb is projected back into a new scroll offset. All
//! lengths are fixed-point numbers (see [`fixed`]), so every rule of the
//! synchronisation is stated, and proved, over the integers.

pub mod fixed;
pub mod geometry;
pub mod max_scroll;
pub mod thumb;
pub mod scrollbar;
pub mod synchronizer;
pub mod drag;
pub mod prelude;
