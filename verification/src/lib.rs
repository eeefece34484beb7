//! Page logic of a small monster-taming game: touch handling, layout of the
//! touch areas that each screen registers, navigation state machines and the
//! turn logic of the battle screens.

pub mod geometry;
pub mod touch;
pub mod order;
pub mod element;
pub mod page;
pub mod random;
pub mod clock;
pub mod pages;
