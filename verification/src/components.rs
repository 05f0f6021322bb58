//! The parts of the screen.

pub mod pack_card;
pub mod pack_list;
