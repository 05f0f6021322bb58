//! State of the screen on which shuffled packs are gone through: which packs
//! have been checked off and in what order they are shown, the zoom of the
//! display, and the configuration that is kept between sessions.

pub mod components;
pub mod config;
pub mod order;
pub mod pack;
pub mod text;
pub mod zoom;
