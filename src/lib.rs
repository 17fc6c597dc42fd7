//! Screen and menu model for a small round watch display: what each screen
//! shows, where each touch control sits, and which action a tap selects.

pub mod geometry;
pub mod input;
pub mod controls;
pub mod text;
pub mod clock;
pub mod views;
pub mod details;
pub mod menu;
