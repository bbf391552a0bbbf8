//! Coordination core of a podcast client: the view state machine that decides
//! which top-level screen is visible, the construct-only adapters that wrap
//! raw show and episode records for display, the ordered list models backing
//! the scrollable views, and the signal router that turns discrete interface
//! events into state transitions.

pub mod card;
pub mod episode;
pub mod episode_row;
pub mod list_model;
pub mod show;
pub mod window;
