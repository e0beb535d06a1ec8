//! Keyboard handling of the modal popups of a terminal music player: a
//! state machine from key sequences to new popup state and to an ordered
//! list of effects (backend requests, page navigation, clipboard copies).

pub mod line_input;
pub mod model;
pub mod ids;
pub mod list;
pub mod actions;
pub mod search;
pub mod create_playlist;
pub mod popup;
