//! State, input handling, layout and drawing of a conversation rewind overlay.

pub mod answers;
pub mod app_state;
pub mod captions;
pub mod composer;
pub mod dispatch;
pub mod flow;
pub mod input;
pub mod laws;
pub mod layout;
pub mod overlay_list;
pub mod phase;
pub mod points;
pub mod render;
pub mod screen;
pub mod text;
pub mod theme;
pub mod transcript;
