//! A line-oriented text editor core: the text buffer, the mapping between
//! text columns and screen columns, the scrolling viewport and the mode
//! state machine that turns key presses into buffer operations.

pub mod colorconfig;
pub mod config;
pub mod cursor;
pub mod dispatch;
pub mod editing;
pub mod keyconfig;
pub mod model;
pub mod navigate;
pub mod screen;
pub mod text;
pub mod viewer;
