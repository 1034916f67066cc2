//! The monitoring screen: what it shows and what its keys do.
//!
//! Terminal, processes, files and clocks are the caller's; here stand the rows that are drawn and
//! the decisions that are taken.

pub mod board;
pub mod board_pane;
pub mod feed;
pub mod launch;
pub mod monitor;
pub mod paint;
pub mod screen_laws;
pub mod setup;
pub mod setup_keys;
pub mod setup_pane;
pub mod stream_pane;
pub mod tick;
pub mod titles;

pub use stream_pane::{stream_lines, stream_scroll_y, stream_wrapped_row_count};
