//! A single-line terminal prompt: an editable line with an insertion point,
//! the dispatch of key events onto it, and the screen operations that keep the
//! terminal in step with it, including when the line wraps.

pub mod line_buffer;
pub mod render;
pub mod dispatch;
pub mod session;
pub mod laws;
