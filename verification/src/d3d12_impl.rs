//! The renderer for hosts that draw through command lists and a ring of
//! buffered frames.

pub mod buffer;
pub mod font;
pub mod init;
pub mod state;
