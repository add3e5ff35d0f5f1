//! The renderer for hosts that draw through an immediate device context.

pub mod backup;
pub mod buffer;
pub mod context;
pub mod devices;
pub mod font;
pub mod init;
pub mod shader;
pub mod state;
pub mod textures;
