//! Verified core of an immediate-mode GUI overlay that is injected into a
//! running Direct3D application.
//!
//! Everything in this crate is plain data and decisions: which renderer a
//! process gets, how window messages become input events, how large the GPU
//! buffers must be, which device-context commands make up one overlay frame and
//! how the host's pipeline state is captured and put back afterwards.  The
//! embedding program performs the graphics and window-system calls that these
//! decisions ask for.

pub mod backend;
pub mod capacity;
pub mod config;
pub mod create_static;
pub mod d3d11_impl;
pub mod d3d12_impl;
pub mod discovery;
pub mod draw_data;
pub mod hresult;
pub mod registry;
pub mod types;
pub mod win32_impl;
