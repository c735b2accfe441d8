//! Verified core of a bridge between a Java application and Android's native
//! window buffer queue.
//!
//! The native calls themselves are made outside this library. What is proved
//! here is what surrounds them: how a status code becomes an `io::Result`, how
//! a fence file descriptor is coded across the boundary, and in which order a
//! render pass issues its calls.

pub mod native_window;
pub mod render;
