//! A minimal GPU compute harness, split into a verified core and a thin shell.
//!
//! The core decides everything that can be decided on plain values: which
//! profile and entry point a shader stage uses, how a compiler outcome becomes
//! a binary or a diagnostic, how many workgroups cover an image, how a staging
//! buffer is laid out and unpacked, and how the result is encoded. Talking to
//! the compiler toolchain, the GPU and the file system is left to the caller.

pub mod compiler;
pub mod device;
pub mod dispatch;
pub mod failure;
pub mod image;
pub mod kernel;
pub mod pass;
pub mod readback;
pub mod renderer;
pub mod stage;
