//! The value stack that a single-pass WebAssembly compiler keeps while it
//! translates a function body, with the few decisions around it: turning
//! WebAssembly text into a binary module, and checking the settings the
//! compiler is built with.
//!
//! - [`val`]: the values the stack holds and their types.
//! - [`reg`]: physical registers.
//! - [`storage`]: the inline-first buffers behind the stack.
//! - [`mode_stack`]: which values are real and which virtual.
//! - [`stack`]: the stack itself, with its laws.
//! - [`wat2wasm`], [`explore`]: reading modules in text or binary form.
//! - [`builder`]: the settings the compiler accepts.
//! - [`error`]: the stack's errors.
pub mod error;
pub mod reg;
pub mod val;
pub mod storage;
pub mod mode_stack;
pub mod stack;
pub mod wat2wasm;
pub mod explore;
pub mod builder;
