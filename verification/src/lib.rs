//! A dispatch-and-resource-lifecycle runtime for natively implemented ops.
//!
//! Ops are named units of native functionality. They are bundled into
//! extensions, registered (optionally through middleware) into an op table,
//! and dispatched by name against a per-session [`op_state::OpState`], which
//! owns the [`resources::ResourceTable`] of long-lived native handles.
//!
//! The library decides; it performs no I/O. An op that needs native work
//! returns a suspension that names the work, and a second function takes the
//! outcome of that work and finishes the op.

pub mod error;
pub mod cancel;
pub mod async_cell;
pub mod resources;
pub mod op_state;
pub mod ops;
pub mod middleware;
pub mod extensions;
pub mod runtime_modules;
pub mod ops_bin;
pub mod net;
pub mod signal;
pub mod command;
pub mod crypto;
pub mod webstorage;
pub mod webgpu;
pub mod plugin;
pub mod console;
pub mod webidl;
pub mod names;
pub mod virtual_fs;
pub mod extract;
pub mod napi;
