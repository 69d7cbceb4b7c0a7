//! Socket bindings for a WebAssembly host runtime.
//!
//! Every socket operation in this crate is a thin translation step: a typed
//! value is marshalled into the exact scalar widths and buffer layouts a host
//! import function expects, the host is called, and the host's numeric result
//! is translated back. The host import surface itself is external; this
//! library builds each call as a [`host::HostCall`] value and interprets each
//! reply, so that the marshalling and the error translation are verified,
//! while the caller (outside this library) performs the actual import call.

pub mod host;
pub mod socket;
pub mod socket_wamr;
pub mod wire;
