//! Adapters that let a dynamically typed dispatch table call statically typed
//! native functions through one uniform calling convention.
//!
//! A native function is registered once: the signature adapter wraps it into a
//! [`register::CallableFunction`] record holding the uniform entry point plus
//! type metadata.  At call time the record runs the constant-safety guard,
//! extracts each argument from the type-erased argument array, invokes the
//! native function exactly once, and wraps the result back into a
//! [`dynamic::Dynamic`] value.

pub mod dynamic;
pub mod error;
pub mod guard;
pub mod register;
pub mod sample_fns;
pub mod strutil;
