//! A small interpreter for a WebAssembly-like binary module format.
//!
//! [`Module::from_byte`] decodes a byte sequence into a [`Module`];
//! [`Instance::invoke`] runs one of its exported functions on a stack machine.
//! Floating-point values are carried as their bit patterns; arithmetic on them
//! is left to the caller of [`runtime::Runtime::step`].

pub mod decode;
pub mod from_le;
pub mod instance;
pub mod instruction;
pub mod module;
pub mod opcode;
pub mod runtime;
pub mod types;

pub use instance::Instance;
pub use module::Module;
pub use runtime::RuntimeError;
pub use runtime::RuntimeValue;
