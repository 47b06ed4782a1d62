pub mod decoder;
pub mod error;
pub mod grammar;
pub mod roundtrip;

pub use decoder::decode;
pub use error::DecodeError;
