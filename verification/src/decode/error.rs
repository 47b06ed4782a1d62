use vstd::prelude::*;
use vstd::string::StringExecFns;

verus! {

/// Why a byte sequence is not a module.
#[derive(Clone, Copy, Debug, PartialEq, Eq, Structural)]
pub enum DecodeError {
    /// The input does not start with the four magic bytes.
    InvalidWasmFile,
    /// A variable-length integer runs over the width of its type.
    InvalidNumeric,
    /// A byte that has to be a fixed marker or a known tag is neither.
    Unexpected,
    /// The input ends before what it announces.
    IOError,
}

impl DecodeError {
    /// The text of the message, as a sequence of characters.
    pub open spec fn text(self) -> Seq<char> {
        match self {
            DecodeError::InvalidWasmFile => "invalid input file. not wasm file"@,
            DecodeError::InvalidNumeric => "invalid numeric"@,
            DecodeError::Unexpected => "unexpected byte"@,
            DecodeError::IOError => "io error: unexpected end of input"@,
        }
    }

    /// A message for people.
    pub fn message(&self) -> (r: String)
        ensures
            r@ == self.text(),
    {
        match self {
            DecodeError::InvalidWasmFile => String::from_str("invalid input file. not wasm file"),
            DecodeError::InvalidNumeric => String::from_str("invalid numeric"),
            DecodeError::Unexpected => String::from_str("unexpected byte"),
            DecodeError::IOError => String::from_str("io error: unexpected end of input"),
        }
    }
}

} // verus!
