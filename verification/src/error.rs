use vstd::prelude::*;

verus! {

/// A typed decode failure returned across the boundary.
///
/// Each variant identifies the decode stage that failed, so that a caller can
/// tell "wrong call order" apart from "corrupt data".
#[derive(Clone, PartialEq, Eq, Debug)]
pub enum DecodeError {
    /// The mesh codec rejected the byte stream as structurally invalid.
    CodecDecode { message: String },
    /// A child-sector decode was attempted against a root sector whose header
    /// carries no attribute table.
    MissingAttributes,
    /// The sector codec rejected the byte stream as structurally invalid.
    Parser { message: String },
}

impl DecodeError {
    /// A short description of the failed stage, for host-side reporting.
    pub fn describe(&self) -> (r: String)
        ensures
            self is MissingAttributes ==> r@ == "attributes missing on root sector"@,
            self matches DecodeError::CodecDecode { message } ==> r@ == message@,
            self matches DecodeError::Parser { message } ==> r@ == message@,
    {
        match self {
            DecodeError::CodecDecode { message } => message.clone(),
            DecodeError::MissingAttributes => "attributes missing on root sector".to_string(),
            DecodeError::Parser { message } => message.clone(),
        }
    }
}

} // verus!
