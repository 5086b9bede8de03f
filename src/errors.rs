use vstd::prelude::*;

verus! {

/// The failures that the operations of this library report.
#[derive(Debug, Clone, Copy, PartialEq, Eq, Structural)]
pub enum SessionIdError {
    /// The signature primitive rejected key bytes, signature bytes, or the
    /// verification itself.
    Signature,
    /// A fixed-size value could not be built from variable-length input: wrong
    /// byte count, invalid base64, or a wrong decoded size.
    Convert,
    /// A value that had to be present was absent.
    Required,
    /// The secure random source failed.
    Random,
}

} // verus!
