use vstd::prelude::*;

verus! {

/// Every way a read can fail. No read returns a partial value.
#[derive(Debug, Clone, Copy, PartialEq, Eq)]
pub enum Error {
    /// The magic bytes at the start of the input did not match the format.
    InvalidHeader,
    /// A length-prefixed text field was not valid in its declared encoding.
    DecodeText(&'static str),
    /// A raw index value cannot be represented in the requested index type.
    IndexOverflow(i64),
    /// The input ended before the bytes that a field declares, or a text
    /// field declared a negative length, which no input can hold.
    UnexpectedEof,
}

} // verus!
