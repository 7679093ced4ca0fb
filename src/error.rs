use vstd::prelude::*;

verus! {

/// A breach of the ownership contract between this layer and the native side.
#[derive(Debug, Clone, PartialEq, Eq)]
pub enum ProtocolViolation {
    /// The native side returned a null buffer together with this non-zero count.
    NullBufferWithCount(usize),
    /// The native side reported this negative model dimension.
    NegativeDimension(i32),
}

/// The text argument of an operation that could not be encoded.
#[derive(Debug, Clone, Copy, PartialEq, Eq, Structural)]
pub enum TextArgument {
    Path,
    Text,
    Word,
    WordA,
    WordB,
    WordC,
}

/// The failures that an operation of this layer reports to its caller.
#[derive(Debug, Clone, PartialEq, Eq)]
pub enum FastTextError {
    /// The native side could not create an engine: it reported this message,
    /// or (with `None`) it returned a null handle.
    Allocation(Option<String>),
    /// This text argument holds a nul byte at this byte offset, so it has no
    /// nul-terminated form.
    Encoding(TextArgument, usize),
    /// The native engine reported this error message.
    Native(String),
    /// The native side broke the buffer or dimension contract.
    Protocol(ProtocolViolation),
}

} // verus!
