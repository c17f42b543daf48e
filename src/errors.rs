use vstd::prelude::*;

verus! {

/// The failures of the streaming layer. Each one is fatal to the stream.
#[derive(Clone, Copy, Debug, PartialEq, Eq, Structural)]
pub enum Error {
    /// The unconsumed carry-over plus the new chunk do not fit the buffer.
    BufferCapacityExceeded,
    /// A text parsing mode switching start tag was seen in a context where
    /// its effect cannot be decided without full tree construction.
    TextParsingAmbiguity,
    /// Too many `<template>` elements are open inside a `<select>`.
    MaxTagNestingReached,
}

} // verus!
