//! Streaming-safety building blocks of an incremental HTML tokenizer: a
//! fixed-capacity chunk buffer and a guard against ambiguous text parsing
//! mode switches.
pub mod ambiguity_guard;
pub mod buffer;
pub mod errors;
pub mod tag_name;

pub use ambiguity_guard::{AmbiguityGuard, State};
pub use buffer::Buffer;
pub use errors::Error;
