pub mod codecs;
pub mod envelope;
pub mod errors;
pub mod lines;
pub mod output;

pub use envelope::{decode, encode};
pub use errors::EnvelopeError;
pub use output::with_trailing_newline;
