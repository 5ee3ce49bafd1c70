use vstd::prelude::*;

verus! {

/// Why encoding or decoding an envelope failed.
#[derive(Clone, Copy, Debug, PartialEq, Eq, Structural)]
pub enum EnvelopeError {
    /// The text to decode had fewer than three lines.
    TooFewLines,
    /// The first line of the text was not the expected version header.
    InvalidHeader,
    /// The third line was not valid standard base64.
    InvalidPayload,
    /// The decoded payload was not a valid compressed text stream.
    InvalidStream,
    /// The compressor reported an error while producing the payload.
    CompressionFailed,
    /// The compressed payload is too large to be re-encoded as text.
    PayloadTooLarge,
}

impl EnvelopeError {
    /// A short description of the failure, suitable for error reporting.
    pub fn message(&self) -> (m: &'static str)
        ensures
            m@ == match *self {
                EnvelopeError::TooFewLines => "expected 3 lines"@,
                EnvelopeError::InvalidHeader => "invalid EC v1 header"@,
                EnvelopeError::InvalidPayload => "invalid base64 payload"@,
                EnvelopeError::InvalidStream => "invalid compressed stream"@,
                EnvelopeError::CompressionFailed => "compression failed"@,
                EnvelopeError::PayloadTooLarge => "payload too large"@,
            },
    {
        match *self {
            EnvelopeError::TooFewLines => "expected 3 lines",
            EnvelopeError::InvalidHeader => "invalid EC v1 header",
            EnvelopeError::InvalidPayload => "invalid base64 payload",
            EnvelopeError::InvalidStream => "invalid compressed stream",
            EnvelopeError::CompressionFailed => "compression failed",
            EnvelopeError::PayloadTooLarge => "payload too large",
        }
    }
}

} // verus!
