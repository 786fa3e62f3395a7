//! The closed set of failures, and the guard on sizes that cross the engine
//! boundary.

use vstd::prelude::*;

verus! {

/// Everything that can go wrong in a session.
///
/// An engine return code that is not a result is always mapped to one of
/// these; `InvalidInput` is raised before the engine is touched and carries
/// the reason.
#[derive(Debug)]
pub enum Error {
    /// The engine handed out no handle: its pool is exhausted or it refused
    /// the configuration.
    InitFailed,
    /// The engine could not encode the payload.
    EncodeFailed,
    /// The engine failed while decoding.
    DecodeFailed,
    /// The decoded payload does not fit the destination buffer.
    BufferTooSmall,
    /// An argument was rejected; the text says which and why.
    InvalidInput(&'static str),
}

impl Error {
    /// The one-line diagnostic of this error.
    pub open spec fn spec_message(&self) -> Seq<char> {
        match self {
            Error::InitFailed => "failed to initialize ggwave instance"@,
            Error::EncodeFailed => "failed to encode payload"@,
            Error::DecodeFailed => "failed to decode waveform"@,
            Error::BufferTooSmall => "payload buffer too small"@,
            Error::InvalidInput(msg) => msg@,
        }
    }

    /// Whether this is the rejection of an argument for the given reason.
    pub open spec fn rejects(&self, reason: Seq<char>) -> bool {
        self matches Error::InvalidInput(msg) && msg@ == reason
    }

    /// Renders the diagnostic as an owned string.
    pub fn message(&self) -> (s: String)
        ensures
            s@ == self.spec_message(),
    {
        match self {
            Error::InitFailed => "failed to initialize ggwave instance".to_owned(),
            Error::EncodeFailed => "failed to encode payload".to_owned(),
            Error::DecodeFailed => "failed to decode waveform".to_owned(),
            Error::BufferTooSmall => "payload buffer too small".to_owned(),
            Error::InvalidInput(msg) => (*msg).to_owned(),
        }
    }
}

/// The size `value` as the engine's 32-bit signed size field.
///
/// Succeeds exactly when `value` fits; otherwise the input is rejected with
/// `context` as the reason.
pub fn to_c_int(value: usize, context: &'static str) -> (r: Result<i32, Error>)
    ensures
        value <= i32::MAX ==> (r matches Ok(n) && n == value),
        value > i32::MAX ==> (r matches Err(e) && e.rejects(context@)),
{
    match i32::try_from(value) {
        Ok(n) => Ok(n),
        Err(_) => Err(Error::InvalidInput(context)),
    }
}

} // verus!
