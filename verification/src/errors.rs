use vstd::prelude::*;

verus! {

/// Why no image identifier could be read out of the builder's output.
#[derive(Clone, Copy, Debug, PartialEq, Eq, Structural)]
pub enum ProtocolFailure {
    /// No line of the output carries the image-written marker.
    NoImage,
    /// A marker line exists, but no whitespace-delimited token of it carries
    /// the identifier prefix.
    MalformedReference,
}

/// The failures that abort one invocation of the tool.
#[derive(Clone, Copy, Debug, PartialEq, Eq, Structural)]
pub enum CoreError {
    /// A filesystem or process stream could not be read or written.
    Io,
    /// Bytes were not valid text, or text was not the structured form asked for.
    Encoding,
    /// The builder's output does not conform to the expected success marker.
    Protocol(ProtocolFailure),
    /// The builder's own diagnostic stream could not be read or decoded.
    BuilderFailed,
}

impl ProtocolFailure {
    /// The description that `message` returns, as a value.
    pub open spec fn message_spec(self) -> Seq<char> {
        match self {
            ProtocolFailure::NoImage => "no image produced"@,
            ProtocolFailure::MalformedReference => "malformed image reference"@,
        }
    }

    /// A fixed description of the failure.
    pub fn message(&self) -> (r: &'static str)
        ensures
            r@ == self.message_spec(),
    {
        match self {
            ProtocolFailure::NoImage => "no image produced",
            ProtocolFailure::MalformedReference => "malformed image reference",
        }
    }
}

impl CoreError {
    /// The description that `message` returns, as a value.
    pub open spec fn message_spec(self) -> Seq<char> {
        match self {
            CoreError::Io => "input/output failure"@,
            CoreError::Encoding => "invalid encoding"@,
            CoreError::Protocol(p) => p.message_spec(),
            CoreError::BuilderFailed => "builder output could not be read"@,
        }
    }

    /// A fixed description of the failure.
    pub fn message(&self) -> (r: &'static str)
        ensures
            r@ == self.message_spec(),
    {
        match self {
            CoreError::Io => "input/output failure",
            CoreError::Encoding => "invalid encoding",
            CoreError::Protocol(p) => p.message(),
            CoreError::BuilderFailed => "builder output could not be read",
        }
    }
}

} // verus!
