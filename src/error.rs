use vstd::prelude::*;

verus! {

/// What can go wrong in a request that reaches the library.
#[derive(Clone, Copy, Debug, PartialEq, Eq, Structural)]
pub enum SignalError {
    /// The price source could not be reached, or did not answer in time.
    UpstreamUnavailable,
    /// The price source answered with something that is not a valid quote.
    UpstreamMalformed,
    /// The symbol is not one of the tracked symbols.
    UnknownSymbol,
    /// A webhook body could not be read.
    InvalidPayload,
    /// Nothing is known yet for the symbol.
    NotFound,
}

impl SignalError {
    /// Name of the error kind as it appears in a response body.
    pub open spec fn name(self) -> Seq<char> {
        match self {
            SignalError::UpstreamUnavailable => "UpstreamUnavailable"@,
            SignalError::UpstreamMalformed => "UpstreamMalformed"@,
            SignalError::UnknownSymbol => "UnknownSymbol"@,
            SignalError::InvalidPayload => "InvalidPayload"@,
            SignalError::NotFound => "NotFound"@,
        }
    }

    pub fn kind_name(&self) -> (r: &'static str)
        ensures
            r@ == self.name(),
    {
        match self {
            SignalError::UpstreamUnavailable => "UpstreamUnavailable",
            SignalError::UpstreamMalformed => "UpstreamMalformed",
            SignalError::UnknownSymbol => "UnknownSymbol",
            SignalError::InvalidPayload => "InvalidPayload",
            SignalError::NotFound => "NotFound",
        }
    }
}

} // verus!
