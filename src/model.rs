use vstd::prelude::*;

verus! {

/// One resolved address, with its family: 4 for IPv4, 6 for IPv6.
#[derive(Clone, Debug, PartialEq, Eq)]
pub struct AddressResponse {
    pub address: String,
    pub family: i32,
}

/// The record type of one entry of a resolver's answer.
#[derive(Clone, Copy, Debug, PartialEq, Eq, Structural)]
pub enum RecordKind {
    /// An IPv4 address record.
    A,
    /// An IPv6 address record.
    Aaaa,
    /// Any other record type, by its numeric code.
    Other(u16),
}

/// One entry of a resolver's answer, in the order the resolver gave it:
/// its record type and its presentation text.
#[derive(Clone, Debug, PartialEq, Eq)]
pub struct RawRecord {
    pub kind: RecordKind,
    pub text: String,
}

/// Whether a lookup wants the first address only or every address.
#[derive(Clone, Copy, Debug, PartialEq, Eq, Structural)]
pub enum Mode {
    Single,
    All,
}

/// The shaped result of a successful resolution.
#[derive(Clone, Debug, PartialEq, Eq)]
pub enum Outcome {
    /// The first address of the answer, or `None` when the answer was empty.
    One(Option<AddressResponse>),
    /// Every address of the answer, in answer order.
    Many(Vec<AddressResponse>),
}

/// Why a lookup failed; each variant carries a human-readable cause.
#[derive(Clone, Debug, PartialEq, Eq)]
pub enum LookupError {
    /// The hostname is not a valid domain name.
    InvalidHostname(String),
    /// The shared resolver or its execution context could not be built.
    ResolverUnavailable(String),
    /// The resolver could not answer (timeout, negative answer, network).
    ResolutionFailed(String),
    /// The answer held a record that is neither an IPv4 nor an IPv6 address.
    UnsupportedAddressKind(String),
}

impl LookupError {
    /// The cause text carried by the error.
    pub fn message(&self) -> (r: &String)
        ensures
            r == match self {
                LookupError::InvalidHostname(m) => m,
                LookupError::ResolverUnavailable(m) => m,
                LookupError::ResolutionFailed(m) => m,
                LookupError::UnsupportedAddressKind(m) => m,
            },
    {
        match self {
            LookupError::InvalidHostname(m) => m,
            LookupError::ResolverUnavailable(m) => m,
            LookupError::ResolutionFailed(m) => m,
            LookupError::UnsupportedAddressKind(m) => m,
        }
    }
}

} // verus!
