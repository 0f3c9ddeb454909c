use vstd::prelude::*;

verus! {

/// What went wrong at the records provider, as the provider reports it.
#[derive(Clone, Debug, PartialEq, Eq)]
pub enum ProviderFault {
    Generic,
    Server,
    Decode,
    Parsing(String),
    ResourceMissing,
    MissingAuthentication,
    Authentication,
    Client,
    Network,
}

/// The error reported to callers: where the failure surfaced, with the
/// provider's own fault kept as its detail.
#[derive(Clone, Debug, PartialEq, Eq)]
pub enum Failure {
    /// The provider refused a username and password.
    Credential(ProviderFault),
    /// The provider refused an externally issued token.
    Token(ProviderFault),
    /// Any other provider call failed.
    Operation(ProviderFault),
}

impl Failure {
    /// True only for the uniform failure of resolutions, collections and logout.
    pub fn is_operation(&self) -> (r: bool)
        ensures
            r <==> self is Operation,
    {
        matches!(self, Failure::Operation(_))
    }

    /// The provider fault underneath this error.
    pub fn fault(&self) -> (r: &ProviderFault)
        ensures
            *r == match self {
                Failure::Credential(f) => f,
                Failure::Token(f) => f,
                Failure::Operation(f) => f,
            },
    {
        match self {
            Failure::Credential(f) => f,
            Failure::Token(f) => f,
            Failure::Operation(f) => f,
        }
    }
}

} // verus!
