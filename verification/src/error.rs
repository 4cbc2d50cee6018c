use vstd::prelude::*;

verus! {

/// Why an operation was rejected. Every rejection aborts the whole operation
/// and leaves the ledger as it was.
#[derive(Clone, Copy, Debug, PartialEq, Eq, Structural)]
pub enum Error {
    /// A supplied account is not at its recomputed address, or its recorded
    /// owner or asset is not the one the operation expects.
    AuthorityBindingViolation,
    /// The source holding account does not hold the unit.
    InsufficientBalance,
    /// An account that was to be created exists already, bound otherwise.
    AlreadyInitializedMismatched,
    /// The custody or the registry module refused the call.
    ExternalModuleRejection,
    /// No address can be derived from the seeds under the namespace.
    DerivationFailed,
}

impl Error {
    /// A short description of the rejection.
    pub fn describe(&self) -> (s: &'static str)
        ensures
            s@ == match *self {
                Error::AuthorityBindingViolation => "authority binding violation"@,
                Error::InsufficientBalance => "insufficient balance"@,
                Error::AlreadyInitializedMismatched => "already initialized with other bindings"@,
                Error::ExternalModuleRejection => "external module rejection"@,
                Error::DerivationFailed => "address derivation failed"@,
            },
    {
        match self {
            Error::AuthorityBindingViolation => "authority binding violation",
            Error::InsufficientBalance => "insufficient balance",
            Error::AlreadyInitializedMismatched => "already initialized with other bindings",
            Error::ExternalModuleRejection => "external module rejection",
            Error::DerivationFailed => "address derivation failed",
        }
    }
}

} // verus!
