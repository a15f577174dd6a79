use vstd::prelude::*;

verus! {

/// Every way a profile create or delete can be rejected. Each operation
/// fails fast with one of these and leaves the ledger untouched.
#[derive(Clone, Copy, Debug, PartialEq, Eq, Structural)]
pub enum GumError {
    /// The supplied namespace bytes name no namespace of the closed enumeration.
    InvalidNamespace,
    /// A profile record already occupies the derived address.
    AddressAlreadyInUse,
    /// The user record does not sit at its canonical derived address.
    InvalidUserAddress,
    /// The profile record does not sit at its canonical derived address.
    InvalidProfileAddress,
    /// The claimed authority is not the authority recorded on the user.
    Unauthorized,
    /// The profile's stored user reference differs from the supplied user.
    ProfileUserMismatch,
    /// No valid derivation index exists within the search space.
    DerivationExhausted,
}

} // verus!
