use vstd::prelude::*;

use crate::state::Namespace;

verus! {

/// Emitted exactly once for every successful profile creation.
#[derive(Clone, Copy, Debug)]
pub struct ProfileCreated {
    /// The derived address the new profile was written to.
    pub profile: [u8; 32],
    /// The derivation index stored on the new profile.
    pub bump: u8,
    pub namespace: Namespace,
    /// The address of the owning user record.
    pub user: [u8; 32],
    pub timestamp: i64,
}

/// Emitted exactly once for every successful profile deletion.
#[derive(Clone, Copy, Debug)]
pub struct ProfileDeleted {
    /// The address the profile was removed from.
    pub profile: [u8; 32],
    pub namespace: Namespace,
    /// The address of the owning user record.
    pub user: [u8; 32],
    pub timestamp: i64,
}

} // verus!
