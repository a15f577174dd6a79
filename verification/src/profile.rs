use vstd::prelude::*;

use crate::addr::{addr_eq, addr_to_vec, derive_spec, profile_tag, profile_tag_spec, user_tag,
    user_tag_spec};
use crate::errors::GumError;
use crate::events::{ProfileCreated, ProfileDeleted};
use crate::state::{Namespace, Profile, User};
use crate::store::Ledger;

verus! {

/// The canonical address and index of the user record carrying this salt.
pub open spec fn user_pda(u: User) -> Option<(Seq<u8>, u8)> {
    derive_spec(user_tag_spec(), seq![u.random_hash@])
}

/// The canonical address and index of the profile scoped to this namespace
/// and owning user address.
pub open spec fn profile_pda(ns: Namespace, user_address: Seq<u8>) -> Option<(Seq<u8>, u8)> {
    derive_spec(profile_tag_spec(), seq![ns.seed_spec(), user_address])
}

/// Whether the supplied user reference sits at its canonical derived address
/// under its stored derivation index.
pub open spec fn user_address_valid(user_address: Seq<u8>, u: User) -> bool {
    user_pda(u) == Some::<(Seq<u8>, u8)>((user_address, u.bump))
}

/// The outcome the authorization gate must have: `Ok` exactly when the
/// supplied user reference sits at its canonical derived address, the
/// claimed authority is the user's recorded authority, and - where a stored
/// profile-to-user reference is under check - that reference names the
/// supplied user. The checks run in that order and fail fast.
pub open spec fn authorize_check(
    profile_user: Option<Seq<u8>>,
    user_address: Seq<u8>,
    u: User,
    authority: Seq<u8>,
) -> Result<(), GumError> {
    match user_pda(u) {
        None => Err(GumError::DerivationExhausted),
        Some(v) => if !(v.0 == user_address && v.1 == u.bump) {
            Err(GumError::InvalidUserAddress)
        } else if u.authority@ != authority {
            Err(GumError::Unauthorized)
        } else {
            match profile_user {
                None => Ok(()),
                Some(pu) => if pu != user_address {
                    Err(GumError::ProfileUserMismatch)
                } else {
                    Ok(())
                },
            }
        },
    }
}

/// The outcome a create must have: the derived profile address and index on
/// success, or the first failing check's error. The checks run in order:
/// target derivation, address occupancy, then the authorization gate.
pub open spec fn create_check(
    m: Map<Seq<u8>, Profile>,
    ns: Namespace,
    user_address: Seq<u8>,
    u: User,
    authority: Seq<u8>,
) -> Result<(Seq<u8>, u8), GumError> {
    match profile_pda(ns, user_address) {
        None => Err(GumError::DerivationExhausted),
        Some(p) => if m.contains_key(p.0) {
            Err(GumError::AddressAlreadyInUse)
        } else {
            match authorize_check(None, user_address, u, authority) {
                Err(e) => Err(e),
                Ok(()) => Ok(p),
            }
        },
    }
}

/// The outcome a delete must have: the record to reclaim on success, or the
/// first failing check's error. The checks run in order: the record exists
/// and sits at its canonical derived address, then the authorization gate
/// with the stored user reference under check.
pub open spec fn delete_check(
    m: Map<Seq<u8>, Profile>,
    profile_address: Seq<u8>,
    user_address: Seq<u8>,
    u: User,
    authority: Seq<u8>,
) -> Result<Profile, GumError> {
    if !m.contains_key(profile_address) {
        Err(GumError::InvalidProfileAddress)
    } else {
        let p = m[profile_address];
        match profile_pda(p.namespace, p.user@) {
            None => Err(GumError::DerivationExhausted),
            Some(d) => if !(d.0 == profile_address && d.1 == p.bump) {
                Err(GumError::InvalidProfileAddress)
            } else {
                match authorize_check(Some(p.user@), user_address, u, authority) {
                    Err(e) => Err(e),
                    Ok(()) => Ok(p),
                }
            },
        }
    }
}

/// The records a create operation reads: the owning user, the address it is
/// claimed to sit at, and the authority that signed the call.
pub struct CreateProfile {
    pub user_address: [u8; 32],
    pub user: User,
    pub authority: [u8; 32],
}

/// The records a delete operation reads: the profile's address, the owning
/// user, the address it is claimed to sit at, and the signing authority.
pub struct DeleteProfile {
    pub profile_address: [u8; 32],
    pub user_address: [u8; 32],
    pub user: User,
    pub authority: [u8; 32],
}

/// Re-derive the canonical address of the user record from its salt.
fn derive_user_address(u: &User) -> (r: Result<([u8; 32], u8), GumError>)
    ensures
        match user_pda(*u) {
            Some(p) => r matches Ok(q) && q.0@ == p.0 && q.1 == p.1,
            None => r == Err::<([u8; 32], u8), GumError>(GumError::DerivationExhausted),
        },
{
    let tag = user_tag();
    let mut components: Vec<Vec<u8>> = Vec::new();
    components.push(addr_to_vec(&u.random_hash));
    let r = crate::addr::derive(&tag, &components);
    proof {
        assert(components.deep_view() =~~= seq![u.random_hash@]);
    }
    r
}

/// Re-derive the canonical address of the profile scoped to a namespace and
/// an owning user address.
fn derive_profile_address(ns: &Namespace, user_address: &[u8; 32]) -> (r: Result<
    ([u8; 32], u8),
    GumError,
>)
    ensures
        match profile_pda(*ns, user_address@) {
            Some(p) => r matches Ok(q) && q.0@ == p.0 && q.1 == p.1,
            None => r == Err::<([u8; 32], u8), GumError>(GumError::DerivationExhausted),
        },
{
    let tag = profile_tag();
    let mut components: Vec<Vec<u8>> = Vec::new();
    components.push(ns.seed_bytes());
    components.push(addr_to_vec(user_address));
    let r = crate::addr::derive(&tag, &components);
    proof {
        assert(components.deep_view() =~~= seq![ns.seed_spec(), user_address@]);
    }
    r
}

/// The authorization gate, shared by create and delete: pure verification,
/// no side effects. Checks, in order, that the supplied user reference sits
/// at its canonical derived address under its stored index, that the claimed
/// authority is the user's recorded authority, and - where `profile_user`
/// carries a stored profile-to-user reference - that it names the supplied
/// user.
pub fn authorize(
    profile_user: Option<[u8; 32]>,
    user_address: &[u8; 32],
    user: &User,
    authority: &[u8; 32],
) -> (r: Result<(), GumError>)
    ensures
        r == authorize_check(
            match profile_user {
                None => None::<Seq<u8>>,
                Some(pu) => Some(pu@),
            },
            user_address@,
            *user,
            authority@,
        ),
{
    match derive_user_address(user) {
        Err(e) => Err(e),
        Ok((derived_address, derived_bump)) => {
            if !(addr_eq(&derived_address, user_address) && derived_bump == user.bump) {
                return Err(GumError::InvalidUserAddress);
            }
            if !addr_eq(&user.authority, authority) {
                return Err(GumError::Unauthorized);
            }
            match profile_user {
                None => Ok(()),
                Some(pu) => if !addr_eq(&pu, user_address) {
                    Err(GumError::ProfileUserMismatch)
                } else {
                    Ok(())
                },
            }
        },
    }
}

/// Create the profile for `(namespace, user)`: derive its address, check the
/// target is free, verify the ownership chain, then write the record and
/// report the `ProfileCreated` event. On any failure the ledger is left
/// exactly as it was and no event exists.
pub fn create_profile_handler(
    store: &mut Ledger,
    accounts: &CreateProfile,
    namespace: Namespace,
    now: i64,
) -> (r: Result<ProfileCreated, GumError>)
    requires
        old(store).wf(),
    ensures
        final(store).wf(),
        match r {
            Ok(ev) => {
                &&& create_check(
                    old(store)@,
                    namespace,
                    accounts.user_address@,
                    accounts.user,
                    accounts.authority@,
                ) matches Ok(p)
                &&& ev.profile@ == p.0
                &&& ev.bump == p.1
                &&& ev.namespace == namespace
                &&& ev.user == accounts.user_address
                &&& ev.timestamp == now
                &&& final(store)@ == old(store)@.insert(
                    p.0,
                    (Profile { namespace, bump: p.1, user: accounts.user_address }),
                )
            },
            Err(e) => {
                &&& create_check(
                    old(store)@,
                    namespace,
                    accounts.user_address@,
                    accounts.user,
                    accounts.authority@,
                ) == Err::<(Seq<u8>, u8), GumError>(e)
                &&& final(store)@ == old(store)@
            },
        },
{
    let derived = derive_profile_address(&namespace, &accounts.user_address);
    match derived {
        Err(e) => Err(e),
        Ok((profile_address, bump)) => {
            if store.contains(&profile_address) {
                return Err(GumError::AddressAlreadyInUse);
            }
            match authorize(None, &accounts.user_address, &accounts.user, &accounts.authority) {
                Err(e) => Err(e),
                Ok(()) => {
                    let profile = Profile { namespace, bump, user: accounts.user_address };
                    store.insert(profile_address, profile);
                    Ok(
                        ProfileCreated {
                            profile: profile_address,
                            bump,
                            namespace,
                            user: accounts.user_address,
                            timestamp: now,
                        },
                    )
                },
            }
        },
    }
}

/// Delete the profile at the given address: check it sits at its canonical
/// derived address, verify the ownership chain and the stored user
/// reference, then reclaim the record and report the `ProfileDeleted` event.
/// On any failure the ledger is left exactly as it was and no event exists.
pub fn delete_profile_handler(store: &mut Ledger, accounts: &DeleteProfile, now: i64) -> (r: Result<
    ProfileDeleted,
    GumError,
>)
    requires
        old(store).wf(),
    ensures
        final(store).wf(),
        match r {
            Ok(ev) => {
                &&& delete_check(
                    old(store)@,
                    accounts.profile_address@,
                    accounts.user_address@,
                    accounts.user,
                    accounts.authority@,
                ) matches Ok(p)
                &&& ev.profile == accounts.profile_address
                &&& ev.namespace == p.namespace
                &&& ev.user == accounts.user_address
                &&& ev.timestamp == now
                &&& final(store)@ == old(store)@.remove(accounts.profile_address@)
            },
            Err(e) => {
                &&& delete_check(
                    old(store)@,
                    accounts.profile_address@,
                    accounts.user_address@,
                    accounts.user,
                    accounts.authority@,
                ) == Err::<Profile, GumError>(e)
                &&& final(store)@ == old(store)@
            },
        },
{
    let loaded = store.get(&accounts.profile_address);
    match loaded {
        None => Err(GumError::InvalidProfileAddress),
        Some(profile) => {
            match derive_profile_address(&profile.namespace, &profile.user) {
                Err(e) => Err(e),
                Ok((derived_address, derived_bump)) => {
                    if !(addr_eq(&derived_address, &accounts.profile_address) && derived_bump
                        == profile.bump) {
                        return Err(GumError::InvalidProfileAddress);
                    }
                    match authorize(
                        Some(profile.user),
                        &accounts.user_address,
                        &accounts.user,
                        &accounts.authority,
                    ) {
                        Err(e) => Err(e),
                        Ok(()) => {
                            store.remove(&accounts.profile_address);
                            Ok(
                                ProfileDeleted {
                                    profile: accounts.profile_address,
                                    namespace: profile.namespace,
                                    user: accounts.user_address,
                                    timestamp: now,
                                },
                            )
                        },
                    }
                },
            }
        },
    }
}

/// At most one profile per `(namespace, user)` pair: once a create has
/// succeeded and its record occupies the derived address, a second create
/// for the same pair is rejected with `AddressAlreadyInUse`, whatever record
/// now sits there.
pub proof fn lemma_at_most_one_per_key(
    m: Map<Seq<u8>, Profile>,
    ns: Namespace,
    user_address: Seq<u8>,
    u: User,
    authority: Seq<u8>,
    pa: Seq<u8>,
    pb: u8,
    p: Profile,
)
    requires
        create_check(m, ns, user_address, u, authority) == Ok::<(Seq<u8>, u8), GumError>((pa, pb)),
    ensures
        create_check(m.insert(pa, p), ns, user_address, u, authority) == Err::<
            (Seq<u8>, u8),
            GumError,
        >(GumError::AddressAlreadyInUse),
{
}

/// Recreate after delete: once the profile at the derived address is
/// removed, a create for the same `(namespace, user)` pair succeeds again
/// and yields the identical address and the identical derivation index.
pub proof fn lemma_recreate_after_delete(
    m: Map<Seq<u8>, Profile>,
    ns: Namespace,
    user_address: Seq<u8>,
    u: User,
    authority: Seq<u8>,
    pa: Seq<u8>,
    pb: u8,
)
    requires
        profile_pda(ns, user_address) == Some::<(Seq<u8>, u8)>((pa, pb)),
        user_address_valid(user_address, u),
        u.authority@ == authority,
    ensures
        create_check(m.remove(pa), ns, user_address, u, authority) == Ok::<
            (Seq<u8>, u8),
            GumError,
        >((pa, pb)),
{
}

/// Authorization enforcement on create: with every other check passing, a
/// caller whose authority is not the user's recorded authority is rejected
/// with `Unauthorized`.
pub proof fn lemma_unauthorized_create(
    m: Map<Seq<u8>, Profile>,
    ns: Namespace,
    user_address: Seq<u8>,
    u: User,
    authority: Seq<u8>,
    pa: Seq<u8>,
    pb: u8,
)
    requires
        profile_pda(ns, user_address) == Some::<(Seq<u8>, u8)>((pa, pb)),
        !m.contains_key(pa),
        user_address_valid(user_address, u),
        authority != u.authority@,
    ensures
        create_check(m, ns, user_address, u, authority) == Err::<(Seq<u8>, u8), GumError>(
            GumError::Unauthorized,
        ),
{
}

/// Authorization enforcement on delete: with every other check passing, a
/// caller whose authority is not the user's recorded authority is rejected
/// with `Unauthorized`.
pub proof fn lemma_unauthorized_delete(
    m: Map<Seq<u8>, Profile>,
    profile_address: Seq<u8>,
    user_address: Seq<u8>,
    u: User,
    authority: Seq<u8>,
)
    requires
        m.contains_key(profile_address),
        profile_pda(m[profile_address].namespace, m[profile_address].user@) == Some::<
            (Seq<u8>, u8),
        >((profile_address, m[profile_address].bump)),
        user_address_valid(user_address, u),
        authority != u.authority@,
    ensures
        delete_check(m, profile_address, user_address, u, authority) == Err::<Profile, GumError>(
            GumError::Unauthorized,
        ),
{
}

/// Cross-mismatch rejection: deleting a profile whose stored user reference
/// differs from the supplied user fails with `ProfileUserMismatch`, even
/// when the caller's chain for that other user is otherwise valid.
pub proof fn lemma_user_mismatch_rejected(
    m: Map<Seq<u8>, Profile>,
    profile_address: Seq<u8>,
    user_address: Seq<u8>,
    u: User,
    authority: Seq<u8>,
)
    requires
        m.contains_key(profile_address),
        profile_pda(m[profile_address].namespace, m[profile_address].user@) == Some::<
            (Seq<u8>, u8),
        >((profile_address, m[profile_address].bump)),
        user_address_valid(user_address, u),
        authority == u.authority@,
        m[profile_address].user@ != user_address,
    ensures
        delete_check(m, profile_address, user_address, u, authority) == Err::<Profile, GumError>(
            GumError::ProfileUserMismatch,
        ),
{
}

} // verus!
