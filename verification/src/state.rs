use vstd::prelude::*;

use crate::errors::GumError;

verus! {

/// The closed enumeration of contexts a profile can be scoped to. Its seed
/// bytes are what the address derivation sees, so two namespaces with
/// distinct seed bytes can never share a profile address for one user.
#[derive(Clone, Copy, Debug, PartialEq, Eq, Structural)]
pub enum Namespace {
    Personal,
    Organization,
}

impl Namespace {
    /// The ASCII seed bytes of this namespace: `"personal"` or
    /// `"organization"`.
    pub open spec fn seed_spec(self) -> Seq<u8> {
        match self {
            Namespace::Personal => seq![112u8, 101u8, 114u8, 115u8, 111u8, 110u8, 97u8, 108u8],
            Namespace::Organization => seq![
                111u8,
                114u8,
                103u8,
                97u8,
                110u8,
                105u8,
                122u8,
                97u8,
                116u8,
                105u8,
                111u8,
                110u8,
            ],
        }
    }

    pub fn seed_bytes(&self) -> (r: Vec<u8>)
        ensures
            r@ == self.seed_spec(),
    {
        let mut v: Vec<u8> = Vec::new();
        match self {
            Namespace::Personal => {
                v.push(112u8);
                v.push(101u8);
                v.push(114u8);
                v.push(115u8);
                v.push(111u8);
                v.push(110u8);
                v.push(97u8);
                v.push(108u8);
            },
            Namespace::Organization => {
                v.push(111u8);
                v.push(114u8);
                v.push(103u8);
                v.push(97u8);
                v.push(110u8);
                v.push(105u8);
                v.push(122u8);
                v.push(97u8);
                v.push(116u8);
                v.push(105u8);
                v.push(111u8);
                v.push(110u8);
            },
        }
        proof {
            assert(v@ =~= self.seed_spec());
        }
        v
    }

    /// Read a namespace from its seed bytes. Bytes that name no namespace of
    /// the closed enumeration are rejected with `InvalidNamespace`.
    pub fn parse(bytes: &Vec<u8>) -> (r: Result<Namespace, GumError>)
        ensures
            bytes@ == Namespace::Personal.seed_spec() ==> r == Ok::<Namespace, GumError>(
                Namespace::Personal,
            ),
            bytes@ == Namespace::Organization.seed_spec() ==> r == Ok::<Namespace, GumError>(
                Namespace::Organization,
            ),
            bytes@ != Namespace::Personal.seed_spec() && bytes@
                != Namespace::Organization.seed_spec() ==> r == Err::<Namespace, GumError>(
                GumError::InvalidNamespace,
            ),
    {
        let personal = Namespace::Personal.seed_bytes();
        if crate::addr::bytes_eq(bytes, &personal) {
            return Ok(Namespace::Personal);
        }
        let organization = Namespace::Organization.seed_bytes();
        if crate::addr::bytes_eq(bytes, &organization) {
            return Ok(Namespace::Organization);
        }
        Err(GumError::InvalidNamespace)
    }
}

/// A user record: owned by the storage runtime, referenced and never mutated
/// here. Its canonical address is derived from the user tag and
/// `random_hash`, with `bump` the stored derivation index.
#[derive(Clone, Copy, Debug)]
pub struct User {
    /// Address of the credential that controls this user.
    pub authority: [u8; 32],
    /// Opaque uniqueness salt fixed at user creation.
    pub random_hash: [u8; 32],
    /// The derivation index under which the user's address was found.
    pub bump: u8,
}

/// A profile record: scoped to one namespace, referencing exactly one user.
/// Its canonical address is derived from the profile tag, the namespace seed
/// bytes and the owning user's address, with `bump` the stored derivation
/// index.
#[derive(Clone, Copy, Debug)]
pub struct Profile {
    pub namespace: Namespace,
    /// The derivation index under which the profile's address was found.
    pub bump: u8,
    /// Address of the user record this profile belongs to.
    pub user: [u8; 32],
}

} // verus!
