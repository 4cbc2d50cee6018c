use crate::address::Address;
use crate::derivation::{
    delegate_authority, delegate_label_bytes, delegate_of, seed_list, signer_seeds,
};
use vstd::prelude::*;

verus! {

/// The right to sign once as the delegate authority of a program. No key
/// stands behind it: it is made by deriving the delegate authority anew, and
/// the call that it authorizes takes it away.
#[derive(Debug)]
pub struct SigningCapability {
    program: Address,
    authority: Address,
    bump: u8,
}

impl SigningCapability {
    #[verifier::type_invariant]
    spec fn derived_anew(self) -> bool {
        delegate_of(self.program) == Some((self.authority, self.bump))
    }

    /// The program under whose identity the capability was made.
    pub closed spec fn program(self) -> Address {
        self.program
    }

    /// The delegate authority that the capability signs as.
    pub closed spec fn authority(self) -> Address {
        self.authority
    }

    /// The bump of the delegate authority.
    pub closed spec fn bump(self) -> u8 {
        self.bump
    }

    /// Derives the delegate authority of `program` and makes the capability
    /// to sign as it; `None` where no delegate authority can be derived.
    pub fn synthesize(program: &Address) -> (r: Option<SigningCapability>)
        ensures
            match delegate_of(*program) {
                Some((a, b)) => r is Some && r.unwrap().program() == *program
                    && r.unwrap().authority() == a && r.unwrap().bump() == b,
                None => r is None,
            },
    {
        match delegate_authority(program) {
            Some((authority, bump)) => Some(
                SigningCapability { program: *program, authority, bump },
            ),
            None => None,
        }
    }

    /// The program under whose identity the capability was made.
    pub fn issuer(&self) -> (p: Address)
        ensures
            p == self.program(),
    {
        self.program
    }

    /// The delegate authority that the capability signs as: the one that
    /// the derivation gives for the capability's program.
    pub fn signer(&self) -> (a: Address)
        ensures
            a == self.authority(),
            delegate_of(self.program()) == Some((a, self.bump())),
    {
        proof {
            use_type_invariant(self);
        }
        self.authority
    }

    /// The seeds that stand in for a signature: the delegate label, then the
    /// bump.
    pub fn seeds(&self) -> (v: Vec<Vec<u8>>)
        ensures
            seed_list(v@) == signer_seeds(self.bump()),
    {
        let mut v: Vec<Vec<u8>> = Vec::new();
        v.push(delegate_label_bytes());
        let mut last: Vec<u8> = Vec::new();
        last.push(self.bump);
        v.push(last);
        assert(seed_list(v@) =~= signer_seeds(self.bump()));
        v
    }
}

/// The delegate authority that a capability signs as, where there is one.
pub open spec fn signs_as(capability: Option<SigningCapability>) -> Option<Address> {
    match capability {
        Some(c) => Some(c.authority()),
        None => None,
    }
}

} // verus!
