//! Identities, and the proof that a caller controls one.

use vstd::prelude::*;
use vstd::std_specs::cmp::PartialEqSpecImpl;
use crate::error::MessagingError;

verus! {

/// An identity: the principal that sends, receives or asks for a message.
///
/// Two identities are the same exactly when their keys are the same text.
#[derive(Debug)]
pub struct Address {
    key: String,
}

impl View for Address {
    type V = Seq<char>;

    closed spec fn view(&self) -> Seq<char> {
        self.key@
    }
}

impl Address {
    /// The identity with the given key.
    pub fn new(key: &str) -> (address: Address)
        ensures
            address@ == key@,
    {
        Address { key: key.to_owned() }
    }

    /// The key of this identity.
    pub fn as_str(&self) -> (key: &str)
        ensures
            key@ == self@,
    {
        self.key.as_str()
    }
}

impl Clone for Address {
    fn clone(&self) -> (copy: Address)
        ensures
            copy@ == self@,
    {
        Address { key: self.key.clone() }
    }
}

impl PartialEq for Address {
    fn eq(&self, other: &Address) -> (same: bool) {
        self.key == other.key
    }
}

impl Eq for Address {}

impl PartialEqSpecImpl for Address {
    open spec fn obeys_eq_spec() -> bool {
        true
    }

    open spec fn eq_spec(&self, other: &Address) -> bool {
        self@ == other@
    }
}

/// The identities of which the caller has proved control.
///
/// The ledger asks it before every gated operation; an identity that was not
/// approved fails the check, and the operation is refused.
#[derive(Debug)]
pub struct IdentityVerifier {
    proven: Vec<Address>,
}

impl View for IdentityVerifier {
    type V = Set<Seq<char>>;

    closed spec fn view(&self) -> Set<Seq<char>> {
        Set::new(
            |identity: Seq<char>|
                exists|i: int| 0 <= i < self.proven@.len() && self.proven@[i]@ == identity,
        )
    }
}

impl IdentityVerifier {
    /// Whether control of `identity` has been proved.
    pub open spec fn proves(&self, identity: Seq<char>) -> bool {
        self@.contains(identity)
    }

    /// A verifier to which nothing has been proved: every check fails.
    pub fn new() -> (verifier: IdentityVerifier)
        ensures
            verifier@ == Set::<Seq<char>>::empty(),
    {
        let verifier = IdentityVerifier { proven: Vec::new() };
        assert(verifier@ =~= Set::<Seq<char>>::empty());
        verifier
    }

    /// Records that the caller has proved control of `identity`.
    pub fn approve(&mut self, identity: Address)
        ensures
            final(self)@ == old(self)@.insert(identity@),
    {
        let ghost before = self.proven@;
        self.proven.push(identity);
        proof {
            let after = self.proven@;
            assert forall|id: Seq<char>| old(self)@.contains(id) implies final(self)@.contains(
                id,
            ) by {
                let i = choose|i: int| 0 <= i < before.len() && before[i]@ == id;
                assert(after[i]@ == id);
            }
            assert(after[before.len() as int]@ == identity@);
            assert(final(self)@ =~= old(self)@.insert(identity@));
        }
    }

    /// Checks the claim that the caller controls `identity`.
    pub fn verify(&self, identity: &Address) -> (outcome: Result<(), MessagingError>)
        ensures
            outcome == if self.proves(identity@) {
                Ok::<(), MessagingError>(())
            } else {
                Err::<(), MessagingError>(MessagingError::AuthenticationFailure)
            },
    {
        let mut i: usize = 0;
        while i < self.proven.len()
            invariant
                i <= self.proven@.len(),
                forall|j: int| 0 <= j < i ==> self.proven@[j]@ != identity@,
            decreases self.proven@.len() - i,
        {
            if self.proven[i] == *identity {
                return Ok(());
            }
            i += 1;
        }
        Err(MessagingError::AuthenticationFailure)
    }
}

} // verus!
