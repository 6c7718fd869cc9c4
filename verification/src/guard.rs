//! Who may call what.
//!
//! A player acts through a [`Signer`], which exists only for a caller whom the
//! host has authenticated. The callback that delivers a random value is open to
//! one identity alone, that of the randomness oracle: without this check any
//! caller could hand in a value of its choosing and decide the game.

use vstd::prelude::*;
use crate::error::ErrorMessage;

verus! {

/// The address of an account or of a program.
pub type Pubkey = [u8; 32];

/// An account as it is presented to an entry point: its address, and whether
/// the host found the call signed by it.
#[derive(Clone, Copy, Debug, PartialEq, Eq)]
pub struct Caller {
    pub key: Pubkey,
    pub is_signer: bool,
}

/// A caller whom the host has authenticated. The only way to a `Signer` is
/// [`Signer::authenticate`].
#[derive(Clone, Copy, Debug, PartialEq, Eq)]
pub struct Signer {
    key: Pubkey,
}

impl View for Signer {
    type V = Seq<u8>;

    /// The signer's address.
    closed spec fn view(&self) -> Seq<u8> {
        self.key@
    }
}

impl Signer {
    /// Admits `caller` as a signer if, and only if, the call is signed by it.
    pub fn authenticate(caller: &Caller) -> (r: Option<Signer>)
        ensures
            r is Some <==> caller.is_signer,
            r is Some ==> r.unwrap()@ == caller.key@,
    {
        if caller.is_signer {
            Some(Signer { key: caller.key })
        } else {
            None
        }
    }

    /// The signer's address.
    pub fn key(&self) -> (k: Pubkey)
        ensures
            k@ == self@,
    {
        self.key
    }
}

/// The caller is the oracle: the call is signed, and signed by the identity
/// that the oracle is known under.
pub open spec fn is_oracle(caller: Caller, oracle_identity: Pubkey) -> bool {
    caller.is_signer && caller.key@ == oracle_identity@
}

/// Whether two addresses are the same.
pub fn same_key(a: &Pubkey, b: &Pubkey) -> (same: bool)
    ensures
        same == (a@ == b@),
{
    let mut i: usize = 0;
    while i < 32
        invariant
            i <= 32,
            forall|j: int| 0 <= j < i ==> a@[j] == b@[j],
        decreases 32 - i,
    {
        if a[i] != b[i] {
            return false;
        }
        i = i + 1;
    }
    assert(a@ =~= b@);
    true
}

/// Lets the oracle pass and refuses every other caller.
pub fn check_oracle(caller: &Caller, oracle_identity: &Pubkey) -> (r: Result<(), ErrorMessage>)
    ensures
        r is Ok <==> is_oracle(*caller, *oracle_identity),
        r is Err ==> r == Err::<(), ErrorMessage>(ErrorMessage::UnauthorizedCallback),
{
    if caller.is_signer && same_key(&caller.key, oracle_identity) {
        Ok(())
    } else {
        Err(ErrorMessage::UnauthorizedCallback)
    }
}

} // verus!
