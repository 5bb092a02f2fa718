//! Per-instruction context: the trusted clock reading, the capability map of
//! auxiliary programs available to the instruction, and the wrapper pairing a
//! verified signer identity with that map. Signature verification itself is
//! the host's business; by the time these values reach the program, every
//! signer identity has already been proven to have signed the instruction.

use crate::identity::Identity;
use vstd::prelude::*;

verus! {

/// A reading of the ledger's trusted clock, taken once per instruction.
#[derive(Clone, Copy, Debug)]
pub struct Clock {
    /// Seconds since the epoch, as the ledger reports them.
    pub unix_timestamp: i64,
}

/// The well-known auxiliary programs an instruction may call. The set is
/// fixed per instruction, so it is a small record of optional capability
/// slots rather than a dynamic table; an instruction that creates accounts
/// carries the system program's identity, the others carry nothing.
#[derive(Clone, Copy, Debug)]
pub struct ProgramsMap {
    /// The account-creation (system) program, where the instruction uses it.
    pub system_program: Option<Identity>,
}

impl ProgramsMap {
    /// Look up the system program capability slot.
    pub fn get(&self) -> (r: Option<Identity>)
        ensures
            r == self.system_program,
    {
        self.system_program
    }
}

/// A value paired with the programs available to the instruction it came in
/// with.
#[derive(Clone, Copy, Debug)]
pub struct WithPrograms<A> {
    pub account: A,
    pub programs: ProgramsMap,
}

/// A verified signer: an identity the host has already confirmed signed the
/// instruction, together with the instruction's program capabilities.
pub type SignerAccount = WithPrograms<Identity>;

impl WithPrograms<Identity> {
    /// The verified identity this signer presented.
    pub fn key(&self) -> (k: Identity)
        ensures
            k == self.account,
    {
        self.account
    }
}

/// A freshly created, previously uninitialized account slot, with the bump
/// from the host's address derivation where one was produced.
#[derive(Clone, Copy, Debug)]
pub struct Empty<T> {
    pub account: T,
    pub bump: Option<u8>,
}

/// An account prepared for handing to an auxiliary program call, with the
/// flags and derivation seeds such a call carries.
#[derive(Clone, Debug)]
pub struct CpiAccount {
    pub account_identity: Identity,
    pub is_writable: bool,
    pub is_signer: bool,
    pub seeds: Option<Vec<Vec<u8>>>,
}

} // verus!
