//! The failure modes of a transition. A failed check aborts the whole
//! instruction: no partial mutation is ever visible, and the caller decides
//! whether to retry with different inputs. Authorization failures mean a
//! presented identity did not match a record's stored owner field; invariant
//! failures mean a structural precondition about record relationships did
//! not hold; aliasing failures mean the shared-cell access discipline was
//! violated while the handler ran.

use crate::cell::CellError;
use vstd::prelude::*;

verus! {

/// A presented identity does not equal the recorded owner or authority it
/// was checked against.
#[derive(Clone, Copy, Debug, PartialEq, Eq)]
pub enum AuthorizationError {
    /// Creating items: the depot authority is not the depot's owner.
    DepotSignerNotOwner,
    /// Transferring items: the first signer is not the old depot's owner.
    OldDepotOwnerMismatch,
    /// Transferring items: the second signer is not the new depot's owner.
    NewDepotOwnerMismatch,
    /// Updating items: the signer is not the items record's owner.
    OwnerMismatch,
}

impl AuthorizationError {
    /// The message the program reports for this failure.
    pub open spec fn spec_message(&self) -> Seq<char> {
        match self {
            AuthorizationError::DepotSignerNotOwner => "Depot signer is not the owner"@,
            AuthorizationError::OldDepotOwnerMismatch => "Old depot owner is not the owner of old depot"@,
            AuthorizationError::NewDepotOwnerMismatch => "New depot owner is not the owner of new depot"@,
            AuthorizationError::OwnerMismatch => "Owner is not the owner"@,
        }
    }

    /// The message the program reports for this failure.
    pub fn message(&self) -> (r: &'static str)
        ensures
            r@ == self.spec_message(),
    {
        match self {
            AuthorizationError::DepotSignerNotOwner => "Depot signer is not the owner",
            AuthorizationError::OldDepotOwnerMismatch => "Old depot owner is not the owner of old depot",
            AuthorizationError::NewDepotOwnerMismatch => "New depot owner is not the owner of new depot",
            AuthorizationError::OwnerMismatch => "Owner is not the owner",
        }
    }
}

/// A structural precondition about record relationships does not hold.
#[derive(Clone, Copy, Debug, PartialEq, Eq)]
pub enum InvariantError {
    /// Transferring items: the items record is not filed under the old depot.
    ItemsDepotMismatch,
    /// Transferring items: the old and the new depot are the same account.
    SelfTransfer,
}

impl InvariantError {
    /// The message the program reports for this failure.
    pub open spec fn spec_message(&self) -> Seq<char> {
        match self {
            InvariantError::ItemsDepotMismatch => "Old depot is not same as items depot"@,
            InvariantError::SelfTransfer => "Old depot is same as new depot"@,
        }
    }

    /// The message the program reports for this failure.
    pub fn message(&self) -> (r: &'static str)
        ensures
            r@ == self.spec_message(),
    {
        match self {
            InvariantError::ItemsDepotMismatch => "Old depot is not same as items depot",
            InvariantError::SelfTransfer => "Old depot is same as new depot",
        }
    }
}

/// Everything a transition can fail with. An error of any kind is fatal to
/// the instruction; the accounts it touched stay byte-for-byte unchanged.
#[derive(Clone, Copy, Debug, PartialEq, Eq)]
pub enum ProgramError {
    Authorization(AuthorizationError),
    Invariant(InvariantError),
    /// The shared-cell access discipline was violated. The verified
    /// instruction entry points prove this never escapes them.
    Aliasing(CellError),
}

} // verus!
