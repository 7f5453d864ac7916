//! The interface to the ledger collaborator, as data.
//!
//! The library never mints, burns or transfers anything itself: each
//! operation returns the ledger mutations the host must perform, atomically
//! with the record update. An authority is a capability the host derives,
//! never raw key material.

use vstd::prelude::*;
use crate::state::AccountId;

verus! {

/// Who authorizes a ledger mutation.
#[derive(Clone, Copy, PartialEq, Eq, Structural, Debug)]
pub enum Capability {
    /// The named user's own signature.
    UserSig(AccountId),
    /// The signing capability the global registry derives for itself.
    RegistryAuthority,
    /// The signing capability the vault with this id derives for itself.
    VaultAuthority(u64),
}

/// A token account, addressed deterministically by its holder.
#[derive(Clone, Copy, PartialEq, Eq, Structural, Debug, Hash)]
pub enum AccountRef {
    /// The named user's account for the asset in question.
    User(AccountId),
    /// The escrow account owned by the vault with this id.
    VaultEscrow(u64),
}

/// One atomic ledger mutation.
#[derive(Clone, Copy, PartialEq, Eq, Structural, Debug)]
pub enum LedgerOp {
    Mint { asset: AccountId, to: AccountRef, amount: u64, authority: Capability },
    Burn { asset: AccountId, from: AccountRef, amount: u64, authority: Capability },
    Transfer {
        asset: AccountId,
        from: AccountRef,
        to: AccountRef,
        amount: u64,
        authority: Capability,
    },
}

/// A request to the metadata collaborator: attach this label to a newly
/// minted asset.
#[derive(Clone, Debug)]
pub struct LabelRegistration {
    pub asset: AccountId,
    pub name: String,
    pub symbol: String,
    pub uri: String,
    pub mint_authority: Capability,
}

} // verus!
