//! The records of the governance-vault system: the global registry, the
//! per-campaign vault, and the per-(vault, voter) record.

use vstd::prelude::*;

verus! {

/// A deterministic ledger address: an identity or an asset id. The host
/// derives these from namespaced seeds; the library only stores and compares
/// them.
#[derive(Clone, Copy, PartialEq, Eq, Structural, Debug, Hash)]
pub struct AccountId {
    pub id: u64,
}

/// The process-wide registry: the administrator and the two base assets.
/// Created once by `ops::initialize` and immutable thereafter.
#[derive(Clone, Copy, PartialEq, Eq, Structural, Debug)]
pub struct GlobalState {
    pub admin: AccountId,
    pub governance_token_mint: AccountId,
    pub st_governance_token_mint: AccountId,
}

/// One vote campaign. `project_token_mint` starts as the unset sentinel
/// (`AccountId { id: 0 }`) and `convert_time` as 0 until the owner configures
/// the reward asset and the claim-opening time.
#[derive(Clone, Copy, PartialEq, Eq, Structural, Debug)]
pub struct Vault {
    pub owner: AccountId,
    pub governance_token_mint: AccountId,
    pub vote_token_mint: AccountId,
    pub project_token_mint: AccountId,
    pub convert_time: i64,
    pub total_burned: u128,
    pub total_deposited: u128,
    pub vault_id: u64,
    pub max_vote_cap: u128,
    pub deadline: i64,
    pub st_governance_token_mint: AccountId,
}

/// One voter's record in one campaign: the cumulative amount of staked
/// governance this voter has burned there. `vault` is the campaign's id.
#[derive(Clone, Copy, PartialEq, Eq, Structural, Debug)]
pub struct UserVault {
    pub user: AccountId,
    pub vault: u64,
    pub burned_amount: u128,
}

/// Why an operation was rejected. Every rejection leaves all records
/// unchanged.
#[derive(Clone, Copy, PartialEq, Eq, Structural, Debug)]
pub enum ErrorCode {
    ClaimNotAvailable,
    VoteOverflow,
    DepositNotAllowed,
    DepositOverflow,
    VotingEnded,
    MaxVoteCapExceeded,
}

/// A human-readable label for a newly minted asset, handed on to the
/// metadata collaborator.
#[derive(Clone, Debug)]
pub struct TokenMetadata {
    pub name: String,
    pub symbol: String,
    pub uri: String,
}

} // verus!
