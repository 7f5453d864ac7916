//! The executable operations of the governance-vault system.
//!
//! Each operation checks its preconditions before touching any record, so a
//! rejection leaves the state exactly as it was; on acceptance it updates the
//! records and returns the ledger mutations the host must perform atomically
//! with the update.

use vstd::prelude::*;
use crate::ledger::AccountRef;
use crate::ledger::Capability;
use crate::ledger::LabelRegistration;
use crate::ledger::LedgerOp;
use crate::math::mul_div_floor;
use crate::model::campaign_wf;
use crate::model::claim_burn_amount;
use crate::model::claim_payout;
use crate::model::claim_step;
use crate::model::claim_verdict;
use crate::model::deposit_step;
use crate::model::deposit_verdict;
use crate::model::find_user;
use crate::model::fresh_record;
use crate::model::has_user;
use crate::model::lemma_claim_step_wf;
use crate::model::lemma_elem_le_sum;
use crate::model::lemma_find_user;
use crate::model::lemma_find_user_at;
use crate::model::lemma_vote_step_wf;
use crate::model::sum_burned;
use crate::model::vote_step;
use crate::model::vote_verdict;
use crate::model::voted_record;
use crate::model::CampaignState;
use crate::model::VoteEvent;
use crate::state::AccountId;
use crate::state::ErrorCode;
use crate::state::GlobalState;
use crate::state::TokenMetadata;
use crate::state::UserVault;
use crate::state::Vault;

verus! {

/// A campaign held in memory: the vault record and the voter records that
/// exist for it, keyed by voter identity.
pub struct Campaign {
    pub vault: Vault,
    pub users: Vec<UserVault>,
}

impl View for Campaign {
    type V = CampaignState;

    open spec fn view(&self) -> CampaignState {
        CampaignState { vault: self.vault, users: self.users@ }
    }
}

/// The index of `user`'s record, as `model::find_user` names it.
fn find_index(users: &Vec<UserVault>, user: AccountId) -> (r: Option<usize>)
    ensures
        (match r {
            Some(i) => find_user(users@, user) == i && i < users@.len(),
            None => find_user(users@, user) < 0,
        }),
{
    let mut i: usize = 0;
    while i < users.len()
        invariant
            i <= users@.len(),
            forall|k: int| 0 <= k < i ==> users@[k].user != user,
        decreases users@.len() - i,
    {
        if users[i].user == user {
            proof {
                lemma_find_user_at(users@, user, i as int);
            }
            return Some(i);
        }
        i = i + 1;
    }
    proof {
        lemma_find_user(users@, user);
    }
    None
}

/// Creates the global registry and asks the metadata collaborator to label
/// the two base assets: the governance asset under the administrator's own
/// authority, the staked one under the registry's.
pub fn initialize(
    admin: AccountId,
    governance_token_mint: AccountId,
    st_governance_token_mint: AccountId,
    metadata: TokenMetadata,
    st_metadata: TokenMetadata,
) -> (r: (GlobalState, Vec<LabelRegistration>))
    ensures
        (r.0 == GlobalState { admin, governance_token_mint, st_governance_token_mint }),
        r.1@.len() == 2,
        r.1@[0].asset == governance_token_mint,
        r.1@[0].name@ == metadata.name@,
        r.1@[0].symbol@ == metadata.symbol@,
        r.1@[0].uri@ == metadata.uri@,
        r.1@[0].mint_authority == Capability::UserSig(admin),
        r.1@[1].asset == st_governance_token_mint,
        r.1@[1].name@ == st_metadata.name@,
        r.1@[1].symbol@ == st_metadata.symbol@,
        r.1@[1].uri@ == st_metadata.uri@,
        r.1@[1].mint_authority == Capability::RegistryAuthority,
{
    let global_state = GlobalState { admin, governance_token_mint, st_governance_token_mint };
    let mut labels: Vec<LabelRegistration> = Vec::new();
    labels.push(
        LabelRegistration {
            asset: governance_token_mint,
            name: metadata.name,
            symbol: metadata.symbol,
            uri: metadata.uri,
            mint_authority: Capability::UserSig(admin),
        },
    );
    labels.push(
        LabelRegistration {
            asset: st_governance_token_mint,
            name: st_metadata.name,
            symbol: st_metadata.symbol,
            uri: st_metadata.uri,
            mint_authority: Capability::RegistryAuthority,
        },
    );
    (global_state, labels)
}

/// Converts `amount` of the user's governance holding into the staked
/// variant, 1:1: the ledger burns the former under the user's signature and
/// mints the latter under the registry's authority. No cap and no time
/// limit; the ledger itself rejects an insufficient balance.
pub fn convert_to_st_governance(global_state: &GlobalState, user: AccountId, amount: u64) -> (ops:
    Vec<LedgerOp>)
    ensures
        ops@.len() == 2,
        (ops@[0] == LedgerOp::Burn {
            asset: global_state.governance_token_mint,
            from: AccountRef::User(user),
            amount,
            authority: Capability::UserSig(user),
        }),
        (ops@[1] == LedgerOp::Mint {
            asset: global_state.st_governance_token_mint,
            to: AccountRef::User(user),
            amount,
            authority: Capability::RegistryAuthority,
        }),
{
    let mut ops: Vec<LedgerOp> = Vec::new();
    ops.push(
        LedgerOp::Burn {
            asset: global_state.governance_token_mint,
            from: AccountRef::User(user),
            amount,
            authority: Capability::UserSig(user),
        },
    );
    ops.push(
        LedgerOp::Mint {
            asset: global_state.st_governance_token_mint,
            to: AccountRef::User(user),
            amount,
            authority: Capability::RegistryAuthority,
        },
    );
    ops
}

/// Creates a campaign: a fresh vault owned by the administrator, with the
/// base assets copied from the registry, a brand-new vote asset controlled
/// by the vault itself, zero totals, and the reward asset still unset. The
/// label for the vote asset goes to the metadata collaborator under the
/// vault's own authority. The host must only call this for a `vault_id` that
/// does not exist yet.
pub fn create_st_a_and_vault(
    global_state: &GlobalState,
    admin: AccountId,
    vault_id: u64,
    max_vote_cap: u128,
    deadline: i64,
    vote_token_mint: AccountId,
    metadata: TokenMetadata,
) -> (r: (Campaign, LabelRegistration))
    requires
        admin == global_state.admin,
    ensures
        (r.0.vault == Vault {
            owner: admin,
            governance_token_mint: global_state.governance_token_mint,
            vote_token_mint,
            project_token_mint: AccountId { id: 0 },
            convert_time: 0,
            total_burned: 0,
            total_deposited: 0,
            vault_id,
            max_vote_cap,
            deadline,
            st_governance_token_mint: global_state.st_governance_token_mint,
        }),
        r.0.users@.len() == 0,
        campaign_wf(r.0@),
        sum_burned(r.0@.users) == 0,
        r.1.asset == vote_token_mint,
        r.1.name@ == metadata.name@,
        r.1.symbol@ == metadata.symbol@,
        r.1.uri@ == metadata.uri@,
        r.1.mint_authority == Capability::VaultAuthority(vault_id),
{
    let vault = Vault {
        owner: admin,
        governance_token_mint: global_state.governance_token_mint,
        vote_token_mint,
        project_token_mint: AccountId { id: 0 },
        convert_time: 0,
        total_burned: 0,
        total_deposited: 0,
        vault_id,
        max_vote_cap,
        deadline,
        st_governance_token_mint: global_state.st_governance_token_mint,
    };
    let campaign = Campaign { vault, users: Vec::new() };
    let label = LabelRegistration {
        asset: vote_token_mint,
        name: metadata.name,
        symbol: metadata.symbol,
        uri: metadata.uri,
        mint_authority: Capability::VaultAuthority(vault_id),
    };
    (campaign, label)
}

/// Designates the reward asset and the claim-opening time. Only the vault's
/// owner may call it (the host authenticates); calling it again simply
/// overwrites the earlier configuration.
pub fn set_project_token(
    campaign: &mut Campaign,
    owner: AccountId,
    project_token_mint: AccountId,
    convert_time: i64,
)
    requires
        owner == old(campaign).vault.owner,
    ensures
        (final(campaign).vault == Vault {
            project_token_mint,
            convert_time,
            ..old(campaign).vault
        }),
        final(campaign).users@ == old(campaign).users@,
        campaign_wf(old(campaign)@) ==> campaign_wf(final(campaign)@),
{
    campaign.vault.project_token_mint = project_token_mint;
    campaign.vault.convert_time = convert_time;
}

/// Casts a vote: before the deadline, and within both the 128-bit range and
/// the campaign cap, the voter's record and the campaign total rise by
/// `amount`, the ledger burns `amount` staked governance under the user's
/// signature and mints `amount` vote tokens under the vault's own authority.
/// Any rejection leaves every record untouched.
pub fn vote(campaign: &mut Campaign, user: AccountId, now: i64, amount: u64) -> (r: Result<
    Vec<LedgerOp>,
    ErrorCode,
>)
    requires
        campaign_wf(old(campaign)@),
    ensures
        final(campaign)@ == vote_step(old(campaign)@, (VoteEvent { user, now, amount })),
        campaign_wf(final(campaign)@),
        (match r {
            Ok(ops) => {
                &&& vote_verdict(old(campaign)@, (VoteEvent { user, now, amount })) is Ok
                &&& ops@.len() == 2
                &&& ops@[0] == (LedgerOp::Burn {
                    asset: old(campaign).vault.st_governance_token_mint,
                    from: AccountRef::User(user),
                    amount,
                    authority: Capability::UserSig(user),
                })
                &&& ops@[1] == (LedgerOp::Mint {
                    asset: old(campaign).vault.vote_token_mint,
                    to: AccountRef::User(user),
                    amount,
                    authority: Capability::VaultAuthority(old(campaign).vault.vault_id),
                })
            },
            Err(e) => vote_verdict(old(campaign)@, (VoteEvent { user, now, amount }))
                == Err::<(), ErrorCode>(e),
        }),
{
    let ghost ev = VoteEvent { user, now, amount };
    if now >= campaign.vault.deadline {
        return Err(ErrorCode::VotingEnded);
    }
    let new_total = match campaign.vault.total_burned.checked_add(amount as u128) {
        Some(t) => t,
        None => {
            return Err(ErrorCode::VoteOverflow);
        },
    };
    if new_total > campaign.vault.max_vote_cap {
        return Err(ErrorCode::MaxVoteCapExceeded);
    }
    match find_index(&campaign.users, user) {
        Some(i) => {
            proof {
                lemma_find_user(old(campaign)@.users, user);
                lemma_elem_le_sum(old(campaign)@.users, i as int);
            }
            let prev = campaign.users[i];
            let updated = UserVault {
                user,
                vault: campaign.vault.vault_id,
                burned_amount: prev.burned_amount + amount as u128,
            };
            let elem = &mut campaign.users[i];
            *elem = updated;
            campaign.vault.total_burned = new_total;
            proof {
                assert(updated == voted_record(
                    old(campaign)@.users[i as int],
                    ev,
                    old(campaign)@.vault.vault_id,
                ));
                assert(campaign@.users =~= vote_step(old(campaign)@, ev).users);
                lemma_vote_step_wf(old(campaign)@, ev);
            }
        },
        None => {
            proof {
                lemma_find_user(old(campaign)@.users, user);
            }
            let created = UserVault {
                user,
                vault: campaign.vault.vault_id,
                burned_amount: amount as u128,
            };
            campaign.users.push(created);
            campaign.vault.total_burned = new_total;
            proof {
                assert(created == voted_record(
                    fresh_record(user, old(campaign)@.vault.vault_id),
                    ev,
                    old(campaign)@.vault.vault_id,
                ));
                assert(campaign@.users =~= vote_step(old(campaign)@, ev).users);
                lemma_vote_step_wf(old(campaign)@, ev);
            }
        },
    }
    let mut ops: Vec<LedgerOp> = Vec::new();
    ops.push(
        LedgerOp::Burn {
            asset: campaign.vault.st_governance_token_mint,
            from: AccountRef::User(user),
            amount,
            authority: Capability::UserSig(user),
        },
    );
    ops.push(
        LedgerOp::Mint {
            asset: campaign.vault.vote_token_mint,
            to: AccountRef::User(user),
            amount,
            authority: Capability::VaultAuthority(campaign.vault.vault_id),
        },
    );
    Ok(ops)
}

/// Deposits `amount` reward units into the vault's escrow: allowed to anyone
/// strictly before the claim-opening time, provided the running total stays
/// within 128 bits. The ledger transfers the reward asset from the depositor
/// into the vault's escrow under the depositor's signature.
pub fn deposit_project_tokens(
    campaign: &mut Campaign,
    depositor: AccountId,
    now: i64,
    amount: u64,
) -> (r: Result<Vec<LedgerOp>, ErrorCode>)
    ensures
        final(campaign).vault == deposit_step(old(campaign).vault, now, amount),
        final(campaign).users@ == old(campaign).users@,
        campaign_wf(old(campaign)@) ==> campaign_wf(final(campaign)@),
        (match r {
            Ok(ops) => {
                &&& deposit_verdict(old(campaign).vault, now, amount) is Ok
                &&& ops@.len() == 1
                &&& ops@[0] == (LedgerOp::Transfer {
                    asset: old(campaign).vault.project_token_mint,
                    from: AccountRef::User(depositor),
                    to: AccountRef::VaultEscrow(old(campaign).vault.vault_id),
                    amount,
                    authority: Capability::UserSig(depositor),
                })
            },
            Err(e) => deposit_verdict(old(campaign).vault, now, amount) == Err::<(), ErrorCode>(e),
        }),
{
    if now >= campaign.vault.convert_time {
        return Err(ErrorCode::DepositNotAllowed);
    }
    let new_deposited = match campaign.vault.total_deposited.checked_add(amount as u128) {
        Some(t) => t,
        None => {
            return Err(ErrorCode::DepositOverflow);
        },
    };
    campaign.vault.total_deposited = new_deposited;
    let mut ops: Vec<LedgerOp> = Vec::new();
    ops.push(
        LedgerOp::Transfer {
            asset: campaign.vault.project_token_mint,
            from: AccountRef::User(depositor),
            to: AccountRef::VaultEscrow(campaign.vault.vault_id),
            amount,
            authority: Capability::UserSig(depositor),
        },
    );
    Ok(ops)
}

/// Pays out a voter's pro-rata share of the deposited reward: from the
/// claim-opening time on, the ledger transfers
/// `floor(total_deposited * burned / total_burned)` reward units (clamped to
/// a transfer's range) from the escrow under the vault's authority, burns the
/// voter's vote tokens under their signature, and the voter's record is
/// zeroed. The campaign's all-time totals stay as they are, which is what
/// makes a second claim pay zero. The host resolves the record first, so the
/// caller must hold one.
pub fn claim_project_tokens(campaign: &mut Campaign, user: AccountId, now: i64) -> (r: Result<
    Vec<LedgerOp>,
    ErrorCode,
>)
    requires
        campaign_wf(old(campaign)@),
        has_user(old(campaign)@.users, user),
    ensures
        final(campaign)@ == claim_step(old(campaign)@, user, now),
        campaign_wf(final(campaign)@),
        final(campaign).vault == old(campaign).vault,
        (match r {
            Ok(ops) => {
                &&& claim_verdict(old(campaign).vault, now) is Ok
                &&& ops@.len() == 2
                &&& ops@[0] == (LedgerOp::Transfer {
                    asset: old(campaign).vault.project_token_mint,
                    from: AccountRef::VaultEscrow(old(campaign).vault.vault_id),
                    to: AccountRef::User(user),
                    amount: claim_payout(old(campaign)@, user) as u64,
                    authority: Capability::VaultAuthority(old(campaign).vault.vault_id),
                })
                &&& ops@[1] == (LedgerOp::Burn {
                    asset: old(campaign).vault.vote_token_mint,
                    from: AccountRef::User(user),
                    amount: claim_burn_amount(
                        old(campaign)@.users[find_user(old(campaign)@.users, user)].burned_amount,
                    ) as u64,
                    authority: Capability::UserSig(user),
                })
            },
            Err(e) => claim_verdict(old(campaign).vault, now) == Err::<(), ErrorCode>(e),
        }),
{
    if now < campaign.vault.convert_time {
        return Err(ErrorCode::ClaimNotAvailable);
    }
    let i = match find_index(&campaign.users, user) {
        Some(i) => i,
        None => {
            proof {
                assert(false);
            }
            return Err(ErrorCode::ClaimNotAvailable);
        },
    };
    let record = campaign.users[i];
    let total = campaign.vault.total_burned;
    let deposited = campaign.vault.total_deposited;
    proof {
        lemma_elem_le_sum(old(campaign)@.users, i as int);
    }
    let payout: u128 = if total == 0 {
        0
    } else {
        mul_div_floor(deposited, record.burned_amount, total)
    };
    let claim_amount: u64 = if payout > u64::MAX as u128 {
        u64::MAX
    } else {
        payout as u64
    };
    let burn: u64 = if record.burned_amount > u64::MAX as u128 {
        u64::MAX
    } else {
        record.burned_amount as u64
    };
    let zeroed = UserVault { burned_amount: 0, ..record };
    let elem = &mut campaign.users[i];
    *elem = zeroed;
    proof {
        assert(claim_amount == claim_payout(old(campaign)@, user));
        assert(campaign@.users =~= claim_step(old(campaign)@, user, now).users);
        lemma_claim_step_wf(old(campaign)@, user, now);
    }
    let mut ops: Vec<LedgerOp> = Vec::new();
    ops.push(
        LedgerOp::Transfer {
            asset: campaign.vault.project_token_mint,
            from: AccountRef::VaultEscrow(campaign.vault.vault_id),
            to: AccountRef::User(user),
            amount: claim_amount,
            authority: Capability::VaultAuthority(campaign.vault.vault_id),
        },
    );
    ops.push(
        LedgerOp::Burn {
            asset: campaign.vault.vote_token_mint,
            from: AccountRef::User(user),
            amount: burn,
            authority: Capability::UserSig(user),
        },
    );
    Ok(ops)
}

} // verus!
