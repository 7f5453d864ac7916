//! The mathematical model of a campaign and its laws.
//!
//! A campaign is a vault together with the voter records that exist for it.
//! The spec functions here say exactly what each operation decides and how it
//! changes the state; the executable operations in `ops` are proved to follow
//! them, and the proof functions at the end state the laws that hold of every
//! sequence of operations.

use vstd::prelude::*;
use vstd::arithmetic::div_mod::lemma_div_is_ordered;
use vstd::arithmetic::div_mod::lemma_div_multiples_vanish;
use crate::state::AccountId;
use crate::state::ErrorCode;
use crate::state::UserVault;
use crate::state::Vault;

verus! {

/// A campaign: the vault record and all voter records of that vault.
pub struct CampaignState {
    pub vault: Vault,
    pub users: Seq<UserVault>,
}

/// The sum of `burned_amount` over all voter records.
pub open spec fn sum_burned(users: Seq<UserVault>) -> int
    decreases users.len(),
{
    if users.len() == 0 {
        0
    } else {
        users[0].burned_amount + sum_burned(users.drop_first())
    }
}

/// The index of `user`'s record, or -1 if none exists.
pub open spec fn find_user(users: Seq<UserVault>, user: AccountId) -> int
    decreases users.len(),
{
    if users.len() == 0 {
        -1
    } else if users[0].user == user {
        0
    } else if find_user(users.drop_first(), user) < 0 {
        -1
    } else {
        find_user(users.drop_first(), user) + 1
    }
}

/// Whether `user` already has a record.
pub open spec fn has_user(users: Seq<UserVault>, user: AccountId) -> bool {
    find_user(users, user) >= 0
}

/// Each voter appears at most once, and every record points back at the
/// vault it belongs to.
pub open spec fn records_well_formed(c: CampaignState) -> bool {
    &&& forall|i: int, j: int|
        0 <= i < j < c.users.len() ==> c.users[i].user != c.users[j].user
    &&& forall|i: int| 0 <= i < c.users.len() ==> c.users[i].vault == c.vault.vault_id
}

/// The campaign invariant: the cap is respected, and the records never hold
/// more than the campaign total (they hold exactly the total until a claim
/// zeroes one of them).
pub open spec fn campaign_wf(c: CampaignState) -> bool {
    &&& c.vault.total_burned <= c.vault.max_vote_cap
    &&& sum_burned(c.users) <= c.vault.total_burned
    &&& records_well_formed(c)
}

/// One vote request: who, when, how much.
#[derive(Clone, Copy, PartialEq, Eq, Structural, Debug)]
pub struct VoteEvent {
    pub user: AccountId,
    pub now: i64,
    pub amount: u64,
}

/// A fresh record for a voter's first vote.
pub open spec fn fresh_record(user: AccountId, vault_id: u64) -> UserVault {
    UserVault { user, vault: vault_id, burned_amount: 0 }
}

/// `prev` after a vote of `e.amount`.
pub open spec fn voted_record(prev: UserVault, e: VoteEvent, vault_id: u64) -> UserVault {
    UserVault {
        user: e.user,
        vault: vault_id,
        burned_amount: (prev.burned_amount + e.amount) as u128,
    }
}

/// Whether a vote is accepted, and if not, why: closed campaigns reject
/// unconditionally, then the campaign total and the voter's record must both
/// stay within 128 bits, and the new total must stay within the cap.
pub open spec fn vote_verdict(c: CampaignState, e: VoteEvent) -> Result<(), ErrorCode> {
    if e.now >= c.vault.deadline {
        Err(ErrorCode::VotingEnded)
    } else if c.vault.total_burned + e.amount > u128::MAX {
        Err(ErrorCode::VoteOverflow)
    } else if c.vault.total_burned + e.amount > c.vault.max_vote_cap {
        Err(ErrorCode::MaxVoteCapExceeded)
    } else if has_user(c.users, e.user) && c.users[find_user(c.users, e.user)].burned_amount
        + e.amount > u128::MAX {
        Err(ErrorCode::VoteOverflow)
    } else {
        Ok(())
    }
}

/// The campaign after a vote: unchanged on rejection; on acceptance the
/// voter's record is created or incremented and the total rises by the same
/// amount.
pub open spec fn vote_step(c: CampaignState, e: VoteEvent) -> CampaignState {
    if vote_verdict(c, e) is Err {
        c
    } else {
        let i = find_user(c.users, e.user);
        let users = if i >= 0 {
            c.users.update(i, voted_record(c.users[i], e, c.vault.vault_id))
        } else {
            c.users.push(voted_record(fresh_record(e.user, c.vault.vault_id), e, c.vault.vault_id))
        };
        CampaignState {
            vault: Vault {
                total_burned: (c.vault.total_burned + e.amount) as u128,
                ..c.vault
            },
            users,
        }
    }
}

/// The campaign after a whole sequence of vote requests, applied in order.
pub open spec fn apply_votes(c: CampaignState, events: Seq<VoteEvent>) -> CampaignState
    decreases events.len(),
{
    if events.len() == 0 {
        c
    } else {
        apply_votes(vote_step(c, events[0]), events.drop_first())
    }
}

/// Whether a deposit is accepted: the window closes at the claim-opening
/// time, and the running total must stay within 128 bits.
pub open spec fn deposit_verdict(v: Vault, now: i64, amount: u64) -> Result<(), ErrorCode> {
    if now >= v.convert_time {
        Err(ErrorCode::DepositNotAllowed)
    } else if v.total_deposited + amount > u128::MAX {
        Err(ErrorCode::DepositOverflow)
    } else {
        Ok(())
    }
}

/// The vault after a deposit: unchanged on rejection, else the deposited
/// total rises by the amount.
pub open spec fn deposit_step(v: Vault, now: i64, amount: u64) -> Vault {
    if deposit_verdict(v, now, amount) is Err {
        v
    } else {
        Vault { total_deposited: (v.total_deposited + amount) as u128, ..v }
    }
}

/// Whether a claim is accepted: only from the claim-opening time on.
pub open spec fn claim_verdict(v: Vault, now: i64) -> Result<(), ErrorCode> {
    if now < v.convert_time {
        Err(ErrorCode::ClaimNotAvailable)
    } else {
        Ok(())
    }
}

/// The reward units a claim pays out: the voter's share of the deposit,
/// proportional to their share of all votes burned, rounded down and clamped
/// to what a ledger transfer can carry.
pub open spec fn payout_amount(deposited: u128, burned: u128, total: u128) -> int {
    if total == 0 {
        0
    } else if deposited * burned / (total as int) > u64::MAX {
        u64::MAX as int
    } else {
        deposited * burned / (total as int)
    }
}

/// The vote tokens a claim burns: the voter's whole burned amount, clamped
/// to what a ledger burn can carry.
pub open spec fn claim_burn_amount(burned: u128) -> int {
    if burned > u64::MAX {
        u64::MAX as int
    } else {
        burned as int
    }
}

/// What `user`'s claim pays out of campaign `c`.
pub open spec fn claim_payout(c: CampaignState, user: AccountId) -> int {
    let i = find_user(c.users, user);
    if i < 0 {
        0
    } else {
        payout_amount(c.vault.total_deposited, c.users[i].burned_amount, c.vault.total_burned)
    }
}

/// The campaign after a claim: the voter's record is zeroed; the vault, and
/// in particular its all-time totals, stay as they are.
pub open spec fn claim_step(c: CampaignState, user: AccountId, now: i64) -> CampaignState {
    let i = find_user(c.users, user);
    if claim_verdict(c.vault, now) is Err || i < 0 {
        c
    } else {
        CampaignState {
            vault: c.vault,
            users: c.users.update(i, UserVault { burned_amount: 0, ..c.users[i] }),
        }
    }
}

proof fn lemma_sum_nonneg(users: Seq<UserVault>)
    ensures
        sum_burned(users) >= 0,
    decreases users.len(),
{
    if users.len() > 0 {
        lemma_sum_nonneg(users.drop_first());
    }
}

proof fn lemma_sum_update(users: Seq<UserVault>, i: int, v: UserVault)
    requires
        0 <= i < users.len(),
    ensures
        sum_burned(users.update(i, v)) == sum_burned(users) - users[i].burned_amount
            + v.burned_amount,
    decreases users.len(),
{
    if i == 0 {
        assert(users.update(0, v).drop_first() =~= users.drop_first());
    } else {
        assert(users.update(i, v).drop_first() =~= users.drop_first().update(i - 1, v));
        lemma_sum_update(users.drop_first(), i - 1, v);
    }
}

proof fn lemma_sum_push(users: Seq<UserVault>, v: UserVault)
    ensures
        sum_burned(users.push(v)) == sum_burned(users) + v.burned_amount,
    decreases users.len(),
{
    if users.len() == 0 {
        assert(users.push(v).drop_first() =~= Seq::<UserVault>::empty());
        assert(users.push(v)[0] == v);
        assert(sum_burned(Seq::<UserVault>::empty()) == 0);
    } else {
        assert(users.push(v).drop_first() =~= users.drop_first().push(v));
        assert(users.push(v)[0] == users[0]);
        lemma_sum_push(users.drop_first(), v);
    }
}

/// No record holds more than the sum of all records.
pub proof fn lemma_elem_le_sum(users: Seq<UserVault>, i: int)
    requires
        0 <= i < users.len(),
    ensures
        users[i].burned_amount <= sum_burned(users),
    decreases users.len(),
{
    lemma_sum_nonneg(users.drop_first());
    if i > 0 {
        lemma_elem_le_sum(users.drop_first(), i - 1);
        lemma_sum_nonneg(users);
    }
}

/// What a found index means: the record there is the user's, and no earlier
/// record is.
pub proof fn lemma_find_user(users: Seq<UserVault>, user: AccountId)
    ensures
        find_user(users, user) >= 0 ==> {
            let i = find_user(users, user);
            &&& 0 <= i < users.len()
            &&& users[i].user == user
            &&& forall|k: int| 0 <= k < i ==> users[k].user != user
        },
        find_user(users, user) < 0 ==> forall|k: int|
            0 <= k < users.len() ==> users[k].user != user,
    decreases users.len(),
{
    if users.len() > 0 && users[0].user != user {
        lemma_find_user(users.drop_first(), user);
        let fd = find_user(users.drop_first(), user);
        if fd >= 0 {
            assert(users[fd + 1].user == user);
            assert forall|k: int| 0 <= k < fd + 1 implies users[k].user != user by {
                if k > 0 {
                    assert(users.drop_first()[k - 1] == users[k]);
                }
            }
        } else {
            assert forall|k: int| 0 <= k < users.len() implies users[k].user != user by {
                if k > 0 {
                    assert(users.drop_first()[k - 1] == users[k]);
                }
            }
        }
    }
}

/// The first match determines the index: if the record at `i` is the user's
/// and no earlier record is, then `find_user` returns `i`.
pub proof fn lemma_find_user_at(users: Seq<UserVault>, user: AccountId, i: int)
    requires
        0 <= i < users.len(),
        users[i].user == user,
        forall|k: int| 0 <= k < i ==> users[k].user != user,
    ensures
        find_user(users, user) == i,
    decreases users.len(),
{
    if i > 0 {
        lemma_find_user_at(users.drop_first(), user, i - 1);
    }
}

/// One vote keeps the campaign invariant. An accepted vote raises the sum of
/// the records and the campaign total by the same amount; a rejected one
/// changes nothing at all.
pub proof fn lemma_vote_step_wf(c: CampaignState, e: VoteEvent)
    requires
        campaign_wf(c),
    ensures
        campaign_wf(vote_step(c, e)),
        vote_step(c, e).vault.max_vote_cap == c.vault.max_vote_cap,
        vote_step(c, e).vault.vault_id == c.vault.vault_id,
        vote_verdict(c, e) is Ok ==> sum_burned(vote_step(c, e).users) == sum_burned(c.users)
            + e.amount && vote_step(c, e).vault.total_burned == c.vault.total_burned + e.amount,
        vote_verdict(c, e) is Err ==> vote_step(c, e) == c,
{
    if vote_verdict(c, e) is Ok {
        lemma_find_user(c.users, e.user);
        let i = find_user(c.users, e.user);
        let nu = vote_step(c, e).users;
        if i >= 0 {
            lemma_sum_update(c.users, i, voted_record(c.users[i], e, c.vault.vault_id));
            assert forall|x: int, y: int| 0 <= x < y < nu.len() implies nu[x].user != nu[y].user by {
                assert(c.users[x].user != c.users[y].user);
            }
        } else {
            lemma_sum_push(
                c.users,
                voted_record(fresh_record(e.user, c.vault.vault_id), e, c.vault.vault_id),
            );
            assert forall|x: int, y: int| 0 <= x < y < nu.len() implies nu[x].user != nu[y].user by {
                if y < c.users.len() {
                    assert(c.users[x].user != c.users[y].user);
                } else {
                    assert(c.users[x].user != e.user);
                }
            }
        }
    }
}

/// Cap invariant: however many votes are issued against a campaign, in
/// whatever order and whether they succeed or fail, the total burned never
/// exceeds the cap, and the cap itself never moves.
pub proof fn lemma_cap_invariant(c: CampaignState, events: Seq<VoteEvent>)
    requires
        campaign_wf(c),
    ensures
        campaign_wf(apply_votes(c, events)),
        apply_votes(c, events).vault.total_burned <= apply_votes(c, events).vault.max_vote_cap,
        apply_votes(c, events).vault.max_vote_cap == c.vault.max_vote_cap,
    decreases events.len(),
{
    if events.len() > 0 {
        lemma_vote_step_wf(c, events[0]);
        lemma_cap_invariant(vote_step(c, events[0]), events.drop_first());
    }
}

/// A vote that would push the total past the cap is rejected with
/// `MaxVoteCapExceeded` and leaves every record unchanged.
pub proof fn lemma_cap_rejection(c: CampaignState, e: VoteEvent)
    requires
        e.now < c.vault.deadline,
        c.vault.total_burned + e.amount <= u128::MAX,
        c.vault.total_burned + e.amount > c.vault.max_vote_cap,
    ensures
        vote_verdict(c, e) == Err::<(), ErrorCode>(ErrorCode::MaxVoteCapExceeded),
        vote_step(c, e) == c,
{
}

/// Conservation: after any sequence of votes, and before any claims, the sum
/// of the voters' burned amounts equals the campaign total.
pub proof fn lemma_conservation(c: CampaignState, events: Seq<VoteEvent>)
    requires
        campaign_wf(c),
        sum_burned(c.users) == c.vault.total_burned,
    ensures
        campaign_wf(apply_votes(c, events)),
        sum_burned(apply_votes(c, events).users) == apply_votes(c, events).vault.total_burned,
    decreases events.len(),
{
    if events.len() > 0 {
        lemma_vote_step_wf(c, events[0]);
        lemma_conservation(vote_step(c, events[0]), events.drop_first());
    }
}

/// Deadline gate: a vote at or after the deadline is rejected with
/// `VotingEnded` and leaves every record unchanged, whatever headroom the
/// cap still has.
pub proof fn lemma_deadline_gate(c: CampaignState, e: VoteEvent)
    requires
        e.now >= c.vault.deadline,
    ensures
        vote_verdict(c, e) == Err::<(), ErrorCode>(ErrorCode::VotingEnded),
        vote_step(c, e) == c,
{
}

/// A claim keeps the campaign invariant and never touches the vault record:
/// the all-time totals survive every claim.
pub proof fn lemma_claim_step_wf(c: CampaignState, user: AccountId, now: i64)
    requires
        campaign_wf(c),
    ensures
        campaign_wf(claim_step(c, user, now)),
        claim_step(c, user, now).vault == c.vault,
{
    let i = find_user(c.users, user);
    if claim_verdict(c.vault, now) is Ok && i >= 0 {
        lemma_find_user(c.users, user);
        lemma_sum_update(c.users, i, UserVault { burned_amount: 0, ..c.users[i] });
        lemma_sum_nonneg(c.users);
        let nu = claim_step(c, user, now).users;
        assert forall|x: int, y: int| 0 <= x < y < nu.len() implies nu[x].user != nu[y].user by {
            assert(c.users[x].user != c.users[y].user);
        }
    }
}

/// Double-claim immunity: once a claim has gone through, a second claim for
/// the same user finds a zeroed record, so it pays out zero and burns zero,
/// whenever it is issued.
pub proof fn lemma_double_claim(c: CampaignState, user: AccountId, now1: i64, now2: i64)
    requires
        campaign_wf(c),
        has_user(c.users, user),
        claim_verdict(c.vault, now1) is Ok,
    ensures
        ({
            let c1 = claim_step(c, user, now1);
            &&& has_user(c1.users, user)
            &&& claim_payout(c1, user) == 0
            &&& claim_burn_amount(c1.users[find_user(c1.users, user)].burned_amount) == 0
        }),
{
    let i = find_user(c.users, user);
    lemma_find_user(c.users, user);
    let c1 = claim_step(c, user, now1);
    assert forall|k: int| 0 <= k < i implies c1.users[k].user != user by {
        assert(c1.users[k] == c.users[k]);
    }
    lemma_find_user_at(c1.users, user, i);
    assert(c1.users[i].burned_amount == 0);
    if c1.vault.total_burned != 0 {
        assert(c1.vault.total_deposited * 0 == 0);
        assert(0int / c1.vault.total_burned as int == 0) by (nonlinear_arith)
            requires
                c1.vault.total_burned > 0,
        ;
    }
}

/// Anything that can happen to a campaign after its creation.
pub enum CampaignEvent {
    Vote(VoteEvent),
    ConfigureProject { project_token_mint: AccountId, convert_time: i64 },
    Deposit { now: i64, amount: u64 },
    Claim { user: AccountId, now: i64 },
}

/// The campaign after one event of any kind.
pub open spec fn campaign_event_step(c: CampaignState, e: CampaignEvent) -> CampaignState {
    match e {
        CampaignEvent::Vote(v) => vote_step(c, v),
        CampaignEvent::ConfigureProject { project_token_mint, convert_time } => CampaignState {
            vault: Vault { project_token_mint, convert_time, ..c.vault },
            users: c.users,
        },
        CampaignEvent::Deposit { now, amount } => CampaignState {
            vault: deposit_step(c.vault, now, amount),
            users: c.users,
        },
        CampaignEvent::Claim { user, now } => claim_step(c, user, now),
    }
}

/// The campaign after a whole lifecycle of events, applied in order.
pub open spec fn apply_events(c: CampaignState, events: Seq<CampaignEvent>) -> CampaignState
    decreases events.len(),
{
    if events.len() == 0 {
        c
    } else {
        apply_events(campaign_event_step(c, events[0]), events.drop_first())
    }
}

/// Whether a lifecycle contains no claim.
pub open spec fn no_claims(events: Seq<CampaignEvent>) -> bool {
    forall|i: int| 0 <= i < events.len() ==> !(events[i] is Claim)
}

/// The campaign invariant holds across any lifecycle: whatever mixture of
/// votes, configuration, deposits and claims is applied, in whatever order,
/// the total burned never exceeds the cap, the cap and the campaign id never
/// move, and as long as no claim has happened the records sum exactly to the
/// total burned.
pub proof fn lemma_lifecycle_invariant(c: CampaignState, events: Seq<CampaignEvent>)
    requires
        campaign_wf(c),
    ensures
        campaign_wf(apply_events(c, events)),
        apply_events(c, events).vault.total_burned <= apply_events(c, events).vault.max_vote_cap,
        apply_events(c, events).vault.max_vote_cap == c.vault.max_vote_cap,
        apply_events(c, events).vault.vault_id == c.vault.vault_id,
        sum_burned(c.users) == c.vault.total_burned && no_claims(events) ==> sum_burned(
            apply_events(c, events).users,
        ) == apply_events(c, events).vault.total_burned,
    decreases events.len(),
{
    if events.len() > 0 {
        let e = events[0];
        let c1 = campaign_event_step(c, e);
        match e {
            CampaignEvent::Vote(v) => {
                lemma_vote_step_wf(c, v);
            },
            CampaignEvent::ConfigureProject { .. } => {
            },
            CampaignEvent::Deposit { .. } => {
            },
            CampaignEvent::Claim { user, now } => {
                lemma_claim_step_wf(c, user, now);
            },
        }
        lemma_lifecycle_invariant(c1, events.drop_first());
        if no_claims(events) {
            assert forall|i: int|
                0 <= i < events.drop_first().len() implies !(events.drop_first()[i] is Claim) by {
                assert(events.drop_first()[i] == events[i + 1]);
            }
        }
    }
}

/// No single claim overdraws the escrow: a voter's payout never exceeds the
/// deposited total, because their burned amount never exceeds the campaign
/// total.
pub proof fn lemma_claim_payout_bounded(c: CampaignState, user: AccountId)
    requires
        campaign_wf(c),
    ensures
        0 <= claim_payout(c, user) <= c.vault.total_deposited,
{
    let i = find_user(c.users, user);
    lemma_find_user(c.users, user);
    if i >= 0 {
        lemma_elem_le_sum(c.users, i);
        let b = c.users[i].burned_amount as int;
        let t = c.vault.total_burned as int;
        let d = c.vault.total_deposited as int;
        if t != 0 {
            assert(b <= t);
            assert(d * b >= 0) by (nonlinear_arith)
                requires
                    d >= 0,
                    b >= 0,
            ;
            assert(d * b <= t * d) by (nonlinear_arith)
                requires
                    b <= t,
                    d >= 0,
                    b >= 0,
                    t >= 0,
            ;
            lemma_div_is_ordered(d * b, t * d, t);
            lemma_div_multiples_vanish(d, t);
            assert(d * b / t <= d);
            vstd::arithmetic::div_mod::lemma_div_pos_is_pos(d * b, t);
        }
    }
}

/// Deposit window: a deposit at or after the claim-opening time is rejected
/// with `DepositNotAllowed` and leaves the deposited total unchanged.
pub proof fn lemma_deposit_window(v: Vault, now: i64, amount: u64)
    requires
        now >= v.convert_time,
    ensures
        deposit_verdict(v, now, amount) == Err::<(), ErrorCode>(ErrorCode::DepositNotAllowed),
        deposit_step(v, now, amount) == v,
{
}

} // verus!
