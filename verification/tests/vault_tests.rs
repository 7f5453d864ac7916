use dao_voting::ledger::{AccountRef, Capability, LedgerOp};
use dao_voting::ops::{
    claim_project_tokens, convert_to_st_governance, create_st_a_and_vault,
    deposit_project_tokens, initialize, set_project_token, vote, Campaign,
};
use dao_voting::state::{AccountId, ErrorCode, TokenMetadata, UserVault, Vault};

fn meta(name: &str) -> TokenMetadata {
    TokenMetadata {
        name: String::from(name),
        symbol: String::from("SYM"),
        uri: String::from("https://example.invalid/meta.json"),
    }
}

fn acct(id: u64) -> AccountId {
    AccountId { id }
}

fn setup_campaign(max_vote_cap: u128, deadline: i64) -> Campaign {
    let (global_state, _labels) = initialize(acct(1), acct(10), acct(11), meta("GOV"), meta("stGOV"));
    let (campaign, _label) = create_st_a_and_vault(
        &global_state,
        acct(1),
        7,
        max_vote_cap,
        deadline,
        acct(20),
        meta("VOTE-7"),
    );
    campaign
}

#[test]
fn initialize_sets_registry_and_labels() {
    let (gs, labels) = initialize(acct(1), acct(10), acct(11), meta("GOV"), meta("stGOV"));
    assert_eq!(gs.admin, acct(1));
    assert_eq!(gs.governance_token_mint, acct(10));
    assert_eq!(gs.st_governance_token_mint, acct(11));
    assert_eq!(labels.len(), 2);
    assert_eq!(labels[0].asset, acct(10));
    assert_eq!(labels[0].name, "GOV");
    assert_eq!(labels[0].mint_authority, Capability::UserSig(acct(1)));
    assert_eq!(labels[1].asset, acct(11));
    assert_eq!(labels[1].name, "stGOV");
    assert_eq!(labels[1].mint_authority, Capability::RegistryAuthority);
}

#[test]
fn convert_emits_burn_then_mint() {
    let (gs, _) = initialize(acct(1), acct(10), acct(11), meta("GOV"), meta("stGOV"));
    let ops = convert_to_st_governance(&gs, acct(5), 250);
    assert_eq!(
        ops,
        vec![
            LedgerOp::Burn {
                asset: acct(10),
                from: AccountRef::User(acct(5)),
                amount: 250,
                authority: Capability::UserSig(acct(5)),
            },
            LedgerOp::Mint {
                asset: acct(11),
                to: AccountRef::User(acct(5)),
                amount: 250,
                authority: Capability::RegistryAuthority,
            },
        ]
    );
}

#[test]
fn create_vault_initial_state() {
    let (gs, _) = initialize(acct(1), acct(10), acct(11), meta("GOV"), meta("stGOV"));
    let (c, label) = create_st_a_and_vault(&gs, acct(1), 7, 1000, 110, acct(20), meta("VOTE-7"));
    assert_eq!(c.vault.owner, acct(1));
    assert_eq!(c.vault.governance_token_mint, acct(10));
    assert_eq!(c.vault.st_governance_token_mint, acct(11));
    assert_eq!(c.vault.vote_token_mint, acct(20));
    assert_eq!(c.vault.project_token_mint, acct(0));
    assert_eq!(c.vault.convert_time, 0);
    assert_eq!(c.vault.total_burned, 0);
    assert_eq!(c.vault.total_deposited, 0);
    assert_eq!(c.vault.vault_id, 7);
    assert_eq!(c.vault.max_vote_cap, 1000);
    assert_eq!(c.vault.deadline, 110);
    assert!(c.users.is_empty());
    assert_eq!(label.asset, acct(20));
    assert_eq!(label.name, "VOTE-7");
    assert_eq!(label.mint_authority, Capability::VaultAuthority(7));
}

#[test]
fn vote_succeeds_then_cap_rejects() {
    // Cap 1000, deadline T+10 with T = 100: 600 at T+1 passes, 500 more at
    // T+2 would reach 1100 and is rejected, leaving the total at 600.
    let mut c = setup_campaign(1000, 110);
    let a = acct(2);
    let r = vote(&mut c, a, 101, 600);
    assert!(r.is_ok());
    assert_eq!(c.vault.total_burned, 600);
    assert_eq!(c.users.len(), 1);
    assert_eq!(c.users[0].burned_amount, 600);
    let r2 = vote(&mut c, a, 102, 500);
    assert_eq!(r2, Err(ErrorCode::MaxVoteCapExceeded));
    assert_eq!(c.vault.total_burned, 600);
    assert_eq!(c.users[0].burned_amount, 600);
}

#[test]
fn vote_emits_burn_then_mint() {
    let mut c = setup_campaign(1000, 110);
    let ops = vote(&mut c, acct(2), 101, 600).unwrap();
    assert_eq!(
        ops,
        vec![
            LedgerOp::Burn {
                asset: acct(11),
                from: AccountRef::User(acct(2)),
                amount: 600,
                authority: Capability::UserSig(acct(2)),
            },
            LedgerOp::Mint {
                asset: acct(20),
                to: AccountRef::User(acct(2)),
                amount: 600,
                authority: Capability::VaultAuthority(7),
            },
        ]
    );
}

#[test]
fn vote_at_deadline_rejected() {
    // The deadline gate wins over any remaining cap headroom, and nothing
    // changes.
    let mut c = setup_campaign(1000, 110);
    let r = vote(&mut c, acct(2), 110, 1);
    assert_eq!(r, Err(ErrorCode::VotingEnded));
    assert_eq!(c.vault.total_burned, 0);
    assert!(c.users.is_empty());
    let r2 = vote(&mut c, acct(2), 500, 1);
    assert_eq!(r2, Err(ErrorCode::VotingEnded));
}

#[test]
fn vote_overflow_rejected() {
    let mut c = Campaign {
        vault: Vault {
            owner: acct(1),
            governance_token_mint: acct(10),
            vote_token_mint: acct(20),
            project_token_mint: acct(0),
            convert_time: 0,
            total_burned: u128::MAX,
            total_deposited: 0,
            vault_id: 7,
            max_vote_cap: u128::MAX,
            deadline: 110,
            st_governance_token_mint: acct(11),
        },
        users: Vec::new(),
    };
    let r = vote(&mut c, acct(2), 101, 1);
    assert_eq!(r, Err(ErrorCode::VoteOverflow));
    assert_eq!(c.vault.total_burned, u128::MAX);
}

#[test]
fn conservation_across_votes() {
    let mut c = setup_campaign(10_000, 110);
    let _ = vote(&mut c, acct(2), 101, 600).unwrap();
    let _ = vote(&mut c, acct(3), 102, 200).unwrap();
    let _ = vote(&mut c, acct(2), 103, 150).unwrap();
    let _ = vote(&mut c, acct(4), 104, 50).unwrap();
    let sum: u128 = c.users.iter().map(|u| u.burned_amount).sum();
    assert_eq!(sum, c.vault.total_burned);
    assert_eq!(c.vault.total_burned, 1000);
}

#[test]
fn set_project_token_overwrites() {
    let mut c = setup_campaign(1000, 110);
    set_project_token(&mut c, acct(1), acct(30), 200);
    assert_eq!(c.vault.project_token_mint, acct(30));
    assert_eq!(c.vault.convert_time, 200);
    set_project_token(&mut c, acct(1), acct(31), 300);
    assert_eq!(c.vault.project_token_mint, acct(31));
    assert_eq!(c.vault.convert_time, 300);
}

#[test]
fn deposit_before_open_transfers_into_escrow() {
    let mut c = setup_campaign(1000, 110);
    set_project_token(&mut c, acct(1), acct(30), 200);
    let ops = deposit_project_tokens(&mut c, acct(9), 150, 900).unwrap();
    assert_eq!(c.vault.total_deposited, 900);
    assert_eq!(
        ops,
        vec![LedgerOp::Transfer {
            asset: acct(30),
            from: AccountRef::User(acct(9)),
            to: AccountRef::VaultEscrow(7),
            amount: 900,
            authority: Capability::UserSig(acct(9)),
        }]
    );
}

#[test]
fn deposit_at_open_time_rejected() {
    let mut c = setup_campaign(1000, 110);
    set_project_token(&mut c, acct(1), acct(30), 200);
    let r = deposit_project_tokens(&mut c, acct(9), 200, 900);
    assert_eq!(r, Err(ErrorCode::DepositNotAllowed));
    assert_eq!(c.vault.total_deposited, 0);
    let r2 = deposit_project_tokens(&mut c, acct(9), 1000, 1);
    assert_eq!(r2, Err(ErrorCode::DepositNotAllowed));
    assert_eq!(c.vault.total_deposited, 0);
}

#[test]
fn deposit_overflow_rejected() {
    let mut c = setup_campaign(1000, 110);
    set_project_token(&mut c, acct(1), acct(30), 200);
    c.vault.total_deposited = u128::MAX;
    let r = deposit_project_tokens(&mut c, acct(9), 150, 1);
    assert_eq!(r, Err(ErrorCode::DepositOverflow));
    assert_eq!(c.vault.total_deposited, u128::MAX);
}

#[test]
fn claim_before_open_rejected() {
    let mut c = setup_campaign(1000, 110);
    let _ = vote(&mut c, acct(2), 101, 600).unwrap();
    set_project_token(&mut c, acct(1), acct(30), 200);
    let r = claim_project_tokens(&mut c, acct(2), 199);
    assert_eq!(r, Err(ErrorCode::ClaimNotAvailable));
    assert_eq!(c.users[0].burned_amount, 600);
}

#[test]
fn claim_pays_pro_rata_and_zeroes_record() {
    // totalBurned = 600 from A = 400 and B = 200; 900 reward units are
    // deposited. A gets 900 * 400 / 600 = 600, B gets 900 * 200 / 600 = 300
    // against the undiminished total; together the whole deposit.
    let mut c = setup_campaign(1000, 110);
    let a = acct(2);
    let b = acct(3);
    let _ = vote(&mut c, a, 101, 400).unwrap();
    let _ = vote(&mut c, b, 102, 200).unwrap();
    set_project_token(&mut c, acct(1), acct(30), 200);
    let _ = deposit_project_tokens(&mut c, acct(9), 150, 900).unwrap();

    let ops_a = claim_project_tokens(&mut c, a, 250).unwrap();
    assert_eq!(
        ops_a[0],
        LedgerOp::Transfer {
            asset: acct(30),
            from: AccountRef::VaultEscrow(7),
            to: AccountRef::User(a),
            amount: 600,
            authority: Capability::VaultAuthority(7),
        }
    );
    assert_eq!(
        ops_a[1],
        LedgerOp::Burn {
            asset: acct(20),
            from: AccountRef::User(a),
            amount: 400,
            authority: Capability::UserSig(a),
        }
    );
    assert_eq!(c.users[0].burned_amount, 0);
    assert_eq!(c.vault.total_burned, 600);
    assert_eq!(c.vault.total_deposited, 900);

    let ops_b = claim_project_tokens(&mut c, b, 260).unwrap();
    assert_eq!(
        ops_b[0],
        LedgerOp::Transfer {
            asset: acct(30),
            from: AccountRef::VaultEscrow(7),
            to: AccountRef::User(b),
            amount: 300,
            authority: Capability::VaultAuthority(7),
        }
    );
    assert_eq!(c.users[1].burned_amount, 0);
    assert_eq!(c.vault.total_burned, 600);
}

#[test]
fn claim_twice_pays_once() {
    // The second claim sees a zeroed record: ratio 0 / 600, so it transfers
    // 0 and burns 0.
    let mut c = setup_campaign(1000, 110);
    let a = acct(2);
    let _ = vote(&mut c, a, 101, 600).unwrap();
    set_project_token(&mut c, acct(1), acct(30), 200);
    let _ = deposit_project_tokens(&mut c, acct(9), 150, 900).unwrap();

    let first = claim_project_tokens(&mut c, a, 250).unwrap();
    match first[0] {
        LedgerOp::Transfer { amount, .. } => assert_eq!(amount, 900),
        _ => panic!("expected a transfer"),
    }
    let second = claim_project_tokens(&mut c, a, 260).unwrap();
    assert_eq!(
        second[0],
        LedgerOp::Transfer {
            asset: acct(30),
            from: AccountRef::VaultEscrow(7),
            to: AccountRef::User(a),
            amount: 0,
            authority: Capability::VaultAuthority(7),
        }
    );
    assert_eq!(
        second[1],
        LedgerOp::Burn {
            asset: acct(20),
            from: AccountRef::User(a),
            amount: 0,
            authority: Capability::UserSig(a),
        }
    );
}

#[test]
fn claim_rounds_down() {
    // 10 reward units over 3 votes: the voter with 1 vote gets
    // floor(10 / 3) = 3, the voter with 2 gets floor(20 / 3) = 6.
    let mut c = setup_campaign(1000, 110);
    let a = acct(2);
    let b = acct(3);
    let _ = vote(&mut c, a, 101, 1).unwrap();
    let _ = vote(&mut c, b, 102, 2).unwrap();
    set_project_token(&mut c, acct(1), acct(30), 200);
    let _ = deposit_project_tokens(&mut c, acct(9), 150, 10).unwrap();
    let ops_a = claim_project_tokens(&mut c, a, 250).unwrap();
    match ops_a[0] {
        LedgerOp::Transfer { amount, .. } => assert_eq!(amount, 3),
        _ => panic!("expected a transfer"),
    }
    let ops_b = claim_project_tokens(&mut c, b, 250).unwrap();
    match ops_b[0] {
        LedgerOp::Transfer { amount, .. } => assert_eq!(amount, 6),
        _ => panic!("expected a transfer"),
    }
}

#[test]
fn claim_burn_clamped_to_transfer_range() {
    // A record above u64::MAX vote tokens can only burn u64::MAX of them in
    // one ledger operation.
    let mut c = setup_campaign(u128::MAX, 110);
    let a = acct(2);
    let _ = vote(&mut c, a, 101, u64::MAX).unwrap();
    let _ = vote(&mut c, a, 102, u64::MAX).unwrap();
    assert_eq!(c.users[0].burned_amount, 2 * (u64::MAX as u128));
    set_project_token(&mut c, acct(1), acct(30), 200);
    let _ = deposit_project_tokens(&mut c, acct(9), 150, 5).unwrap();
    let ops = claim_project_tokens(&mut c, a, 250).unwrap();
    match ops[0] {
        LedgerOp::Transfer { amount, .. } => assert_eq!(amount, 5),
        _ => panic!("expected a transfer"),
    }
    match ops[1] {
        LedgerOp::Burn { amount, .. } => assert_eq!(amount, u64::MAX),
        _ => panic!("expected a burn"),
    }
}

#[test]
fn vote_record_links_back_to_vault() {
    let mut c = setup_campaign(1000, 110);
    let _ = vote(&mut c, acct(2), 101, 5).unwrap();
    assert_eq!(
        c.users[0],
        UserVault { user: acct(2), vault: 7, burned_amount: 5 }
    );
}
