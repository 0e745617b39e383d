use anchor_lang::prelude::Pubkey;
use vote_app::address::{derive_address, verify_address, Address};
use vote_app::error::VoteError;
use vote_app::state::TreasuryConfig;
use vote_app::treasury::{
    buy_tokens, initialize_treasury, mint_authority_seeds, mint_to, sol_vault_seeds, transfer,
    x_mint_seeds, BuyTokens, InitializeTreasury, Mint, SystemAccount, TokenAccount, MINT_DECIMALS,
};

fn program_id() -> Address {
    let pk: Pubkey = "3jfJ7Kd6hryKHjoCQeTWsrVuoDgoAz5JJ18MbxL45V2c".parse().unwrap();
    Address::new(pk.to_bytes())
}

fn key(n: u8) -> Address {
    Address::new([n; 32])
}

fn fresh_init() -> InitializeTreasury {
    InitializeTreasury {
        program_id: program_id(),
        authority: key(1),
        treasury_token_key: key(2),
        supply_cap: None,
        treasury_config_account: None,
        x_mint: None,
        treasury_token_account: None,
    }
}

fn pda(label: &[u8]) -> (Address, u8) {
    let pid = Pubkey::new_from_array(program_id().bytes);
    let (pk, bump) = Pubkey::find_program_address(&[label], &pid);
    (Address::new(pk.to_bytes()), bump)
}

/// A purchase context over a freshly initialized treasury.
fn purchase(price: u64, tokens: u64, buyer_lamports: u64) -> BuyTokens {
    let mut init = fresh_init();
    initialize_treasury(&mut init, price, tokens).unwrap();
    let config = init.treasury_config_account.unwrap();
    let mint = init.x_mint.unwrap();
    let (vault, _) = pda(b"sol_vault");
    let (issuer, _) = pda(b"mint_authority");
    BuyTokens {
        program_id: program_id(),
        treasury_config_account: config,
        sol_vault: SystemAccount { key: vault, lamports: 0 },
        x_mint: mint,
        buyer_token_account: TokenAccount { key: key(9), mint: mint.key, owner: key(8), amount: 0 },
        mint_authority: issuer,
        buyer: SystemAccount { key: key(8), lamports: buyer_lamports },
    }
}

#[test]
fn derivation_is_deterministic() {
    let pid = program_id();
    let first = derive_address(&x_mint_seeds(), &pid).unwrap();
    let second = derive_address(&x_mint_seeds(), &pid).unwrap();
    assert_eq!(first, second);
}

#[test]
fn derivation_matches_canonical_address() {
    let (expected, bump) = pda(b"x_mint");
    let derived = derive_address(&x_mint_seeds(), &program_id()).unwrap();
    assert_eq!(derived, (expected, bump));
    assert_ne!(derived.0, program_id());
}

#[test]
fn derivation_depends_on_label_and_program() {
    let pid = program_id();
    let mint = derive_address(&x_mint_seeds(), &pid).unwrap();
    let vault = derive_address(&sol_vault_seeds(), &pid).unwrap();
    let other = derive_address(&x_mint_seeds(), &key(3)).unwrap();
    assert_ne!(mint.0, vault.0);
    assert_ne!(mint.0, other.0);
}

#[test]
fn verification_accepts_only_the_derived_pair() {
    let pid = program_id();
    let seeds = sol_vault_seeds();
    let (vault, bump) = derive_address(&seeds, &pid).unwrap();
    assert!(verify_address(&vault, &seeds, bump, &pid));
    assert!(!verify_address(&key(4), &seeds, bump, &pid));
    assert!(!verify_address(&vault, &seeds, bump.wrapping_sub(1), &pid));
    assert!(!verify_address(&vault, &mint_authority_seeds(), bump, &pid));
}

#[test]
fn initialization_records_the_configuration() {
    let mut ctx = fresh_init();
    assert_eq!(initialize_treasury(&mut ctx, 1_000_000, 50), Ok(()));
    let (mint_key, _) = pda(b"x_mint");
    let (_, vault_bump) = pda(b"sol_vault");
    let (issuer, _) = pda(b"mint_authority");
    let expected = TreasuryConfig {
        authority: key(1),
        x_mint: mint_key,
        treasury_token_account: key(2),
        sol_price: 1_000_000,
        tokens_per_purchase: 50,
        bump: vault_bump,
        supply_cap: None,
    };
    assert_eq!(ctx.treasury_config_account, Some(expected));
    assert_eq!(
        ctx.x_mint,
        Some(Mint { key: mint_key, mint_authority: issuer, supply: 0, decimals: MINT_DECIMALS })
    );
    assert_eq!(MINT_DECIMALS, 6);
    assert_eq!(
        ctx.treasury_token_account,
        Some(TokenAccount { key: key(2), mint: mint_key, owner: key(1), amount: 0 })
    );
}

#[test]
fn second_initialization_is_refused() {
    let mut ctx = fresh_init();
    initialize_treasury(&mut ctx, 10, 3).unwrap();
    let before = ctx;
    assert_eq!(initialize_treasury(&mut ctx, 99, 7), Err(VoteError::AlreadyInitialized));
    assert_eq!(ctx, before);
    assert_eq!(ctx.treasury_config_account.unwrap().sol_price, 10);
    assert_eq!(ctx.treasury_config_account.unwrap().tokens_per_purchase, 3);
}

#[test]
fn purchase_moves_price_and_issues_tokens() {
    let mut ctx = purchase(500, 20, 1_200);
    ctx.sol_vault.lamports = 7;
    assert_eq!(buy_tokens(&mut ctx), Ok(()));
    assert_eq!(ctx.buyer.lamports, 700);
    assert_eq!(ctx.sol_vault.lamports, 507);
    assert_eq!(ctx.buyer_token_account.amount, 20);
    assert_eq!(ctx.x_mint.supply, 20);
    assert_eq!(buy_tokens(&mut ctx), Ok(()));
    assert_eq!(ctx.buyer.lamports, 200);
    assert_eq!(ctx.sol_vault.lamports, 1_007);
    assert_eq!(ctx.buyer_token_account.amount, 40);
}

#[test]
fn purchase_with_exact_balance_succeeds() {
    let mut ctx = purchase(500, 20, 500);
    assert_eq!(buy_tokens(&mut ctx), Ok(()));
    assert_eq!(ctx.buyer.lamports, 0);
    assert_eq!(ctx.sol_vault.lamports, 500);
}

#[test]
fn underfunded_purchase_changes_nothing() {
    let mut ctx = purchase(500, 20, 499);
    let before = ctx;
    assert_eq!(buy_tokens(&mut ctx), Err(VoteError::InsufficientFunds));
    assert_eq!(ctx, before);
}

#[test]
fn purchase_into_foreign_asset_account_is_refused() {
    let mut ctx = purchase(5, 1, 100);
    ctx.buyer_token_account.mint = key(7);
    let before = ctx;
    assert_eq!(buy_tokens(&mut ctx), Err(VoteError::MintMismatch));
    assert_eq!(ctx, before);
}

#[test]
fn foreign_asset_account_of_another_owner_is_a_mint_mismatch() {
    let mut ctx = purchase(5, 1, 100);
    ctx.buyer_token_account.mint = key(7);
    ctx.buyer_token_account.owner = key(6);
    let before = ctx;
    assert_eq!(buy_tokens(&mut ctx), Err(VoteError::MintMismatch));
    assert_eq!(ctx, before);
}

#[test]
fn initializations_under_one_program_agree() {
    let mut first = fresh_init();
    let mut second = fresh_init();
    second.authority = key(11);
    second.treasury_token_key = key(12);
    initialize_treasury(&mut first, 10, 3).unwrap();
    initialize_treasury(&mut second, 20, 4).unwrap();
    let (a, b) = (first.treasury_config_account.unwrap(), second.treasury_config_account.unwrap());
    assert_eq!(a.x_mint, b.x_mint);
    assert_eq!(a.bump, b.bump);
    assert_eq!(first.x_mint.unwrap().mint_authority, second.x_mint.unwrap().mint_authority);
}

#[test]
fn purchase_with_wrong_mint_is_refused() {
    let mut ctx = purchase(5, 1, 100);
    ctx.x_mint.key = key(7);
    assert_eq!(buy_tokens(&mut ctx), Err(VoteError::MintMismatch));
}

#[test]
fn purchase_into_account_of_another_owner_is_refused() {
    let mut ctx = purchase(5, 1, 100);
    ctx.buyer_token_account.owner = key(6);
    assert_eq!(buy_tokens(&mut ctx), Err(VoteError::OwnerMismatch));
}

#[test]
fn purchase_with_wrong_vault_is_refused() {
    let mut ctx = purchase(5, 1, 100);
    ctx.sol_vault.key = key(5);
    assert_eq!(buy_tokens(&mut ctx), Err(VoteError::AuthorityProofMismatch));
    let mut ctx = purchase(5, 1, 100);
    ctx.treasury_config_account.bump = ctx.treasury_config_account.bump.wrapping_sub(1);
    assert_eq!(buy_tokens(&mut ctx), Err(VoteError::AuthorityProofMismatch));
}

#[test]
fn purchase_with_wrong_issuer_is_refused() {
    let mut ctx = purchase(5, 1, 100);
    ctx.mint_authority = key(5);
    let before = ctx;
    assert_eq!(buy_tokens(&mut ctx), Err(VoteError::AuthorityProofMismatch));
    assert_eq!(ctx, before);
    let mut ctx = purchase(5, 1, 100);
    ctx.x_mint.mint_authority = key(5);
    assert_eq!(buy_tokens(&mut ctx), Err(VoteError::AuthorityProofMismatch));
}

#[test]
fn purchase_overflowing_supply_rolls_back_payment() {
    let mut ctx = purchase(5, 10, 100);
    ctx.x_mint.supply = u64::MAX - 10;
    assert_eq!(buy_tokens(&mut ctx), Ok(()));
    let mut ctx = purchase(5, 10, 100);
    ctx.x_mint.supply = u64::MAX - 5;
    let before = ctx;
    assert_eq!(buy_tokens(&mut ctx), Err(VoteError::ArithmeticOverflow));
    assert_eq!(ctx, before);
    assert_eq!(ctx.buyer.lamports, 100);
}

#[test]
fn purchase_overflowing_vault_is_refused() {
    let mut ctx = purchase(5, 10, 100);
    ctx.sol_vault.lamports = u64::MAX - 4;
    assert_eq!(buy_tokens(&mut ctx), Err(VoteError::ArithmeticOverflow));
    assert_eq!(ctx.buyer.lamports, 100);
}

#[test]
fn purchase_respects_the_supply_cap() {
    let mut init = fresh_init();
    init.supply_cap = Some(25);
    initialize_treasury(&mut init, 5, 10).unwrap();
    assert_eq!(init.treasury_config_account.unwrap().supply_cap, Some(25));
    let mut ctx = purchase(5, 10, 100);
    ctx.treasury_config_account = init.treasury_config_account.unwrap();
    assert_eq!(buy_tokens(&mut ctx), Ok(()));
    assert_eq!(buy_tokens(&mut ctx), Ok(()));
    assert_eq!(ctx.x_mint.supply, 20);
    let before = ctx;
    assert_eq!(buy_tokens(&mut ctx), Err(VoteError::SupplyCapReached));
    assert_eq!(ctx, before);
    assert_eq!(ctx.buyer.lamports, 90);
}

#[test]
fn transfer_moves_native_value() {
    let mut from = SystemAccount { key: key(1), lamports: 30 };
    let mut to = SystemAccount { key: key(2), lamports: 4 };
    assert_eq!(transfer(&mut from, &mut to, 30), Ok(()));
    assert_eq!((from.lamports, to.lamports), (0, 34));
    assert_eq!(transfer(&mut from, &mut to, 1), Err(VoteError::InsufficientFunds));
    assert_eq!((from.lamports, to.lamports), (0, 34));
}

#[test]
fn issuance_needs_the_derived_authority() {
    let pid = program_id();
    let seeds = mint_authority_seeds();
    let (issuer, bump) = derive_address(&seeds, &pid).unwrap();
    let mut mint = Mint { key: key(3), mint_authority: issuer, supply: 1, decimals: 6 };
    let mut to = TokenAccount { key: key(4), mint: key(3), owner: key(5), amount: 2 };
    assert_eq!(mint_to(&mut mint, &mut to, 10, &seeds, bump, &pid), Ok(()));
    assert_eq!((mint.supply, to.amount), (11, 12));
    assert_eq!(
        mint_to(&mut mint, &mut to, 10, &sol_vault_seeds(), bump, &pid),
        Err(VoteError::AuthorityProofMismatch)
    );
    let mut other = TokenAccount { key: key(6), mint: key(7), owner: key(5), amount: 0 };
    assert_eq!(mint_to(&mut mint, &mut other, 1, &seeds, bump, &pid), Err(VoteError::MintMismatch));
    assert_eq!((mint.supply, to.amount, other.amount), (11, 12, 0));
}
