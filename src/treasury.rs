//! The treasury: its one-time initialization, and purchases that move native
//! value into the vault and issue the asset to the buyer as one unit of work.

use crate::address::{
    derivation, derive_address, lemma_derivation_verifies, program_address,
    seeds_view, verify_address, with_bump, Address,
};
use crate::error::VoteError;
use crate::state::TreasuryConfig;
use vstd::prelude::*;

verus! {

/// Decimal places of the issued asset.
pub const MINT_DECIMALS: u8 = 6;

/// An account of the native-value ledger.
#[derive(Clone, Copy, Debug, PartialEq, Eq)]
pub struct SystemAccount {
    pub key: Address,
    pub lamports: u64,
}

/// An asset type of the issuance ledger.
#[derive(Clone, Copy, Debug, PartialEq, Eq)]
pub struct Mint {
    pub key: Address,
    /// The only identity allowed to issue this asset.
    pub mint_authority: Address,
    pub supply: u64,
    pub decimals: u8,
}

/// An account holding units of one asset on behalf of an owner.
#[derive(Clone, Copy, Debug, PartialEq, Eq)]
pub struct TokenAccount {
    pub key: Address,
    pub mint: Address,
    pub owner: Address,
    pub amount: u64,
}

/// Seed label of the asset mint: the ASCII bytes of "x_mint".
pub open spec fn x_mint_label() -> Seq<u8> {
    seq![120u8, 95, 109, 105, 110, 116]
}

/// Seed label of the vault that receives native value: "sol_vault".
pub open spec fn sol_vault_label() -> Seq<u8> {
    seq![115u8, 111, 108, 95, 118, 97, 117, 108, 116]
}

/// Seed label of the identity that issues the asset: "mint_authority".
pub open spec fn mint_authority_label() -> Seq<u8> {
    seq![109u8, 105, 110, 116, 95, 97, 117, 116, 104, 111, 114, 105, 116, 121]
}

/// The canonical address derived from a single seed label.
pub open spec fn pda(label: Seq<u8>, program_id: Seq<u8>) -> Seq<u8> {
    match derivation(seq![label], program_id) {
        Some((a, _)) => a,
        None => Seq::empty(),
    }
}

/// The canonical bump derived from a single seed label.
pub open spec fn pda_bump(label: Seq<u8>, program_id: Seq<u8>) -> u8 {
    match derivation(seq![label], program_id) {
        Some((_, b)) => b,
        None => 0,
    }
}

fn one_seed(label: Vec<u8>) -> (r: Vec<Vec<u8>>)
    ensures
        seeds_view(r@) == seq![label@],
{
    let mut r: Vec<Vec<u8>> = Vec::new();
    r.push(label);
    assert(seeds_view(r@) =~= seq![label@]);
    r
}

pub fn x_mint_seeds() -> (r: Vec<Vec<u8>>)
    ensures
        seeds_view(r@) == seq![x_mint_label()],
{
    let label: Vec<u8> = vec![120, 95, 109, 105, 110, 116];
    assert(label@ =~= x_mint_label());
    one_seed(label)
}

pub fn sol_vault_seeds() -> (r: Vec<Vec<u8>>)
    ensures
        seeds_view(r@) == seq![sol_vault_label()],
{
    let label: Vec<u8> = vec![115, 111, 108, 95, 118, 97, 117, 108, 116];
    assert(label@ =~= sol_vault_label());
    one_seed(label)
}

pub fn mint_authority_seeds() -> (r: Vec<Vec<u8>>)
    ensures
        seeds_view(r@) == seq![mint_authority_label()],
{
    let label: Vec<u8> = vec![
        109, 105, 110, 116, 95, 97, 117, 116, 104, 111, 114, 105, 116, 121,
    ];
    assert(label@ =~= mint_authority_label());
    one_seed(label)
}

/// Moves `amount` of native value from `from` to `to`, or fails with no
/// effect: `InsufficientFunds` where `from` holds less, `ArithmeticOverflow`
/// where `to`'s balance would overflow.
pub fn transfer(from: &mut SystemAccount, to: &mut SystemAccount, amount: u64) -> (r: Result<(), VoteError>)
    ensures
        old(from).lamports < amount ==> r == Err::<(), VoteError>(VoteError::InsufficientFunds),
        old(from).lamports >= amount && old(to).lamports + amount > u64::MAX ==> r == Err::<(), VoteError>(
            VoteError::ArithmeticOverflow,
        ),
        old(from).lamports >= amount && old(to).lamports + amount <= u64::MAX ==> r is Ok,
        r is Err ==> *final(from) == *old(from) && *final(to) == *old(to),
        r is Ok ==> old(from).lamports >= amount && old(to).lamports + amount <= u64::MAX
            && final(from).key == old(from).key && final(from).lamports == old(from).lamports - amount
            && final(to).key == old(to).key && final(to).lamports == old(to).lamports + amount,
{
    if from.lamports < amount {
        return Err(VoteError::InsufficientFunds);
    }
    match to.lamports.checked_add(amount) {
        None => Err(VoteError::ArithmeticOverflow),
        Some(v) => {
            from.lamports = from.lamports - amount;
            to.lamports = v;
            Ok(())
        },
    }
}

/// Why issuing `amount` of `mint` into `to` under the authority derived from
/// `seeds` and `bump` fails, if it does.
pub open spec fn mint_check(
    mint: Mint,
    to: TokenAccount,
    amount: u64,
    seeds: Seq<Seq<u8>>,
    bump: u8,
    program_id: Seq<u8>,
) -> Option<VoteError> {
    if program_address(with_bump(seeds, bump), program_id) != Some(mint.mint_authority@) {
        Some(VoteError::AuthorityProofMismatch)
    } else if to.mint@ != mint.key@ {
        Some(VoteError::MintMismatch)
    } else if mint.supply + amount > u64::MAX || to.amount + amount > u64::MAX {
        Some(VoteError::ArithmeticOverflow)
    } else {
        None
    }
}

/// Issues `amount` units of `mint` into `to`. The seeds and bump are the
/// authorization: the address they derive under `program_id` must be the
/// mint's authority. Fails with no effect otherwise, or where `to` holds
/// another asset, or where the supply or the balance would overflow.
pub fn mint_to(
    mint: &mut Mint,
    to: &mut TokenAccount,
    amount: u64,
    seeds: &Vec<Vec<u8>>,
    bump: u8,
    program_id: &Address,
) -> (r: Result<(), VoteError>)
    ensures
        r is Ok <==> mint_check(*old(mint), *old(to), amount, seeds_view(seeds@), bump, program_id@) is None,
        r matches Err(e) ==> mint_check(*old(mint), *old(to), amount, seeds_view(seeds@), bump, program_id@)
            == Some(e) && *final(mint) == *old(mint) && *final(to) == *old(to),
        r is Ok ==> *final(mint) == (Mint { supply: (old(mint).supply + amount) as u64, ..*old(mint) })
            && *final(to) == (TokenAccount { amount: (old(to).amount + amount) as u64, ..*old(to) }),
{
    if !verify_address(&mint.mint_authority, seeds, bump, program_id) {
        return Err(VoteError::AuthorityProofMismatch);
    }
    if !to.mint.same(&mint.key) {
        return Err(VoteError::MintMismatch);
    }
    let supply = match mint.supply.checked_add(amount) {
        Some(v) => v,
        None => return Err(VoteError::ArithmeticOverflow),
    };
    let balance = match to.amount.checked_add(amount) {
        Some(v) => v,
        None => return Err(VoteError::ArithmeticOverflow),
    };
    mint.supply = supply;
    to.amount = balance;
    Ok(())
}

/// The accounts of a treasury initialization: the slots it fills, each empty
/// until then, and the identities it records.
#[derive(Clone, Copy, Debug, PartialEq, Eq)]
pub struct InitializeTreasury {
    /// The program's own identity, under which addresses are derived.
    pub program_id: Address,
    /// The initializing identity; it pays for the new accounts.
    pub authority: Address,
    /// The key chosen for the treasury's own asset account.
    pub treasury_token_key: Address,
    /// The issuance policy to record: a cap on the total supply, or none.
    pub supply_cap: Option<u64>,
    pub treasury_config_account: Option<TreasuryConfig>,
    pub x_mint: Option<Mint>,
    pub treasury_token_account: Option<TokenAccount>,
}

/// Why initialization fails on these accounts, if it does.
pub open spec fn init_check(c: InitializeTreasury) -> Option<VoteError> {
    if c.treasury_config_account is Some || c.x_mint is Some || c.treasury_token_account is Some {
        Some(VoteError::AlreadyInitialized)
    } else if derivation(seq![x_mint_label()], c.program_id@) is None
        || derivation(seq![sol_vault_label()], c.program_id@) is None
        || derivation(seq![mint_authority_label()], c.program_id@) is None {
        Some(VoteError::DerivationFailed)
    } else {
        None
    }
}

/// `after` is `before` with the treasury set up: the configuration records
/// the caller, the price and the issuance per purchase; the mint sits at its
/// derived address, with the derived issuing identity as its authority and no
/// supply; the treasury's asset account is empty and owned by the caller.
pub open spec fn initialized(
    before: InitializeTreasury,
    after: InitializeTreasury,
    sol_price: u64,
    tokens_per_purchase: u64,
) -> bool {
    let pid = before.program_id@;
    &&& after.program_id == before.program_id
    &&& after.authority == before.authority
    &&& after.treasury_token_key == before.treasury_token_key
    &&& after.supply_cap == before.supply_cap
    &&& after.treasury_config_account matches Some(cfg) && cfg.authority == before.authority
        && cfg.supply_cap == before.supply_cap
        && cfg.x_mint@ == pda(x_mint_label(), pid)
        && cfg.treasury_token_account == before.treasury_token_key
        && cfg.sol_price == sol_price && cfg.tokens_per_purchase == tokens_per_purchase
        && cfg.bump == pda_bump(sol_vault_label(), pid)
    &&& after.x_mint matches Some(m) && m.key@ == pda(x_mint_label(), pid)
        && m.mint_authority@ == pda(mint_authority_label(), pid) && m.supply == 0
        && m.decimals == MINT_DECIMALS
    &&& after.treasury_token_account matches Some(t) && t.key == before.treasury_token_key
        && t.mint@ == pda(x_mint_label(), pid) && t.owner == before.authority && t.amount == 0
}

/// Creates the treasury configuration, the asset mint and the treasury's
/// asset account, all at once or not at all. A purchase must cost something
/// and yield something, so the price and the quantity are both non-zero.
pub fn initialize_treasury(ctx: &mut InitializeTreasury, sol_price: u64, tokens_per_purchase: u64) -> (r:
    Result<(), VoteError>)
    requires
        sol_price > 0,
        tokens_per_purchase > 0,
    ensures
        r is Ok <==> init_check(*old(ctx)) is None,
        r matches Err(e) ==> init_check(*old(ctx)) == Some(e) && *final(ctx) == *old(ctx),
        r is Ok ==> initialized(*old(ctx), *final(ctx), sol_price, tokens_per_purchase),
{
    if ctx.treasury_config_account.is_some() || ctx.x_mint.is_some()
        || ctx.treasury_token_account.is_some() {
        return Err(VoteError::AlreadyInitialized);
    }
    let (mint_key, _) = match derive_address(&x_mint_seeds(), &ctx.program_id) {
        Some(d) => d,
        None => return Err(VoteError::DerivationFailed),
    };
    let (_, vault_bump) = match derive_address(&sol_vault_seeds(), &ctx.program_id) {
        Some(d) => d,
        None => return Err(VoteError::DerivationFailed),
    };
    let (issuer, _) = match derive_address(&mint_authority_seeds(), &ctx.program_id) {
        Some(d) => d,
        None => return Err(VoteError::DerivationFailed),
    };
    ctx.treasury_config_account = Some(
        TreasuryConfig {
            authority: ctx.authority,
            x_mint: mint_key,
            treasury_token_account: ctx.treasury_token_key,
            sol_price,
            tokens_per_purchase,
            bump: vault_bump,
            supply_cap: ctx.supply_cap,
        },
    );
    ctx.x_mint = Some(
        Mint { key: mint_key, mint_authority: issuer, supply: 0, decimals: MINT_DECIMALS },
    );
    ctx.treasury_token_account = Some(
        TokenAccount {
            key: ctx.treasury_token_key,
            mint: mint_key,
            owner: ctx.authority,
            amount: 0,
        },
    );
    Ok(())
}

/// A treasury is initialized at most once: once initialization has succeeded,
/// every further attempt fails with `AlreadyInitialized` (and so, by the
/// contract of `initialize_treasury`, leaves the configuration as it was).
pub proof fn lemma_initialize_once(
    before: InitializeTreasury,
    after: InitializeTreasury,
    sol_price: u64,
    tokens_per_purchase: u64,
)
    requires
        initialized(before, after, sol_price, tokens_per_purchase),
    ensures
        init_check(after) == Some(VoteError::AlreadyInitialized),
{
}

/// The accounts of a purchase. The price and the quantity come from the
/// stored configuration, never from the buyer.
#[derive(Clone, Copy, Debug, PartialEq, Eq)]
pub struct BuyTokens {
    /// The program's own identity, under which addresses are derived.
    pub program_id: Address,
    pub treasury_config_account: TreasuryConfig,
    pub sol_vault: SystemAccount,
    pub x_mint: Mint,
    /// The buyer's account for the issued asset.
    pub buyer_token_account: TokenAccount,
    /// The identity presented as the mint's issuing authority.
    pub mint_authority: Address,
    pub buyer: SystemAccount,
}

/// Why a purchase fails on these accounts, if it does: the checks in the
/// order the purchase makes them.
pub open spec fn buy_check(c: BuyTokens) -> Option<VoteError> {
    let cfg = c.treasury_config_account;
    let pid = c.program_id@;
    if program_address(with_bump(seq![sol_vault_label()], cfg.bump), pid) != Some(c.sol_vault.key@) {
        Some(VoteError::AuthorityProofMismatch)
    } else if c.x_mint.key@ != cfg.x_mint@ {
        Some(VoteError::MintMismatch)
    } else if c.buyer_token_account.mint@ != cfg.x_mint@ {
        Some(VoteError::MintMismatch)
    } else if c.buyer_token_account.owner@ != c.buyer.key@ {
        Some(VoteError::OwnerMismatch)
    } else if c.buyer.lamports < cfg.sol_price {
        Some(VoteError::InsufficientFunds)
    } else if c.sol_vault.lamports + cfg.sol_price > u64::MAX {
        Some(VoteError::ArithmeticOverflow)
    } else if cfg.supply_cap matches Some(cap) && c.x_mint.supply + cfg.tokens_per_purchase > cap {
        Some(VoteError::SupplyCapReached)
    } else if derivation(seq![mint_authority_label()], pid) is None {
        Some(VoteError::DerivationFailed)
    } else if c.mint_authority@ != pda(mint_authority_label(), pid) || c.x_mint.mint_authority@ != pda(
        mint_authority_label(),
        pid,
    ) {
        Some(VoteError::AuthorityProofMismatch)
    } else if c.x_mint.supply + cfg.tokens_per_purchase > u64::MAX || c.buyer_token_account.amount
        + cfg.tokens_per_purchase > u64::MAX {
        Some(VoteError::ArithmeticOverflow)
    } else {
        None
    }
}

/// `after` is `before` with one purchase applied: the price moved from the
/// buyer to the vault, the issuance per purchase added to the mint's supply
/// and to the buyer's asset account, nothing else changed.
pub open spec fn purchased(before: BuyTokens, after: BuyTokens) -> bool {
    let price = before.treasury_config_account.sol_price;
    let tokens = before.treasury_config_account.tokens_per_purchase;
    after == (BuyTokens {
        buyer: SystemAccount { lamports: (before.buyer.lamports - price) as u64, ..before.buyer },
        sol_vault: SystemAccount {
            lamports: (before.sol_vault.lamports + price) as u64,
            ..before.sol_vault
        },
        x_mint: Mint { supply: (before.x_mint.supply + tokens) as u64, ..before.x_mint },
        buyer_token_account: TokenAccount {
            amount: (before.buyer_token_account.amount + tokens) as u64,
            ..before.buyer_token_account
        },
        ..before
    })
}

/// Buys one lot of the asset: pays the configured price into the vault, then
/// issues the configured quantity to the buyer under the derived issuing
/// authority, within the configured supply cap if there is one. Both happen
/// or neither does.
pub fn buy_tokens(ctx: &mut BuyTokens) -> (r: Result<(), VoteError>)
    ensures
        r is Ok <==> buy_check(*old(ctx)) is None,
        r matches Err(e) ==> buy_check(*old(ctx)) == Some(e) && *final(ctx) == *old(ctx),
        r is Ok ==> purchased(*old(ctx), *final(ctx)),
{
    let cfg = ctx.treasury_config_account;
    if !verify_address(&ctx.sol_vault.key, &sol_vault_seeds(), cfg.bump, &ctx.program_id) {
        return Err(VoteError::AuthorityProofMismatch);
    }
    if !ctx.x_mint.key.same(&cfg.x_mint) {
        return Err(VoteError::MintMismatch);
    }
    if !ctx.buyer_token_account.mint.same(&cfg.x_mint) {
        return Err(VoteError::MintMismatch);
    }
    if !ctx.buyer_token_account.owner.same(&ctx.buyer.key) {
        return Err(VoteError::OwnerMismatch);
    }
    // Work on copies; they replace the accounts only once every step succeeded.
    let mut buyer = ctx.buyer;
    let mut vault = ctx.sol_vault;
    let mut mint = ctx.x_mint;
    let mut holding = ctx.buyer_token_account;
    match transfer(&mut buyer, &mut vault, cfg.sol_price) {
        Ok(()) => {},
        Err(e) => return Err(e),
    }
    match cfg.supply_cap {
        Some(cap) => {
            if cfg.tokens_per_purchase > cap || mint.supply > cap - cfg.tokens_per_purchase {
                return Err(VoteError::SupplyCapReached);
            }
        },
        None => {},
    }
    let seeds = mint_authority_seeds();
    let (issuer, issuer_bump) = match derive_address(&seeds, &ctx.program_id) {
        Some(d) => d,
        None => return Err(VoteError::DerivationFailed),
    };
    if !ctx.mint_authority.same(&issuer) {
        return Err(VoteError::AuthorityProofMismatch);
    }
    proof {
        lemma_derivation_verifies(seeds_view(seeds@), ctx.program_id@);
    }
    match mint_to(&mut mint, &mut holding, cfg.tokens_per_purchase, &seeds, issuer_bump, &ctx.program_id) {
        Ok(()) => {},
        Err(e) => return Err(e),
    }
    ctx.buyer = buyer;
    ctx.sol_vault = vault;
    ctx.x_mint = mint;
    ctx.buyer_token_account = holding;
    Ok(())
}

/// A buyer whose accounts are in order but whose balance is below the price
/// is refused with `InsufficientFunds` (and so, by the contract of
/// `buy_tokens`, nothing changes: no asset is issued).
pub proof fn lemma_underfunded_purchase_refused(c: BuyTokens)
    requires
        program_address(
            with_bump(seq![sol_vault_label()], c.treasury_config_account.bump),
            c.program_id@,
        ) == Some(c.sol_vault.key@),
        c.x_mint.key@ == c.treasury_config_account.x_mint@,
        c.buyer_token_account.owner@ == c.buyer.key@,
        c.buyer_token_account.mint@ == c.treasury_config_account.x_mint@,
        c.buyer.lamports < c.treasury_config_account.sol_price,
    ensures
        buy_check(c) == Some(VoteError::InsufficientFunds),
{
}

/// A buyer whose accounts are in order and whose balance covers the price is
/// served, so long as no balance or supply overflows and the supply cap, if
/// any, leaves room: by the contract of `buy_tokens` the buyer then pays
/// exactly the price, the vault gains exactly the price, and the buyer's
/// asset balance rises by exactly the issuance per purchase.
pub proof fn lemma_funded_purchase_served(c: BuyTokens)
    requires
        program_address(
            with_bump(seq![sol_vault_label()], c.treasury_config_account.bump),
            c.program_id@,
        ) == Some(c.sol_vault.key@),
        c.x_mint.key@ == c.treasury_config_account.x_mint@,
        c.buyer_token_account.owner@ == c.buyer.key@,
        c.buyer_token_account.mint@ == c.treasury_config_account.x_mint@,
        c.buyer.lamports >= c.treasury_config_account.sol_price,
        c.sol_vault.lamports + c.treasury_config_account.sol_price <= u64::MAX,
        c.treasury_config_account.supply_cap matches Some(cap) ==> c.x_mint.supply
            + c.treasury_config_account.tokens_per_purchase <= cap,
        derivation(seq![mint_authority_label()], c.program_id@) is Some,
        c.mint_authority@ == pda(mint_authority_label(), c.program_id@),
        c.x_mint.mint_authority@ == pda(mint_authority_label(), c.program_id@),
        c.x_mint.supply + c.treasury_config_account.tokens_per_purchase <= u64::MAX,
        c.buyer_token_account.amount + c.treasury_config_account.tokens_per_purchase <= u64::MAX,
    ensures
        buy_check(c) is None,
{
}

/// Two initializations under the same program identity record the same
/// mint address and the same vault bump: both come from the deterministic
/// derivation of fixed seed labels.
pub proof fn lemma_initialization_deterministic(
    b1: InitializeTreasury,
    a1: InitializeTreasury,
    p1: u64,
    t1: u64,
    b2: InitializeTreasury,
    a2: InitializeTreasury,
    p2: u64,
    t2: u64,
)
    requires
        initialized(b1, a1, p1, t1),
        initialized(b2, a2, p2, t2),
        b1.program_id@ == b2.program_id@,
    ensures
        a1.treasury_config_account->Some_0.x_mint@ == a2.treasury_config_account->Some_0.x_mint@,
        a1.treasury_config_account->Some_0.bump == a2.treasury_config_account->Some_0.bump,
        a1.x_mint->Some_0.key@ == a2.x_mint->Some_0.key@,
        a1.x_mint->Some_0.mint_authority@ == a2.x_mint->Some_0.mint_authority@,
{
}

} // verus!
