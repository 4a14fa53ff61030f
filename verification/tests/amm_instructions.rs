use solana_programs::amm::errors::AmmError;
use solana_programs::amm::instructions::deposit::Deposit;
use solana_programs::amm::instructions::initialize::{Initialize, InitializeBumps};
use solana_programs::amm::instructions::swap::Swap;
use solana_programs::amm::instructions::update::UpdateConfig;
use solana_programs::amm::instructions::withdraw::{TokenVault, Withdraw};
use solana_programs::amm::state::{AmmConfig, Pool};
use solana_programs::pubkey::Pubkey;

fn key(b: u8) -> Pubkey {
    Pubkey([b; 32])
}

fn pool(locked: bool) -> Pool {
    Pool {
        config: key(1),
        mint_x: key(2),
        mint_y: key(3),
        lp_mint: key(4),
        pool_bump: 0,
        vault_x_bump: 0,
        vault_y_bump: 0,
        lp_bump: 0,
        locked,
    }
}

fn config(fee_rate: u16, authority: Option<Pubkey>) -> AmmConfig {
    AmmConfig { fee_rate, authority, index: 7, bump: 9 }
}

#[test]
fn initialize_writes_config_and_pool() {
    let mut ix = Initialize {
        payer: key(10),
        config_key: key(1),
        mint_x: key(2),
        mint_y: key(3),
        lp_mint: key(4),
        config: config(0, None),
        pool: pool(true),
    };
    let bumps = InitializeBumps { config: 1, pool: 2, lp_mint: 3, vault_x: 4, vault_y: 5 };
    assert_eq!(ix.handler(30, 7, &bumps), Ok(()));
    assert_eq!(ix.config.fee_rate, 30);
    assert!(ix.config.authority == Some(key(10)));
    assert_eq!(ix.config.bump, 1);
    assert!(ix.pool.config == key(1));
    assert!(ix.pool.lp_mint == key(4));
    assert_eq!(ix.pool.pool_bump, 2);
    assert_eq!(ix.pool.lp_bump, 3);
    assert!(!ix.pool.locked);
}

#[test]
fn initialize_refuses_full_fee() {
    let mut ix = Initialize {
        payer: key(10),
        config_key: key(1),
        mint_x: key(2),
        mint_y: key(3),
        lp_mint: key(4),
        config: config(0, None),
        pool: pool(false),
    };
    let bumps = InitializeBumps { config: 1, pool: 2, lp_mint: 3, vault_x: 4, vault_y: 5 };
    assert_eq!(ix.handler(10_000, 7, &bumps), Err(AmmError::InvalidFee));
    assert_eq!(ix.config.fee_rate, 0);
}

#[test]
fn deposit_first_and_later() {
    let d = Deposit { lp_provider: key(9), pool: pool(false), vault_x_amount: 0, vault_y_amount: 0, lp_supply: 0 };
    let ev = d.handler(100, 400, 200).unwrap();
    assert_eq!(ev.lp_minted, 200);
    assert_eq!(ev.amount_x, 100);
    assert_eq!(ev.amount_y, 400);
    assert!(ev.user == key(9));
    let d = Deposit { lp_provider: key(9), pool: pool(false), vault_x_amount: 100, vault_y_amount: 400, lp_supply: 200 };
    assert_eq!(d.handler(10, 40, 0).unwrap().lp_minted, 20);
}

#[test]
fn deposit_refusals() {
    let locked = Deposit { lp_provider: key(9), pool: pool(true), vault_x_amount: 100, vault_y_amount: 400, lp_supply: 200 };
    assert_eq!(locked.handler(10, 40, 0).unwrap_err(), AmmError::PoolLocked);
    let d = Deposit { lp_provider: key(9), pool: pool(false), vault_x_amount: 100, vault_y_amount: 400, lp_supply: 200 };
    assert_eq!(d.handler(0, 40, 0).unwrap_err(), AmmError::ZeroAmount);
    assert_eq!(d.handler(10, 40, 21).unwrap_err(), AmmError::SlippageExceeded);
}

#[test]
fn swap_handler_directions_and_refusals() {
    let s = Swap { user: key(9), config: config(30, Some(key(5))), pool: pool(false), vault_x_amount: 1000, vault_y_amount: 2000 };
    let ev = s.handler(100, 180, true).unwrap();
    assert_eq!((ev.amount_out, ev.fee, ev.amount_in), (180, 1, 100));
    assert!(ev.x_to_y);
    assert_eq!(s.handler(200, 0, false).unwrap().amount_out, 90);
    assert_eq!(s.handler(100, 181, true).unwrap_err(), AmmError::SlippageExceeded);
    assert_eq!(s.handler(0, 0, true).unwrap_err(), AmmError::ZeroAmount);
    let locked = Swap { pool: pool(true), ..s };
    assert_eq!(locked.handler(100, 0, true).unwrap_err(), AmmError::PoolLocked);
}

fn withdraw_ctx() -> Withdraw {
    Withdraw {
        user: key(9),
        pool_key: key(20),
        pool: pool(false),
        mint_x: key(2),
        mint_y: key(3),
        lp_mint: key(4),
        vault_x: TokenVault { owner: key(20), mint: key(2), amount: 1000 },
        vault_y: TokenVault { owner: key(20), mint: key(3), amount: 2000 },
        lp_supply: 1414,
    }
}

#[test]
fn withdraw_handler_pays_share() {
    let ev = withdraw_ctx().handler(707, 500, 1000).unwrap();
    assert_eq!((ev.amount_x, ev.amount_y, ev.lp_burned), (500, 1000, 707));
    assert_eq!(withdraw_ctx().handler(707, 501, 0).unwrap_err(), AmmError::SlippageExceeded);
    assert_eq!(withdraw_ctx().handler(707, 0, 1001).unwrap_err(), AmmError::SlippageExceeded);
    assert_eq!(withdraw_ctx().handler(0, 0, 0).unwrap_err(), AmmError::ZeroLpAmount);
}

#[test]
fn withdraw_account_checks() {
    let mut w = withdraw_ctx();
    w.mint_x = key(30);
    assert_eq!(w.handler(707, 0, 0).unwrap_err(), AmmError::InvalidMint);
    let mut w = withdraw_ctx();
    w.lp_mint = key(30);
    assert_eq!(w.handler(707, 0, 0).unwrap_err(), AmmError::InvalidMint);
    let mut w = withdraw_ctx();
    w.vault_y.owner = key(30);
    assert_eq!(w.handler(707, 0, 0).unwrap_err(), AmmError::InvalidVaultOwner);
    let mut w = withdraw_ctx();
    w.vault_x.mint = key(3);
    assert_eq!(w.handler(707, 0, 0).unwrap_err(), AmmError::InvalidMint);
}

fn update_ctx() -> UpdateConfig {
    UpdateConfig { authority: key(5), config_key: key(1), config: config(30, Some(key(5))), pool: pool(false) }
}

#[test]
fn update_changes_fee_lock_and_authority() {
    let mut u = update_ctx();
    assert_eq!(u.handler(Some(50), Some(true), Some(key(6)), false), Ok(()));
    assert_eq!(u.config.fee_rate, 50);
    assert!(u.pool.locked);
    assert!(u.config.authority == Some(key(6)));
    // the old authority is now refused
    assert_eq!(u.handler(Some(60), None, None, false), Err(AmmError::Unauthorized));
    assert_eq!(u.config.fee_rate, 50);
}

#[test]
fn update_refusals_change_nothing() {
    let mut u = update_ctx();
    assert_eq!(u.handler(Some(10_000), Some(true), None, false), Err(AmmError::InvalidFee));
    assert_eq!(u.config.fee_rate, 30);
    assert!(!u.pool.locked);
    let mut u = update_ctx();
    u.authority = key(7);
    assert_eq!(u.handler(Some(1), None, None, false), Err(AmmError::Unauthorized));
    let mut u = update_ctx();
    u.config_key = key(8);
    assert_eq!(u.handler(Some(1), None, None, false), Err(AmmError::InvalidConfig));
}

#[test]
fn renounce_is_final() {
    let mut u = update_ctx();
    assert_eq!(u.handler(None, None, Some(key(6)), true), Ok(()));
    assert!(u.config.authority.is_none());
    assert_eq!(u.handler(Some(1), None, None, false), Err(AmmError::AuthorityRenounced));
    assert_eq!(u.config.fee_rate, 30);
}
