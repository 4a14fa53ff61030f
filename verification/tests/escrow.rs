use solana_programs::escrow::error::EscrowError;
use solana_programs::escrow::ix::cancel::{cancel_handler, Cancel};
use solana_programs::escrow::ix::make::{make_handler, Make, MakeBumps};
use solana_programs::escrow::ix::take::{take_handler, Take};
use solana_programs::escrow::state::{Escrow, EscrowStatus};
use solana_programs::pubkey::Pubkey;

fn key(b: u8) -> Pubkey {
    Pubkey([b; 32])
}

fn blank() -> Escrow {
    Escrow { maker: key(0), taker: key(0), sol_amount: 0, usdc_amount: 0, status: EscrowStatus::Cancelled, bump: 0, vault_bump: 0 }
}

fn opened() -> Escrow {
    let mut m = Make { maker: key(1), escrow: blank(), bumps: MakeBumps { escrow: 3, vault: 4 } };
    make_handler(&mut m, 5_000, 20).unwrap();
    m.escrow
}

#[test]
fn make_opens_escrow() {
    let e = opened();
    assert!(e.maker == key(1));
    assert!(e.taker == Pubkey::default_key());
    assert_eq!((e.sol_amount, e.usdc_amount), (5_000, 20));
    assert_eq!(e.status, EscrowStatus::Open);
    assert_eq!((e.bump, e.vault_bump), (3, 4));
}

#[test]
fn make_refuses_zero_amounts() {
    let mut m = Make { maker: key(1), escrow: blank(), bumps: MakeBumps { escrow: 3, vault: 4 } };
    assert_eq!(make_handler(&mut m, 0, 20), Err(EscrowError::InvalidSolAmount));
    assert_eq!(make_handler(&mut m, 5, 0), Err(EscrowError::InvalidUsdcAmount));
    assert_eq!(m.escrow.status, EscrowStatus::Cancelled);
}

#[test]
fn take_completes_once() {
    let mut t = Take { taker: key(2), maker: key(1), escrow: opened() };
    assert_eq!(take_handler(&mut t), Ok(()));
    assert_eq!(t.escrow.status, EscrowStatus::Completed);
    assert!(t.escrow.taker == key(2));
    assert_eq!(t.escrow.sol_amount, 5_000);
    assert_eq!(take_handler(&mut t), Err(EscrowError::NotOpen));
    let mut c = Cancel { maker: key(1), escrow: t.escrow };
    assert_eq!(cancel_handler(&mut c), Err(EscrowError::NotOpen));
}

#[test]
fn cancel_by_maker_only() {
    let mut c = Cancel { maker: key(9), escrow: opened() };
    assert_eq!(cancel_handler(&mut c), Err(EscrowError::Unauthorized));
    assert_eq!(c.escrow.status, EscrowStatus::Open);
    let mut c = Cancel { maker: key(1), escrow: opened() };
    assert_eq!(cancel_handler(&mut c), Ok(()));
    assert_eq!(c.escrow.status, EscrowStatus::Cancelled);
    let mut t = Take { taker: key(2), maker: key(1), escrow: c.escrow };
    assert_eq!(take_handler(&mut t), Err(EscrowError::NotOpen));
}

#[test]
fn take_refuses_a_foreign_maker() {
    let mut t = Take { taker: key(2), maker: key(9), escrow: opened() };
    assert_eq!(take_handler(&mut t), Err(EscrowError::Unauthorized));
    assert_eq!(t.escrow.status, EscrowStatus::Open);
}
