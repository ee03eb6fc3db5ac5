//! The three operations, run against explicit account records.

use tokentracing::address::{derive_vault, Address};
use tokentracing::errors::TokenTracingError;
use tokentracing::ledger::{Account, LedgerError};
use tokentracing::processor::{exchange_SOL_to_token, exchange_token_to_SOL, initialize_exchange};
use tokentracing::processor::ExchangeError;
use tokentracing::state::ExchangeAccount;

const RENT: u64 = 1_500_000;

fn addr(fill: u8) -> Address {
    Address::new([fill; 32])
}

fn account(address: Address, lamports: u64, tokens: u64) -> Account {
    Account {
        address,
        lamports,
        tokens,
        owner: addr(0),
        data: vec![],
        exists: true,
    }
}

fn empty_slot(address: Address) -> Account {
    Account {
        address,
        lamports: 0,
        tokens: 0,
        owner: addr(0),
        data: vec![],
        exists: false,
    }
}

#[test]
fn test_initialize() {
    let program = addr(1);
    let mint = addr(2);
    let (vault_addr, _bump) = derive_vault(&program, &mint).expect("derivation");

    let mut payer = account(addr(3), 10_000_000, 0);
    let mut vault = empty_slot(vault_addr);

    // a vault account that is not the derived one is refused outright
    let mut wrong_vault = empty_slot(addr(9));
    let r = initialize_exchange::process(&program, &mut payer, &mut wrong_vault, &mint, RENT);
    assert_eq!(
        r,
        Err(ExchangeError::Booth(TokenTracingError::InvalidVaultAccount))
    );
    assert_eq!(payer, account(addr(3), 10_000_000, 0));

    // creating the vault moves the rent and writes the record
    let r = initialize_exchange::process(&program, &mut payer, &mut vault, &mint, RENT);
    assert_eq!(r, Ok(()));
    assert!(vault.exists);
    assert_eq!(vault.owner.bytes, program.bytes);
    assert_eq!(vault.lamports, RENT);
    assert_eq!(payer.lamports, 10_000_000 - RENT);
    let record = ExchangeAccount::unpack(&vault.data).expect("a 64-byte record");
    assert_eq!(record.admin.bytes, payer.address.bytes);
    assert_eq!(record.vault.bytes, vault_addr.bytes);

    // a second Initialize for the same mint hits the existing account
    let before_payer = payer.clone();
    let before_vault = vault.clone();
    let r = initialize_exchange::process(&program, &mut payer, &mut vault, &mint, RENT);
    assert_eq!(r, Err(ExchangeError::Ledger(LedgerError::AccountInUse)));
    assert_eq!(payer, before_payer);
    assert_eq!(vault, before_vault);

    // another payer fares no better
    let mut other_payer = account(addr(4), 10_000_000, 0);
    let r = initialize_exchange::process(&program, &mut other_payer, &mut vault, &mint, RENT);
    assert_eq!(r, Err(ExchangeError::Ledger(LedgerError::AccountInUse)));
    assert_eq!(other_payer, account(addr(4), 10_000_000, 0));

    // a second mint gets its own vault at its own address
    let mint_b = addr(5);
    let (vault_b_addr, _) = derive_vault(&program, &mint_b).expect("derivation");
    assert_ne!(vault_b_addr.bytes, vault_addr.bytes);
    let mut vault_b = empty_slot(vault_b_addr);
    let r = initialize_exchange::process(&program, &mut payer, &mut vault_b, &mint_b, RENT);
    assert_eq!(r, Ok(()));
    assert_eq!(payer.lamports, 10_000_000 - 2 * RENT);
}

#[test]
#[allow(non_snake_case)]
fn test_SOL_to_token() {
    let program = addr(1);
    let mint = addr(2);
    let (vault_addr, _bump) = derive_vault(&program, &mint).expect("derivation");

    let mut payer = account(addr(3), 10_000, 0);
    let mut payer_token = account(addr(4), 0, 0);
    let mut vault = account(vault_addr, RENT, 0);
    let mut vault_token = account(addr(6), 0, 50_000);

    let amount: u32 = 1000;
    let r = exchange_SOL_to_token::process(
        &program,
        &mut payer,
        &mut payer_token,
        &mint,
        &mut vault,
        &mut vault_token,
        amount,
    );
    assert_eq!(r, Ok(()));
    // 1000 lamports went from payer to vault
    assert_eq!(payer.lamports, 9_000);
    assert_eq!(vault.lamports, RENT + 1000);
    // 10000 token units came back from the vault's token account
    assert_eq!(vault_token.tokens, 40_000);
    assert_eq!(payer_token.tokens, 10_000);

    // a vault address that is not the derived one is refused
    let mut wrong_vault = account(addr(9), RENT, 0);
    let r = exchange_SOL_to_token::process(
        &program,
        &mut payer,
        &mut payer_token,
        &mint,
        &mut wrong_vault,
        &mut vault_token,
        amount,
    );
    assert_eq!(
        r,
        Err(ExchangeError::Booth(TokenTracingError::InvalidAccountAddress))
    );

    // a payer who cannot pay the first leg changes nothing
    let snapshot = (
        payer.clone(),
        payer_token.clone(),
        vault.clone(),
        vault_token.clone(),
    );
    let r = exchange_SOL_to_token::process(
        &program,
        &mut payer,
        &mut payer_token,
        &mint,
        &mut vault,
        &mut vault_token,
        1_000_000,
    );
    assert_eq!(r, Err(ExchangeError::Ledger(LedgerError::InsufficientFunds)));
    assert_eq!(payer, snapshot.0);
    assert_eq!(payer_token, snapshot.1);
    assert_eq!(vault, snapshot.2);
    assert_eq!(vault_token, snapshot.3);

    // when the vault cannot pay the second leg, the first leg is not kept
    vault_token.tokens = 5;
    let snapshot = (
        payer.clone(),
        payer_token.clone(),
        vault.clone(),
        vault_token.clone(),
    );
    let r = exchange_SOL_to_token::process(
        &program,
        &mut payer,
        &mut payer_token,
        &mint,
        &mut vault,
        &mut vault_token,
        amount,
    );
    assert_eq!(r, Err(ExchangeError::Ledger(LedgerError::InsufficientFunds)));
    assert_eq!(payer, snapshot.0);
    assert_eq!(payer_token, snapshot.1);
    assert_eq!(vault, snapshot.2);
    assert_eq!(vault_token, snapshot.3);
}

#[test]
#[allow(non_snake_case)]
fn test_token_to_SOL() {
    let program = addr(1);
    let mint = addr(2);
    let (vault_addr, _bump) = derive_vault(&program, &mint).expect("derivation");

    let mut payer = account(addr(3), 10_000, 0);
    let mut payer_token = account(addr(4), 0, 5_000);
    let mut vault = account(vault_addr, RENT, 0);
    let mut vault_token = account(addr(6), 0, 0);

    let amount: u32 = 1000;
    let r = exchange_token_to_SOL::process(
        &program,
        &mut payer,
        &mut payer_token,
        &mint,
        &mut vault,
        &mut vault_token,
        amount,
    );
    assert_eq!(r, Ok(()));
    // 1000 token units went from payer to vault
    assert_eq!(payer_token.tokens, 4_000);
    assert_eq!(vault_token.tokens, 1_000);
    // 1000 / 10 = 100 lamports were released back
    assert_eq!(vault.lamports, RENT - 100);
    assert_eq!(payer.lamports, 10_100);

    // the released amount truncates: 7 token units buy no lamport back
    let r = exchange_token_to_SOL::process(
        &program,
        &mut payer,
        &mut payer_token,
        &mint,
        &mut vault,
        &mut vault_token,
        7,
    );
    assert_eq!(r, Ok(()));
    assert_eq!(payer_token.tokens, 3_993);
    assert_eq!(vault_token.tokens, 1_007);
    assert_eq!(vault.lamports, RENT - 100);
    assert_eq!(payer.lamports, 10_100);

    // a payer without the tokens changes nothing
    let snapshot = (
        payer.clone(),
        payer_token.clone(),
        vault.clone(),
        vault_token.clone(),
    );
    let r = exchange_token_to_SOL::process(
        &program,
        &mut payer,
        &mut payer_token,
        &mint,
        &mut vault,
        &mut vault_token,
        1_000_000,
    );
    assert_eq!(r, Err(ExchangeError::Ledger(LedgerError::InsufficientFunds)));
    assert_eq!(payer, snapshot.0);
    assert_eq!(payer_token, snapshot.1);
    assert_eq!(vault, snapshot.2);
    assert_eq!(vault_token, snapshot.3);
}
