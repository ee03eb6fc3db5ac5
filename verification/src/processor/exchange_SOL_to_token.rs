//! The native-to-token direction: the payer pays `amount` lamports into the
//! vault and receives ten token units per lamport paid.
//!
//! The wire ordering of this operation's account list is
//! `[program, payer, payer_token_account, mint, vault, vault_token_account,
//! token_service, native_service]`; the two service accounts are runtime
//! plumbing and stay with the runtime-facing shell.

use crate::address::spec_match_vault;
use crate::address::match_vault;
use crate::address::Address;
use crate::errors::TokenTracingError;
use crate::ledger::spec_transfer_lamports;
use crate::ledger::spec_transfer_tokens;
use crate::ledger::transfer_lamports;
use crate::ledger::transfer_tokens;
use crate::ledger::Account;
use crate::ledger::AccountModel;
use crate::processor::ExchangeError;
use vstd::prelude::*;

verus! {

/// The fixed exchange rate: one native unit buys ten token units.
pub const RATE_TOKENS_PER_LAMPORT: u64 = 10;

/// What the native-to-token exchange does to (payer, payer token account,
/// vault, vault token account): after the vault address is validated,
/// `amount` lamports move from payer to vault, then `10 * amount` token
/// units move from the vault's token account to the payer's, both legs or
/// neither.
pub open spec fn spec_process(
    program_id: Seq<u8>,
    payer: AccountModel,
    payer_token: AccountModel,
    mint: Seq<u8>,
    vault: AccountModel,
    vault_token: AccountModel,
    amount: u32,
) -> Result<(AccountModel, AccountModel, AccountModel, AccountModel), ExchangeError> {
    if spec_match_vault(program_id, mint, vault.address) is None {
        Err(ExchangeError::Booth(TokenTracingError::InvalidAccountAddress))
    } else {
        match spec_transfer_lamports(payer, vault, amount as u64) {
            Err(e) => Err(ExchangeError::Ledger(e)),
            Ok((payer1, vault1)) => match spec_transfer_tokens(
                vault_token,
                payer_token,
                ((amount as u64) * RATE_TOKENS_PER_LAMPORT) as u64,
            ) {
                Err(e) => Err(ExchangeError::Ledger(e)),
                Ok((vault_token1, payer_token1)) => Ok(
                    (payer1, payer_token1, vault1, vault_token1),
                ),
            },
        }
    }
}

/// Performs the native-to-token transition on the four accounts.
pub fn process(
    program_id: &Address,
    payer: &mut Account,
    payer_token: &mut Account,
    mint: &Address,
    vault: &mut Account,
    vault_token: &mut Account,
    amount: u32,
) -> (r: Result<(), ExchangeError>)
    ensures
        ({
            let s = spec_process(
                program_id@,
                old(payer)@,
                old(payer_token)@,
                mint@,
                old(vault)@,
                old(vault_token)@,
                amount,
            );
            match r {
                Ok(()) => s == Ok::<
                    (AccountModel, AccountModel, AccountModel, AccountModel),
                    ExchangeError,
                >((final(payer)@, final(payer_token)@, final(vault)@, final(vault_token)@)),
                Err(e) => {
                    &&& s == Err::<
                        (AccountModel, AccountModel, AccountModel, AccountModel),
                        ExchangeError,
                    >(e)
                    &&& final(payer)@ == old(payer)@
                    &&& final(payer_token)@ == old(payer_token)@
                    &&& final(vault)@ == old(vault)@
                    &&& final(vault_token)@ == old(vault_token)@
                },
            }
        }),
{
    let _bump = match match_vault(program_id, mint, &vault.address) {
        Some(bump) => bump,
        None => {
            return Err(ExchangeError::Booth(TokenTracingError::InvalidAccountAddress));
        },
    };
    match transfer_lamports(payer, vault, amount as u64) {
        Err(e) => {
            return Err(ExchangeError::Ledger(e));
        },
        Ok(()) => {},
    }
    let tokens = (amount as u64) * RATE_TOKENS_PER_LAMPORT;
    match transfer_tokens(vault_token, payer_token, tokens) {
        Err(e) => {
            // the host runtime voids every prior write of a failed
            // invocation; undo the first leg to keep the same promise
            vault.lamports = vault.lamports - amount as u64;
            payer.lamports = payer.lamports + amount as u64;
            proof {
                assert(payer@ =~= old(payer)@);
                assert(vault@ =~= old(vault)@);
            }
            return Err(ExchangeError::Ledger(e));
        },
        Ok(()) => {},
    }
    Ok(())
}

/// For every amount, a successful native-to-token exchange moves exactly
/// `amount` lamports from payer to vault and exactly `10 * amount` token
/// units from the vault's token account to the payer's — nothing else.
pub proof fn lemma_exchange_out_rate(
    program_id: Seq<u8>,
    payer: AccountModel,
    payer_token: AccountModel,
    mint: Seq<u8>,
    vault: AccountModel,
    vault_token: AccountModel,
    amount: u32,
    payer1: AccountModel,
    payer_token1: AccountModel,
    vault1: AccountModel,
    vault_token1: AccountModel,
)
    requires
        (spec_process(program_id, payer, payer_token, mint, vault, vault_token, amount) == Ok::<
            (AccountModel, AccountModel, AccountModel, AccountModel),
            ExchangeError,
        >((payer1, payer_token1, vault1, vault_token1))),
    ensures
        payer1.lamports == payer.lamports - amount,
        vault1.lamports == vault.lamports + amount,
        payer_token1.tokens == payer_token.tokens + 10 * amount,
        vault_token1.tokens == vault_token.tokens - 10 * amount,
        payer1 == (AccountModel { lamports: payer1.lamports, ..payer }),
        payer_token1 == (AccountModel { tokens: payer_token1.tokens, ..payer_token }),
        vault1 == (AccountModel { lamports: vault1.lamports, ..vault }),
        vault_token1 == (AccountModel { tokens: vault_token1.tokens, ..vault_token }),
{
}

} // verus!
