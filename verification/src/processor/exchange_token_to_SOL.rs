//! The token-to-native direction: the payer pays `amount` token units into
//! the vault's token account and receives one lamport per ten units paid,
//! truncating.
//!
//! The account list's wire ordering is the same as in the native-to-token
//! direction.

use crate::address::spec_match_vault;
use crate::address::match_vault;
use crate::address::Address;
use crate::errors::TokenTracingError;
use crate::ledger::spec_transfer_lamports;
use crate::ledger::spec_transfer_tokens;
use crate::ledger::transfer_lamports;
use crate::ledger::transfer_tokens;
use crate::ledger::Account;
use crate::ledger::AccountModel;
use crate::processor::ExchangeError;
use vstd::prelude::*;

verus! {

/// How many token units buy one native unit back.
pub const RATE_TOKENS_PER_LAMPORT: u64 = 10;

/// What the token-to-native exchange does to (payer, payer token account,
/// vault, vault token account): after the vault address is validated,
/// `amount` token units move from the payer's token account to the vault's,
/// then `amount / 10` lamports (integer division, the remainder is not
/// tracked) move from the vault to the payer, both legs or neither.
pub open spec fn spec_process(
    program_id: Seq<u8>,
    payer: AccountModel,
    payer_token: AccountModel,
    mint: Seq<u8>,
    vault: AccountModel,
    vault_token: AccountModel,
    amount: u32,
) -> Result<(AccountModel, AccountModel, AccountModel, AccountModel), ExchangeError> {
    if spec_match_vault(program_id, mint, vault.address) is None {
        Err(ExchangeError::Booth(TokenTracingError::InvalidAccountAddress))
    } else {
        match spec_transfer_tokens(payer_token, vault_token, amount as u64) {
            Err(e) => Err(ExchangeError::Ledger(e)),
            Ok((payer_token1, vault_token1)) => match spec_transfer_lamports(
                vault,
                payer,
                (amount / 10) as u64,
            ) {
                Err(e) => Err(ExchangeError::Ledger(e)),
                Ok((vault1, payer1)) => Ok((payer1, payer_token1, vault1, vault_token1)),
            },
        }
    }
}

/// Performs the token-to-native transition on the four accounts.
pub fn process(
    program_id: &Address,
    payer: &mut Account,
    payer_token: &mut Account,
    mint: &Address,
    vault: &mut Account,
    vault_token: &mut Account,
    amount: u32,
) -> (r: Result<(), ExchangeError>)
    ensures
        ({
            let s = spec_process(
                program_id@,
                old(payer)@,
                old(payer_token)@,
                mint@,
                old(vault)@,
                old(vault_token)@,
                amount,
            );
            match r {
                Ok(()) => s == Ok::<
                    (AccountModel, AccountModel, AccountModel, AccountModel),
                    ExchangeError,
                >((final(payer)@, final(payer_token)@, final(vault)@, final(vault_token)@)),
                Err(e) => {
                    &&& s == Err::<
                        (AccountModel, AccountModel, AccountModel, AccountModel),
                        ExchangeError,
                    >(e)
                    &&& final(payer)@ == old(payer)@
                    &&& final(payer_token)@ == old(payer_token)@
                    &&& final(vault)@ == old(vault)@
                    &&& final(vault_token)@ == old(vault_token)@
                },
            }
        }),
{
    let _bump = match match_vault(program_id, mint, &vault.address) {
        Some(bump) => bump,
        None => {
            return Err(ExchangeError::Booth(TokenTracingError::InvalidAccountAddress));
        },
    };
    match transfer_tokens(payer_token, vault_token, amount as u64) {
        Err(e) => {
            return Err(ExchangeError::Ledger(e));
        },
        Ok(()) => {},
    }
    let released = (amount / 10) as u64;
    match transfer_lamports(vault, payer, released) {
        Err(e) => {
            // the host runtime voids every prior write of a failed
            // invocation; undo the first leg to keep the same promise
            vault_token.tokens = vault_token.tokens - amount as u64;
            payer_token.tokens = payer_token.tokens + amount as u64;
            proof {
                assert(payer_token@ =~= old(payer_token)@);
                assert(vault_token@ =~= old(vault_token)@);
            }
            return Err(ExchangeError::Ledger(e));
        },
        Ok(()) => {},
    }
    Ok(())
}

/// For every amount, a successful token-to-native exchange moves exactly
/// `amount` token units from the payer's token account to the vault's and
/// releases exactly `amount / 10` lamports (integer division, no fractional
/// remainder tracked or reimbursed) from vault to payer — nothing else.
pub proof fn lemma_exchange_in_rate(
    program_id: Seq<u8>,
    payer: AccountModel,
    payer_token: AccountModel,
    mint: Seq<u8>,
    vault: AccountModel,
    vault_token: AccountModel,
    amount: u32,
    payer1: AccountModel,
    payer_token1: AccountModel,
    vault1: AccountModel,
    vault_token1: AccountModel,
)
    requires
        (spec_process(program_id, payer, payer_token, mint, vault, vault_token, amount) == Ok::<
            (AccountModel, AccountModel, AccountModel, AccountModel),
            ExchangeError,
        >((payer1, payer_token1, vault1, vault_token1))),
    ensures
        payer_token1.tokens == payer_token.tokens - amount,
        vault_token1.tokens == vault_token.tokens + amount,
        vault1.lamports == vault.lamports - amount / 10,
        payer1.lamports == payer.lamports + amount / 10,
        payer1 == (AccountModel { lamports: payer1.lamports, ..payer }),
        payer_token1 == (AccountModel { tokens: payer_token1.tokens, ..payer_token }),
        vault1 == (AccountModel { lamports: vault1.lamports, ..vault }),
        vault_token1 == (AccountModel { tokens: vault_token1.tokens, ..vault_token }),
{
}

} // verus!
