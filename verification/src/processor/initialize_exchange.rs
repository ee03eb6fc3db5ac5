//! Creating and populating a vault's record at its derived address.
//!
//! The wire ordering of this operation's account list is
//! `[payer, vault, program, mint]`; the program account is the dispatcher's
//! own identity and travels here as `program_id`.

use crate::address::spec_match_vault;
use crate::address::match_vault;
use crate::address::Address;
use crate::errors::TokenTracingError;
use crate::ledger::create_account;
use crate::ledger::spec_create_account;
use crate::ledger::Account;
use crate::ledger::AccountModel;
use crate::ledger::LedgerError;
use crate::processor::ExchangeError;
use crate::state::spec_record_bytes;
use crate::state::ExchangeAccount;
use crate::state::EXCHANGE_ACCOUNT_LEN;
use vstd::prelude::*;

verus! {

/// What Initialize does to (payer, vault): a supplied vault address that is
/// not the derived one is refused; otherwise a record-sized account is
/// created at the vault address, funded by the payer with `rent_lamports`
/// and owned by the program, and the record `{admin: payer, vault}` is
/// written into it. Creation fails when the address is already in use, so a
/// second Initialize for the same mint fails.
pub open spec fn spec_process(
    program_id: Seq<u8>,
    payer: AccountModel,
    vault: AccountModel,
    mint: Seq<u8>,
    rent_lamports: u64,
) -> Result<(AccountModel, AccountModel), ExchangeError> {
    if spec_match_vault(program_id, mint, vault.address) is None {
        Err(ExchangeError::Booth(TokenTracingError::InvalidVaultAccount))
    } else {
        match spec_create_account(
            payer,
            vault,
            rent_lamports,
            EXCHANGE_ACCOUNT_LEN as int,
            program_id,
        ) {
            Err(e) => Err(ExchangeError::Ledger(e)),
            Ok((payer1, vault1)) => Ok(
                (
                    payer1,
                    AccountModel {
                        data: spec_record_bytes(payer.address, vault.address),
                        ..vault1
                    },
                ),
            ),
        }
    }
}

/// Performs the Initialize transition on the payer and the vault slot.
pub fn process(
    program_id: &Address,
    payer: &mut Account,
    vault: &mut Account,
    mint: &Address,
    rent_lamports: u64,
) -> (r: Result<(), ExchangeError>)
    ensures
        match r {
            Ok(()) => spec_process(program_id@, old(payer)@, old(vault)@, mint@, rent_lamports)
                == Ok::<(AccountModel, AccountModel), ExchangeError>(
                (final(payer)@, final(vault)@),
            ),
            Err(e) => {
                &&& spec_process(program_id@, old(payer)@, old(vault)@, mint@, rent_lamports)
                    == Err::<(AccountModel, AccountModel), ExchangeError>(e)
                &&& final(payer)@ == old(payer)@
                &&& final(vault)@ == old(vault)@
            },
        },
{
    let _bump = match match_vault(program_id, mint, &vault.address) {
        Some(bump) => bump,
        None => {
            return Err(ExchangeError::Booth(TokenTracingError::InvalidVaultAccount));
        },
    };
    match create_account(payer, vault, rent_lamports, EXCHANGE_ACCOUNT_LEN, program_id) {
        Err(e) => {
            return Err(ExchangeError::Ledger(e));
        },
        Ok(()) => {},
    }
    let record = ExchangeAccount { admin: payer.address, vault: vault.address };
    let data = record.pack();
    vault.data = data;
    Ok(())
}

/// A vault record stands only at the derived address: Initialize succeeds
/// only when the supplied vault account is the derivation's result, and what
/// it writes there is exactly the funding payer's address followed by the
/// vault's own.
pub proof fn lemma_record_only_at_derived_address(
    program_id: Seq<u8>,
    payer: AccountModel,
    vault: AccountModel,
    mint: Seq<u8>,
    rent_lamports: u64,
    payer1: AccountModel,
    vault1: AccountModel,
)
    requires
        (spec_process(program_id, payer, vault, mint, rent_lamports) == Ok::<
            (AccountModel, AccountModel),
            ExchangeError,
        >((payer1, vault1))),
    ensures
        (crate::address::spec_derive_vault(program_id, mint) matches Some(d) && d.0
            == vault1.address),
        vault1.data == payer.address + vault1.address,
        vault1.exists,
        vault1.owner == program_id,
        payer1.lamports == payer.lamports - rent_lamports,
{
}

/// Initialize is not idempotent, by design: after a successful Initialize
/// for a mint, a second Initialize for the same mint and the resulting vault
/// account fails because the address is already in use — whoever pays and
/// whatever rent is asked — and that failure changes nothing.
pub proof fn lemma_initialize_once(
    program_id: Seq<u8>,
    payer: AccountModel,
    vault: AccountModel,
    mint: Seq<u8>,
    rent_lamports: u64,
    payer1: AccountModel,
    vault1: AccountModel,
    payer2: AccountModel,
    rent2: u64,
)
    requires
        spec_process(program_id, payer, vault, mint, rent_lamports) == Ok::<
            (AccountModel, AccountModel),
            ExchangeError,
        >((payer1, vault1)),
    ensures
        spec_process(program_id, payer2, vault1, mint, rent2) == Err::<
            (AccountModel, AccountModel),
            ExchangeError,
        >(ExchangeError::Ledger(LedgerError::AccountInUse)),
{
}

/// Initialize succeeds for each of two mints under the same program when
/// each supplied vault account is fresh and stands at its own derived
/// address, and the payer can fund both records in turn.
pub proof fn lemma_initialize_two_mints(
    program_id: Seq<u8>,
    payer: AccountModel,
    vault_a: AccountModel,
    mint_a: Seq<u8>,
    rent_a: u64,
    vault_b: AccountModel,
    mint_b: Seq<u8>,
    rent_b: u64,
)
    requires
        spec_match_vault(program_id, mint_a, vault_a.address) is Some,
        spec_match_vault(program_id, mint_b, vault_b.address) is Some,
        !vault_a.exists,
        !vault_b.exists,
        payer.lamports >= rent_a + rent_b,
        vault_a.lamports + rent_a <= u64::MAX,
        vault_b.lamports + rent_b <= u64::MAX,
    ensures
        spec_process(program_id, payer, vault_a, mint_a, rent_a) is Ok,
        ({
            let payer1 = (spec_process(program_id, payer, vault_a, mint_a, rent_a)->Ok_0).0;
            spec_process(program_id, payer1, vault_b, mint_b, rent_b) is Ok
        }),
{
}

} // verus!
