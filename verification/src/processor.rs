//! Instruction dispatch: decode the buffer, route to the matching handler,
//! and propagate any failure unchanged.
//!
//! The dispatcher takes the union of the accounts the three operations
//! touch. The wire ordering of an invocation's account list is the
//! runtime-facing shell's concern; here each account travels under its own
//! name.

use crate::address::Address;
use crate::errors::TokenTracingError;
use crate::instruction::spec_unpack;
use crate::instruction::TokenTracingInstruction;
use crate::ledger::Account;
use crate::ledger::AccountModel;
use crate::ledger::LedgerError;
use vstd::prelude::*;

#[allow(non_snake_case)]
pub mod exchange_SOL_to_token;
#[allow(non_snake_case)]
pub mod exchange_token_to_SOL;
pub mod initialize_exchange;

verus! {

/// Everything an invocation can fail with: one of this program's own checks,
/// or a refusal of the ledger service it delegates to.
#[derive(Clone, Copy, Debug, PartialEq, Eq, Structural)]
pub enum ExchangeError {
    Booth(TokenTracingError),
    Ledger(LedgerError),
}

/// What one whole invocation does to the four accounts it may touch, in the
/// order (payer, payer token account, vault, vault token account).
///
/// A buffer that does not decode is answered with the bad-data code, as the
/// dispatch boundary reports every decode failure; otherwise the decoded
/// operation's own transition decides.
pub open spec fn spec_process_instruction(
    program_id: Seq<u8>,
    payer: AccountModel,
    payer_token: AccountModel,
    mint: Seq<u8>,
    vault: AccountModel,
    vault_token: AccountModel,
    rent_lamports: u64,
    instruction_data: Seq<u8>,
) -> Result<(AccountModel, AccountModel, AccountModel, AccountModel), ExchangeError> {
    match spec_unpack(instruction_data) {
        Err(_) => Err(ExchangeError::Booth(TokenTracingError::InvalidInstructionData)),
        Ok(TokenTracingInstruction::Initialize) => match initialize_exchange::spec_process(
            program_id,
            payer,
            vault,
            mint,
            rent_lamports,
        ) {
            Err(e) => Err(e),
            Ok((payer1, vault1)) => Ok((payer1, payer_token, vault1, vault_token)),
        },
        Ok(
            TokenTracingInstruction::ExchangeSOLToToken { amount },
        ) => exchange_SOL_to_token::spec_process(
            program_id,
            payer,
            payer_token,
            mint,
            vault,
            vault_token,
            amount,
        ),
        Ok(
            TokenTracingInstruction::ExchangeTokenToSOL { amount },
        ) => exchange_token_to_SOL::spec_process(
            program_id,
            payer,
            payer_token,
            mint,
            vault,
            vault_token,
            amount,
        ),
    }
}

/// The stateless dispatcher.
pub struct Processor;

impl Processor {
    /// Decodes one instruction buffer and performs the operation it names on
    /// the given accounts. Fails atomically: on any error every account is
    /// left as it was.
    pub fn process_instruction(
        program_id: &Address,
        payer: &mut Account,
        payer_token: &mut Account,
        mint: &Address,
        vault: &mut Account,
        vault_token: &mut Account,
        rent_lamports: u64,
        instruction_data: &[u8],
    ) -> (r: Result<(), ExchangeError>)
        ensures
            ({
                let s = spec_process_instruction(
                    program_id@,
                    old(payer)@,
                    old(payer_token)@,
                    mint@,
                    old(vault)@,
                    old(vault_token)@,
                    rent_lamports,
                    instruction_data@,
                );
                match r {
                    Ok(()) => s == Ok::<
                        (AccountModel, AccountModel, AccountModel, AccountModel),
                        ExchangeError,
                    >((final(payer)@, final(payer_token)@, final(vault)@, final(vault_token)@)),
                    Err(e) => {
                        &&& s == Err::<
                            (AccountModel, AccountModel, AccountModel, AccountModel),
                            ExchangeError,
                        >(e)
                        &&& final(payer)@ == old(payer)@
                        &&& final(payer_token)@ == old(payer_token)@
                        &&& final(vault)@ == old(vault)@
                        &&& final(vault_token)@ == old(vault_token)@
                    },
                }
            }),
    {
        let instruction = match TokenTracingInstruction::unpack(instruction_data) {
            Ok(instruction) => instruction,
            Err(_) => {
                return Err(ExchangeError::Booth(TokenTracingError::InvalidInstructionData));
            },
        };
        match instruction {
            TokenTracingInstruction::Initialize => initialize_exchange::process(
                program_id,
                payer,
                vault,
                mint,
                rent_lamports,
            ),
            TokenTracingInstruction::ExchangeSOLToToken { amount } => exchange_SOL_to_token::process(
                program_id,
                payer,
                payer_token,
                mint,
                vault,
                vault_token,
                amount,
            ),
            TokenTracingInstruction::ExchangeTokenToSOL { amount } => exchange_token_to_SOL::process(
                program_id,
                payer,
                payer_token,
                mint,
                vault,
                vault_token,
                amount,
            ),
        }
    }
}

} // verus!
