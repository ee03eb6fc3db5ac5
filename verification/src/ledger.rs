//! The ledger's account records and the external service's transfer and
//! account-creation semantics, stated as explicit state transitions.
//!
//! The host runtime owns the real balances; the handlers are verified
//! against these transitions, and the runtime-facing shell performs the same
//! steps through the runtime's primitives. A transition either applies
//! whole or reports a failure and changes nothing.

use crate::address::Address;
use vstd::prelude::*;

verus! {

/// A failure of the ledger service itself, as opposed to one of this
/// program's own checks.
#[derive(Clone, Copy, Debug, PartialEq, Eq, Structural)]
pub enum LedgerError {
    /// Account creation hit an address that already holds an account.
    AccountInUse,
    /// A transfer's source balance is smaller than the amount moved.
    InsufficientFunds,
    /// A transfer would push the destination balance past its capacity.
    BalanceOverflow,
}

/// The mathematical image of one account: what the ledger knows of it.
#[verifier::ext_equal]
pub ghost struct AccountModel {
    pub address: Seq<u8>,
    pub lamports: u64,
    pub tokens: u64,
    pub owner: Seq<u8>,
    pub data: Seq<u8>,
    pub exists: bool,
}

/// One account as this program sees it: its address, its native balance in
/// lamports, its token balance, its owner, its stored bytes, and whether an
/// account lives at the address at all.
#[derive(Clone, Debug, PartialEq, Eq)]
pub struct Account {
    pub address: Address,
    pub lamports: u64,
    pub tokens: u64,
    pub owner: Address,
    pub data: Vec<u8>,
    pub exists: bool,
}

impl View for Account {
    type V = AccountModel;

    open spec fn view(&self) -> AccountModel {
        AccountModel {
            address: self.address@,
            lamports: self.lamports,
            tokens: self.tokens,
            owner: self.owner@,
            data: self.data@,
            exists: self.exists,
        }
    }
}

/// Moving `amount` lamports from one account to another: both balances move
/// together, or the service refuses and neither moves.
pub open spec fn spec_transfer_lamports(
    from: AccountModel,
    to: AccountModel,
    amount: u64,
) -> Result<(AccountModel, AccountModel), LedgerError> {
    if from.lamports < amount {
        Err(LedgerError::InsufficientFunds)
    } else if to.lamports + amount > u64::MAX {
        Err(LedgerError::BalanceOverflow)
    } else {
        Ok(
            (
                AccountModel { lamports: (from.lamports - amount) as u64, ..from },
                AccountModel { lamports: (to.lamports + amount) as u64, ..to },
            ),
        )
    }
}

/// Moving `amount` token units from one token account to another, with the
/// same all-or-nothing shape as the lamport transfer.
pub open spec fn spec_transfer_tokens(
    from: AccountModel,
    to: AccountModel,
    amount: u64,
) -> Result<(AccountModel, AccountModel), LedgerError> {
    if from.tokens < amount {
        Err(LedgerError::InsufficientFunds)
    } else if to.tokens + amount > u64::MAX {
        Err(LedgerError::BalanceOverflow)
    } else {
        Ok(
            (
                AccountModel { tokens: (from.tokens - amount) as u64, ..from },
                AccountModel { tokens: (to.tokens + amount) as u64, ..to },
            ),
        )
    }
}

/// Creating an account of `space` zeroed bytes at a fresh address: the payer
/// funds it with `lamports`, and the new account belongs to `owner`. The
/// service refuses atomically when the address is already in use or the
/// payer cannot fund it.
pub open spec fn spec_create_account(
    payer: AccountModel,
    fresh: AccountModel,
    lamports: u64,
    space: int,
    owner: Seq<u8>,
) -> Result<(AccountModel, AccountModel), LedgerError> {
    if fresh.exists {
        Err(LedgerError::AccountInUse)
    } else if payer.lamports < lamports {
        Err(LedgerError::InsufficientFunds)
    } else if fresh.lamports + lamports > u64::MAX {
        Err(LedgerError::BalanceOverflow)
    } else {
        Ok(
            (
                AccountModel { lamports: (payer.lamports - lamports) as u64, ..payer },
                AccountModel {
                    lamports: (fresh.lamports + lamports) as u64,
                    owner,
                    data: Seq::new(space as nat, |k: int| 0u8),
                    exists: true,
                    ..fresh
                },
            ),
        )
    }
}

/// Performs the lamport transfer transition on two live accounts.
pub fn transfer_lamports(from: &mut Account, to: &mut Account, amount: u64) -> (r: Result<
    (),
    LedgerError,
>)
    ensures
        match r {
            Ok(()) => spec_transfer_lamports(old(from)@, old(to)@, amount) == Ok::<
                (AccountModel, AccountModel),
                LedgerError,
            >((final(from)@, final(to)@)),
            Err(e) => {
                &&& spec_transfer_lamports(old(from)@, old(to)@, amount) == Err::<
                    (AccountModel, AccountModel),
                    LedgerError,
                >(e)
                &&& final(from)@ == old(from)@
                &&& final(to)@ == old(to)@
            },
        },
{
    if from.lamports < amount {
        return Err(LedgerError::InsufficientFunds);
    }
    if amount > u64::MAX - to.lamports {
        return Err(LedgerError::BalanceOverflow);
    }
    from.lamports = from.lamports - amount;
    to.lamports = to.lamports + amount;
    Ok(())
}

/// Performs the token transfer transition on two live accounts.
pub fn transfer_tokens(from: &mut Account, to: &mut Account, amount: u64) -> (r: Result<
    (),
    LedgerError,
>)
    ensures
        match r {
            Ok(()) => spec_transfer_tokens(old(from)@, old(to)@, amount) == Ok::<
                (AccountModel, AccountModel),
                LedgerError,
            >((final(from)@, final(to)@)),
            Err(e) => {
                &&& spec_transfer_tokens(old(from)@, old(to)@, amount) == Err::<
                    (AccountModel, AccountModel),
                    LedgerError,
                >(e)
                &&& final(from)@ == old(from)@
                &&& final(to)@ == old(to)@
            },
        },
{
    if from.tokens < amount {
        return Err(LedgerError::InsufficientFunds);
    }
    if amount > u64::MAX - to.tokens {
        return Err(LedgerError::BalanceOverflow);
    }
    from.tokens = from.tokens - amount;
    to.tokens = to.tokens + amount;
    Ok(())
}

/// Performs the account-creation transition: funds a fresh account from the
/// payer and hands it, zeroed, to its owner.
pub fn create_account(
    payer: &mut Account,
    fresh: &mut Account,
    lamports: u64,
    space: usize,
    owner: &Address,
) -> (r: Result<(), LedgerError>)
    ensures
        match r {
            Ok(()) => spec_create_account(old(payer)@, old(fresh)@, lamports, space as int, owner@)
                == Ok::<(AccountModel, AccountModel), LedgerError>((final(payer)@, final(fresh)@)),
            Err(e) => {
                &&& spec_create_account(old(payer)@, old(fresh)@, lamports, space as int, owner@)
                    == Err::<(AccountModel, AccountModel), LedgerError>(e)
                &&& final(payer)@ == old(payer)@
                &&& final(fresh)@ == old(fresh)@
            },
        },
{
    if fresh.exists {
        return Err(LedgerError::AccountInUse);
    }
    if payer.lamports < lamports {
        return Err(LedgerError::InsufficientFunds);
    }
    if lamports > u64::MAX - fresh.lamports {
        return Err(LedgerError::BalanceOverflow);
    }
    payer.lamports = payer.lamports - lamports;
    fresh.lamports = fresh.lamports + lamports;
    fresh.owner = *owner;
    fresh.exists = true;
    let mut data: Vec<u8> = Vec::new();
    let mut i: usize = 0;
    while i < space
        invariant
            0 <= i <= space,
            data@.len() == i,
            forall|k: int| 0 <= k < i ==> data@[k] == 0u8,
        decreases space - i,
    {
        data.push(0u8);
        i += 1;
    }
    fresh.data = data;
    proof {
        assert(fresh@.data =~= Seq::new(space as nat, |k: int| 0u8));
    }
    Ok(())
}

} // verus!
