//! The vault's persisted record and its fixed binary layout.
//!
//! The record is exactly two address-sized fields back-to-back — the admin
//! that funded the vault, then the vault's own address — with no tag and no
//! version field.

use crate::address::Address;
use vstd::prelude::*;

verus! {

broadcast use vstd::array::group_array_axioms;

/// The record's size on the ledger: two 32-byte address fields.
pub const EXCHANGE_ACCOUNT_LEN: usize = 64;

/// The state persisted at the vault's derived address.
#[derive(Clone, Copy, Debug, PartialEq, Eq)]
pub struct ExchangeAccount {
    /// The account that funded the vault's creation.
    pub admin: Address,
    /// The vault's own derived address, kept for later validation without
    /// re-deriving.
    pub vault: Address,
}

/// The record's byte layout: the admin's bytes, then the vault's.
pub open spec fn spec_record_bytes(admin: Seq<u8>, vault: Seq<u8>) -> Seq<u8> {
    admin + vault
}

impl ExchangeAccount {
    /// Serializes the record into its 64-byte layout.
    pub fn pack(&self) -> (out: Vec<u8>)
        ensures
            out@ == spec_record_bytes(self.admin@, self.vault@),
            out@.len() == EXCHANGE_ACCOUNT_LEN,
    {
        let mut out: Vec<u8> = Vec::new();
        let mut i: usize = 0;
        while i < 32
            invariant
                0 <= i <= 32,
                out@ =~= self.admin@.subrange(0, i as int),
            decreases 32 - i,
        {
            out.push(self.admin.bytes[i]);
            proof {
                assert(out@ =~= self.admin@.subrange(0, i + 1));
            }
            i += 1;
        }
        let mut j: usize = 0;
        while j < 32
            invariant
                0 <= j <= 32,
                out@ =~= self.admin@ + self.vault@.subrange(0, j as int),
            decreases 32 - j,
        {
            out.push(self.vault.bytes[j]);
            proof {
                assert(out@ =~= self.admin@ + self.vault@.subrange(0, j + 1));
            }
            j += 1;
        }
        proof {
            assert(out@ =~= spec_record_bytes(self.admin@, self.vault@));
        }
        out
    }

    /// Reads a record back from its 64-byte layout; anything of another
    /// length holds no record.
    pub fn unpack(data: &[u8]) -> (r: Option<ExchangeAccount>)
        ensures
            match r {
                Some(rec) => {
                    &&& data@.len() == EXCHANGE_ACCOUNT_LEN
                    &&& rec.admin@ == data@.subrange(0, 32)
                    &&& rec.vault@ == data@.subrange(32, 64)
                },
                None => data@.len() != EXCHANGE_ACCOUNT_LEN,
            },
    {
        if data.len() != EXCHANGE_ACCOUNT_LEN {
            return None;
        }
        let mut admin: [u8; 32] = [0u8; 32];
        let mut i: usize = 0;
        while i < 32
            invariant
                0 <= i <= 32,
                data@.len() == 64,
                forall|k: int| 0 <= k < i ==> admin@[k] == data@[k],
            decreases 32 - i,
        {
            admin[i] = data[i];
            i += 1;
        }
        let mut vault: [u8; 32] = [0u8; 32];
        let mut j: usize = 0;
        while j < 32
            invariant
                0 <= j <= 32,
                data@.len() == 64,
                forall|k: int| 0 <= k < j ==> vault@[k] == data@[32 + k],
            decreases 32 - j,
        {
            vault[j] = data[32 + j];
            j += 1;
        }
        proof {
            assert(admin@ =~= data@.subrange(0, 32));
            assert(vault@ =~= data@.subrange(32, 64));
        }
        Some(ExchangeAccount { admin: Address { bytes: admin }, vault: Address { bytes: vault } })
    }
}

/// Round trip: a packed record reads back as exactly the record that was
/// written — the admin bytes stand first, the vault bytes second.
pub proof fn lemma_record_round_trip(rec: ExchangeAccount, data: Seq<u8>)
    requires
        data == spec_record_bytes(rec.admin@, rec.vault@),
    ensures
        data.len() == EXCHANGE_ACCOUNT_LEN,
        data.subrange(0, 32) == rec.admin@,
        data.subrange(32, 64) == rec.vault@,
{
    assert(data.subrange(0, 32) =~= rec.admin@);
    assert(data.subrange(32, 64) =~= rec.vault@);
}

} // verus!
