//! Address derivation: determinism, agreement with the runtime's own
//! search, and validation of supplied vault addresses.

use tokentracing::address::{derive_vault, match_vault, same_address, Address};

fn addr(fill: u8) -> Address {
    Address::new([fill; 32])
}

#[test]
fn derive_is_deterministic() {
    let program = addr(1);
    let mint = addr(2);
    let (a1, b1) = derive_vault(&program, &mint).expect("derivation");
    let (a2, b2) = derive_vault(&program, &mint).expect("derivation");
    assert_eq!(a1.bytes, a2.bytes);
    assert_eq!(b1, b2);
}

#[test]
fn derive_matches_the_runtime_search() {
    let program = addr(1);
    let mint = addr(2);
    let (vault, bump) = derive_vault(&program, &mint).expect("derivation");
    let program_pk = solana_program::pubkey::Pubkey::new_from_array(program.bytes);
    let (expected, expected_bump) =
        solana_program::pubkey::Pubkey::find_program_address(&[b"vault", &mint.bytes], &program_pk);
    assert_eq!(vault.bytes, expected.to_bytes());
    assert_eq!(bump, expected_bump);
    // the derivation really derives: the result is none of its inputs
    assert_ne!(vault.bytes, program.bytes);
    assert_ne!(vault.bytes, mint.bytes);
}

#[test]
fn distinct_mints_get_distinct_vaults() {
    let program = addr(1);
    let (v1, _) = derive_vault(&program, &addr(2)).expect("derivation");
    let (v2, _) = derive_vault(&program, &addr(3)).expect("derivation");
    assert_ne!(v1.bytes, v2.bytes);
}

#[test]
fn match_vault_accepts_only_the_derived_address() {
    let program = addr(1);
    let mint = addr(2);
    let (vault, bump) = derive_vault(&program, &mint).expect("derivation");
    assert_eq!(match_vault(&program, &mint, &vault), Some(bump));
    assert_eq!(match_vault(&program, &mint, &addr(9)), None);
    // the derived vault of one mint does not validate under another
    assert_eq!(match_vault(&program, &addr(3), &vault), None);
}

#[test]
fn same_address_compares_all_bytes() {
    let a = addr(7);
    let mut almost = [7u8; 32];
    almost[31] = 8;
    assert!(same_address(&a, &addr(7)));
    assert!(!same_address(&a, &Address::new(almost)));
}
