use discard_core::card::initialize_card_config;
use discard_core::errors::HookError;
use discard_core::lists::{MAX_MCC_CODES, MAX_MERCHANTS};

fn mid(b: u8) -> [u8; 32] {
    [b; 32]
}

#[test]
fn adding_merchants_enables_the_whitelist() {
    let mut card = initialize_card_config([1; 32], [2; 32], 0, 0);
    assert!(!card.merchant_whitelist_enabled);
    card.add_merchants_to_whitelist(&vec![mid(1), mid(2)], 100).unwrap();
    assert!(card.merchant_whitelist_enabled);
    assert_eq!(card.merchant_whitelist, vec![mid(1), mid(2)]);
    assert_eq!(card.updated_at, 100);
}

#[test]
fn adding_a_present_merchant_is_a_no_op() {
    let mut card = initialize_card_config([1; 32], [2; 32], 0, 0);
    card.add_merchants_to_whitelist(&vec![mid(1), mid(2)], 100).unwrap();
    card.add_merchants_to_whitelist(&vec![mid(2), mid(3), mid(2)], 101).unwrap();
    assert_eq!(card.merchant_whitelist, vec![mid(1), mid(2), mid(3)]);
}

#[test]
fn adding_nothing_to_a_populated_whitelist_still_enables_it() {
    let mut card = initialize_card_config([1; 32], [2; 32], 0, 0);
    card.add_merchants_to_whitelist(&vec![mid(1)], 100).unwrap();
    card.merchant_whitelist_enabled = false;
    card.add_merchants_to_whitelist(&vec![], 101).unwrap();
    assert!(card.merchant_whitelist_enabled);
}

#[test]
fn merchant_whitelist_overflow_fails_without_mutating() {
    let mut card = initialize_card_config([1; 32], [2; 32], 0, 0);
    let fifty: Vec<[u8; 32]> = (0..MAX_MERCHANTS).map(|i| mid(i as u8)).collect();
    card.add_merchants_to_whitelist(&fifty, 100).unwrap();
    assert_eq!(card.merchant_whitelist.len(), MAX_MERCHANTS);
    let before = card.merchant_whitelist.clone();
    let r = card.add_merchants_to_whitelist(&vec![mid(200)], 101);
    assert_eq!(r, Err(HookError::MerchantWhitelistFull));
    assert_eq!(card.merchant_whitelist, before);
    assert_eq!(card.updated_at, 100);
}

#[test]
fn a_full_list_accepts_a_duplicate_as_a_no_op() {
    let mut card = initialize_card_config([1; 32], [2; 32], 0, 0);
    let fifty: Vec<[u8; 32]> = (0..MAX_MERCHANTS).map(|i| mid(i as u8)).collect();
    card.add_merchants_to_whitelist(&fifty, 100).unwrap();
    let r = card.add_merchants_to_whitelist(&vec![mid(0), mid(49)], 101);
    assert_eq!(r, Ok(()));
    assert_eq!(card.merchant_whitelist, fifty);
    assert_eq!(card.updated_at, 101);
}

#[test]
fn a_full_mcc_list_accepts_a_duplicate_as_a_no_op() {
    let mut card = initialize_card_config([1; 32], [2; 32], 0, 0);
    let hundred: Vec<u16> = (1..=MAX_MCC_CODES as u16).collect();
    card.add_mcc_codes_to_blocklist(&hundred, 100).unwrap();
    let r = card.add_mcc_codes_to_blocklist(&vec![1, 100], 101);
    assert_eq!(r, Ok(()));
    assert_eq!(card.mcc_blocklist, hundred);
    // A genuinely new code still fails against the full list.
    let r2 = card.add_mcc_codes_to_blocklist(&vec![1, 5411], 102);
    assert_eq!(r2, Err(HookError::MccBlocklistFull));
    assert_eq!(card.mcc_blocklist, hundred);
}

#[test]
fn removing_all_merchants_disables_the_whitelist() {
    let mut card = initialize_card_config([1; 32], [2; 32], 0, 0);
    card.add_merchants_to_whitelist(&vec![mid(1), mid(2)], 100).unwrap();
    card.remove_merchants_from_whitelist(&vec![mid(1)], 101);
    assert!(card.merchant_whitelist_enabled);
    assert_eq!(card.merchant_whitelist, vec![mid(2)]);
    card.remove_merchants_from_whitelist(&vec![mid(2), mid(9)], 102);
    assert!(!card.merchant_whitelist_enabled);
    assert!(card.merchant_whitelist.is_empty());
    assert_eq!(card.updated_at, 102);
}

#[test]
fn merchant_blocklist_add_and_remove() {
    let mut card = initialize_card_config([1; 32], [2; 32], 0, 0);
    card.add_merchants_to_blocklist(&vec![mid(4), mid(5)], 100).unwrap();
    assert_eq!(card.merchant_blocklist, vec![mid(4), mid(5)]);
    card.remove_merchants_from_blocklist(&vec![mid(4)], 101);
    assert_eq!(card.merchant_blocklist, vec![mid(5)]);
}

#[test]
fn merchant_blocklist_overflow_error() {
    let mut card = initialize_card_config([1; 32], [2; 32], 0, 0);
    let fifty: Vec<[u8; 32]> = (0..MAX_MERCHANTS).map(|i| mid(i as u8)).collect();
    card.add_merchants_to_blocklist(&fifty, 100).unwrap();
    let r = card.add_merchants_to_blocklist(&vec![mid(200)], 101);
    assert_eq!(r, Err(HookError::MerchantBlocklistFull));
}

#[test]
fn mcc_codes_must_be_four_digit_codes() {
    let mut card = initialize_card_config([1; 32], [2; 32], 0, 0);
    assert_eq!(
        card.add_mcc_codes_to_whitelist(&vec![0], 100),
        Err(HookError::InvalidMccCode)
    );
    assert_eq!(
        card.add_mcc_codes_to_whitelist(&vec![10_000], 100),
        Err(HookError::InvalidMccCode)
    );
    assert_eq!(
        card.add_mcc_codes_to_blocklist(&vec![5411, 0], 100),
        Err(HookError::InvalidMccCode)
    );
    assert!(card.mcc_whitelist.is_empty());
    assert!(card.mcc_blocklist.is_empty());
    assert!(!card.mcc_whitelist_enabled);
    card.add_mcc_codes_to_whitelist(&vec![1, 9999], 101).unwrap();
    assert_eq!(card.mcc_whitelist, vec![1, 9999]);
    assert!(card.mcc_whitelist_enabled);
}

#[test]
fn mcc_whitelist_overflow_fails_without_mutating() {
    let mut card = initialize_card_config([1; 32], [2; 32], 0, 0);
    let hundred: Vec<u16> = (1..=MAX_MCC_CODES as u16).collect();
    card.add_mcc_codes_to_whitelist(&hundred, 100).unwrap();
    assert_eq!(card.mcc_whitelist.len(), MAX_MCC_CODES);
    let r = card.add_mcc_codes_to_whitelist(&vec![5411], 101);
    assert_eq!(r, Err(HookError::MccWhitelistFull));
    assert_eq!(card.mcc_whitelist.len(), MAX_MCC_CODES);
}

#[test]
fn mcc_blocklist_overflow_error() {
    let mut card = initialize_card_config([1; 32], [2; 32], 0, 0);
    let hundred: Vec<u16> = (1..=MAX_MCC_CODES as u16).collect();
    card.add_mcc_codes_to_blocklist(&hundred, 100).unwrap();
    let r = card.add_mcc_codes_to_blocklist(&vec![5411], 101);
    assert_eq!(r, Err(HookError::MccBlocklistFull));
}

#[test]
fn removing_all_mcc_codes_disables_the_whitelist() {
    let mut card = initialize_card_config([1; 32], [2; 32], 0, 0);
    card.add_mcc_codes_to_whitelist(&vec![5411, 5812], 100).unwrap();
    card.remove_mcc_codes_from_whitelist(&vec![5812, 1234], 101);
    assert_eq!(card.mcc_whitelist, vec![5411]);
    assert!(card.mcc_whitelist_enabled);
    card.remove_mcc_codes_from_whitelist(&vec![5411], 102);
    assert!(card.mcc_whitelist.is_empty());
    assert!(!card.mcc_whitelist_enabled);
}

#[test]
fn mcc_blocklist_remove() {
    let mut card = initialize_card_config([1; 32], [2; 32], 0, 0);
    card.add_mcc_codes_to_blocklist(&vec![7995, 7800], 100).unwrap();
    card.remove_mcc_codes_from_blocklist(&vec![7995], 101);
    assert_eq!(card.mcc_blocklist, vec![7800]);
}
