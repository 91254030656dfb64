use dojo_uniffi::error::DojoError;
use dojo_uniffi::field_element::{field_element_to_felt, field_elements_to_felts};
use dojo_uniffi::token_id::{normalize_token_id, token_ids_to_u256s, uniffi_to_u256};
type StarkFelt = starknet::core::types::Felt;

const STARK_PRIME_HEX: &str = "0x800000000000011000000000000000000000000000000000000000000000001";
const STARK_PRIME_PLUS_ONE_HEX: &str = "0x800000000000011000000000000000000000000000000000000000000000002";

#[test]
fn felt_with_prefix_parses() {
    assert_eq!(field_element_to_felt(&"0x1".to_string()), Ok(StarkFelt::ONE));
    assert_eq!(field_element_to_felt(&"0x2a".to_string()), Ok(StarkFelt::from(42u64)));
}

#[test]
fn felt_without_prefix_parses() {
    assert_eq!(field_element_to_felt(&"2a".to_string()), Ok(StarkFelt::from(42u64)));
    assert_eq!(field_element_to_felt(&"ABCdef".to_string()), Ok(StarkFelt::from(0xabcdefu64)));
}

#[test]
fn felt_empty_and_bare_prefix_are_refused() {
    assert_eq!(field_element_to_felt(&"".to_string()), Err(DojoError::InvalidInput));
    assert_eq!(field_element_to_felt(&"0x".to_string()), Err(DojoError::InvalidInput));
}

#[test]
fn felt_uppercase_prefix_and_bad_digits_are_refused() {
    assert_eq!(field_element_to_felt(&"0X1".to_string()), Err(DojoError::InvalidInput));
    assert_eq!(field_element_to_felt(&"0x1g".to_string()), Err(DojoError::InvalidInput));
    assert_eq!(field_element_to_felt(&"0x0x1".to_string()), Err(DojoError::InvalidInput));
    assert_eq!(field_element_to_felt(&" 0x1".to_string()), Err(DojoError::InvalidInput));
}

#[test]
fn felt_digit_count_limit() {
    let sixty_four = format!("0x{}", "0".repeat(63) + "1");
    assert_eq!(field_element_to_felt(&sixty_four), Ok(StarkFelt::ONE));
    let sixty_five = format!("0x{}", "0".repeat(64) + "1");
    assert_eq!(field_element_to_felt(&sixty_five), Err(DojoError::InvalidInput));
}

#[test]
fn felt_modulus_is_the_largest_accepted_value() {
    assert_eq!(field_element_to_felt(&STARK_PRIME_HEX.to_string()), Ok(StarkFelt::ZERO));
    assert_eq!(
        field_element_to_felt(&STARK_PRIME_PLUS_ONE_HEX.to_string()),
        Err(DojoError::InvalidInput)
    );
}

#[test]
fn felt_list_parses_in_order() {
    let list = vec!["0x1".to_string(), "0x2".to_string(), "3".to_string()];
    assert_eq!(
        field_elements_to_felts(&list),
        Ok(vec![StarkFelt::ONE, StarkFelt::from(2u64), StarkFelt::from(3u64)])
    );
    assert_eq!(field_elements_to_felts(&vec![]), Ok(vec![]));
}

#[test]
fn felt_list_fails_on_any_bad_element() {
    let list = vec!["0x1".to_string(), "zz".to_string(), "3".to_string()];
    assert_eq!(field_elements_to_felts(&list), Err(DojoError::InvalidInput));
}

#[test]
fn token_id_is_left_padded() {
    let padded = normalize_token_id("0xabc").unwrap();
    assert_eq!(padded, format!("{}abc", "0".repeat(61)));
    let padded = normalize_token_id("7").unwrap();
    assert_eq!(padded, format!("{}7", "0".repeat(63)));
}

#[test]
fn token_id_parses() {
    assert_eq!(uniffi_to_u256(&"0x1".to_string()), Ok(crypto_bigint::U256::ONE));
    assert_eq!(uniffi_to_u256(&"ff".to_string()), Ok(crypto_bigint::U256::from_u64(255)));
    assert_eq!(uniffi_to_u256(&"f".repeat(64)), Ok(crypto_bigint::U256::MAX));
}

#[test]
fn token_id_refusals() {
    assert_eq!(uniffi_to_u256(&"".to_string()), Err(DojoError::InvalidInput));
    assert_eq!(uniffi_to_u256(&"0x".to_string()), Err(DojoError::InvalidInput));
    assert_eq!(uniffi_to_u256(&"0xg1".to_string()), Err(DojoError::InvalidInput));
    assert_eq!(uniffi_to_u256(&"1".repeat(65)), Err(DojoError::InvalidInput));
    assert_eq!(normalize_token_id("é1"), None);
}

#[test]
fn token_id_list_parses_or_fails_whole() {
    let ok = vec!["1".to_string(), "0x2".to_string()];
    assert_eq!(
        token_ids_to_u256s(&ok),
        Ok(vec![crypto_bigint::U256::ONE, crypto_bigint::U256::from_u64(2)])
    );
    let bad = vec!["1".to_string(), "x".to_string()];
    assert_eq!(token_ids_to_u256s(&bad), Err(DojoError::InvalidInput));
}
