use resource_versions::validate::{name_verdict, only_alphanumeric, validate_resource_name};

const LENGTH: &str = "Resource names must be between 2-32 characters in length";
const ALPHANUMERIC: &str = "Resource names must only contain alphanumeric characters";

#[test]
fn two_characters_are_enough() {
    assert_eq!(validate_resource_name("ab"), Ok(()));
}

#[test]
fn one_character_is_too_short() {
    assert_eq!(validate_resource_name("a"), Err(LENGTH.to_string()));
}

#[test]
fn the_empty_name_is_too_short() {
    assert_eq!(validate_resource_name(""), Err(LENGTH.to_string()));
}

#[test]
fn a_space_is_not_alphanumeric() {
    assert_eq!(validate_resource_name("resource name"), Err(ALPHANUMERIC.to_string()));
}

#[test]
fn thirty_two_characters_are_accepted() {
    let name = "a".repeat(32);
    assert_eq!(validate_resource_name(&name), Ok(()));
}

#[test]
fn thirty_three_characters_are_too_long() {
    let name = "a1".repeat(16) + "z";
    assert_eq!(name.len(), 33);
    assert_eq!(validate_resource_name(&name), Err(LENGTH.to_string()));
}

#[test]
fn the_length_rule_comes_first() {
    assert_eq!(validate_resource_name("!"), Err(LENGTH.to_string()));
    let long = "-".repeat(40);
    assert_eq!(validate_resource_name(&long), Err(LENGTH.to_string()));
}

#[test]
fn punctuation_is_refused() {
    assert_eq!(validate_resource_name("ab-12"), Err(ALPHANUMERIC.to_string()));
    assert_eq!(validate_resource_name("ab/12"), Err(ALPHANUMERIC.to_string()));
    assert_eq!(validate_resource_name("ab_12"), Err(ALPHANUMERIC.to_string()));
}

#[test]
fn digits_and_letters_mix() {
    assert_eq!(validate_resource_name("ab12"), Ok(()));
    assert_eq!(validate_resource_name("0042"), Ok(()));
}

#[test]
fn letters_of_other_scripts_count_as_one_each() {
    // One letter, though it takes two bytes to store.
    assert_eq!(validate_resource_name("é"), Err(LENGTH.to_string()));
    assert_eq!(validate_resource_name("京"), Err(LENGTH.to_string()));
    assert_eq!(validate_resource_name("京京"), Ok(()));
    // Eleven letters of three bytes each.
    let eleven = "京".repeat(11);
    assert_eq!(validate_resource_name(&eleven), Ok(()));
    let thirty_two = "京".repeat(32);
    assert_eq!(validate_resource_name(&thirty_two), Ok(()));
    let thirty_three = "京".repeat(33);
    assert_eq!(validate_resource_name(&thirty_three), Err(LENGTH.to_string()));
    // Sixteen letters of two bytes each and one that is none.
    let mixed = "é".repeat(16) + "-";
    assert_eq!(validate_resource_name(&mixed), Err(ALPHANUMERIC.to_string()));
}

#[test]
fn verdict_on_measured_names() {
    assert_eq!(name_verdict(2, true), Ok(()));
    assert_eq!(name_verdict(32, true), Ok(()));
    assert_eq!(name_verdict(1, true), Err(LENGTH.to_string()));
    assert_eq!(name_verdict(33, true), Err(LENGTH.to_string()));
    assert_eq!(name_verdict(0, false), Err(LENGTH.to_string()));
    assert_eq!(name_verdict(2, false), Err(ALPHANUMERIC.to_string()));
    assert_eq!(name_verdict(32, false), Err(ALPHANUMERIC.to_string()));
}

#[test]
fn scanning_for_other_characters() {
    assert!(only_alphanumeric(""));
    assert!(only_alphanumeric("abc123"));
    assert!(only_alphanumeric("٣7"));
    assert!(!only_alphanumeric("abc 123"));
    assert!(!only_alphanumeric("abc123!"));
    assert!(!only_alphanumeric("?abc"));
}
