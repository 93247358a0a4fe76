//! Key determinism: the derived primary key is the lowercase hex SHA-256
//! of the concatenated field texts — a pure function of the fields, with
//! known exact values, identical across runs, and different for
//! different key material.

use mail_indexer::keys::{
    bool_to_string, generate_event_pk, generate_instruction_pk, hex_encode, u32_to_string,
    u64_to_string,
};

fn fields(vals: &[&str]) -> Vec<String> {
    vals.iter().map(|s| s.to_string()).collect()
}

#[test]
fn event_pk_exact_value() {
    // SHA-256 of "hello", hex encoded.
    let pk = generate_event_pk(&fields(&["hello"]));
    assert_eq!(pk, "2cf24dba5fb0a30e26e83b2ac5b9e29e1b161e5c1fa7425e73043362938b9824");
}

#[test]
fn pk_of_no_fields_is_digest_of_empty_input() {
    let pk = generate_event_pk(&fields(&[]));
    assert_eq!(pk, "e3b0c44298fc1c149afbf4c8996fb92427ae41e4649b934ca495991b7852b855");
}

#[test]
fn pk_concatenates_fields_in_order() {
    // "a" + "b" + "c" hashes the same bytes as "ab" + "c".
    let pk1 = generate_event_pk(&fields(&["a", "b", "c"]));
    let pk2 = generate_event_pk(&fields(&["ab", "c"]));
    assert_eq!(pk1, "ba7816bf8f01cfea414140de5dae2223b00361a396177a9cb410ff61f20015ad");
    assert_eq!(pk1, pk2);
}

#[test]
fn identical_fields_give_identical_keys() {
    let a = generate_event_pk(&fields(&["tx", "from", "to", "id"]));
    let b = generate_event_pk(&fields(&["tx", "from", "to", "id"]));
    assert_eq!(a, b);
    let c = generate_instruction_pk(&fields(&["tx", "from", "to", "id"]));
    assert_eq!(a, c);
}

#[test]
fn differing_key_material_gives_differing_keys() {
    let a = generate_event_pk(&fields(&["tx", "from", "to", "id1"]));
    let b = generate_event_pk(&fields(&["tx", "from", "to", "id2"]));
    assert_ne!(a, b);
    let c = generate_event_pk(&fields(&["ty", "from", "to", "id1"]));
    assert_ne!(a, c);
}

#[test]
fn pk_is_64_lowercase_hex_chars() {
    let pk = generate_instruction_pk(&fields(&["anything"]));
    assert_eq!(pk.len(), 64);
    assert!(pk.chars().all(|c| c.is_ascii_hexdigit() && !c.is_ascii_uppercase()));
}

#[test]
fn hex_encode_exact() {
    assert_eq!(hex_encode(&[]), "");
    assert_eq!(hex_encode(&[0x00, 0x0f, 0xa5, 0xff]), "000fa5ff");
}

#[test]
fn decimal_and_boolean_text_forms() {
    assert_eq!(u32_to_string(0), "0");
    assert_eq!(u32_to_string(42), "42");
    assert_eq!(u32_to_string(4294967295), "4294967295");
    assert_eq!(u64_to_string(18446744073709551615), "18446744073709551615");
    assert_eq!(bool_to_string(true), "true");
    assert_eq!(bool_to_string(false), "false");
}
