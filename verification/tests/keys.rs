use pact_consumer_nif::error::ErrorKind;
use pact_consumer_nif::patterns::{JsonObjectKey, KeyTerm};

#[test]
fn an_atom_is_a_key_by_its_name() {
    let key = JsonObjectKey::decode(KeyTerm::Atom("qty".to_string())).unwrap();
    assert_eq!(key.as_str(), "qty");
}

#[test]
fn a_binary_of_well_formed_text_is_a_key() {
    let key = JsonObjectKey::decode(KeyTerm::Binary("größe".as_bytes().to_vec())).unwrap();
    assert_eq!(key.as_str(), "größe");
    let empty = JsonObjectKey::decode(KeyTerm::Binary(Vec::new())).unwrap();
    assert_eq!(empty.as_str(), "");
}

#[test]
fn a_binary_that_is_not_text_is_an_invalid_key() {
    let error = JsonObjectKey::decode(KeyTerm::Binary(vec![b'a', 0xff, b'b'])).unwrap_err();
    assert_eq!(error.kind(), ErrorKind::InvalidKey);
    assert_eq!(error.detail, "Invalid UTF-8 in binary: invalid utf-8 sequence of 1 bytes from index 1");
}

#[test]
fn a_binary_that_ends_inside_a_character_is_an_invalid_key() {
    let error = JsonObjectKey::decode(KeyTerm::Binary(vec![b'a', 0xc3])).unwrap_err();
    assert_eq!(error.kind(), ErrorKind::InvalidKey);
    assert_eq!(error.detail, "Invalid UTF-8 in binary: incomplete utf-8 byte sequence from index 1");
}

#[test]
fn any_other_term_is_an_invalid_key() {
    let error = JsonObjectKey::decode(KeyTerm::Other).unwrap_err();
    assert_eq!(error.kind(), ErrorKind::InvalidKey);
    assert_eq!(error.detail, "Term is neither atom nor binary");
}

#[test]
fn a_copy_of_a_key_has_the_same_name() {
    let key = JsonObjectKey("name".to_string());
    assert_eq!(key.clone().as_str(), "name");
}
