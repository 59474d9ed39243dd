use iggy_py::error::ErrorKind;
use iggy_py::identifier::{IdKind, Identifier, PyIdentifier};

#[test]
fn numeric_identifier_holds_four_little_endian_bytes() {
    let id = Identifier::new(0x0102_0304);
    assert_eq!(id.kind, IdKind::Numeric);
    assert_eq!(id.length, 4);
    assert_eq!(id.value, vec![4u8, 3, 2, 1]);
    assert_eq!(id.numeric_value(), Some(0x0102_0304));
}

#[test]
fn numeric_identifier_round_trips() {
    for n in [0u32, 1, 255, 256, 65535, 65536, 16777216, u32::MAX] {
        let id = Identifier::from_numeric(n);
        assert_eq!(id.value, n.to_le_bytes().to_vec());
        assert_eq!(id.numeric_value(), Some(n));
        assert!(id.name_bytes().is_none());
    }
}

#[test]
fn name_of_one_to_255_bytes_is_accepted() {
    let id = Identifier::from_name("orders").unwrap();
    assert_eq!(id.kind, IdKind::String);
    assert_eq!(id.length, 6);
    assert_eq!(id.value, b"orders".to_vec());
    assert_eq!(id.name_bytes(), Some(&b"orders".to_vec()));
    assert_eq!(id.numeric_value(), None);
    assert!(Identifier::from_name("a").is_ok());
    let longest = "x".repeat(255);
    let id = Identifier::from_name(&longest).unwrap();
    assert_eq!(id.length, 255);
    assert_eq!(id.value.len(), 255);
}

#[test]
fn name_length_counts_bytes_not_characters() {
    let id = Identifier::from_name("żółw").unwrap();
    assert_eq!(id.length, 7);
    assert_eq!(id.value, "żółw".as_bytes().to_vec());
    let too_long = "é".repeat(128);
    assert!(Identifier::from_name(&too_long).is_err());
}

#[test]
fn digits_are_a_name_like_any_other() {
    let id = Identifier::from_name("123").unwrap();
    assert_eq!(id.kind, IdKind::String);
    assert_eq!(id.value, b"123".to_vec());
    assert!(Identifier::from_name("0").is_ok());
}

#[test]
fn empty_name_is_an_invalid_identifier() {
    let e = Identifier::from_name("").unwrap_err();
    assert_eq!(e.kind, ErrorKind::InvalidIdentifier);
    assert_eq!(e.message, "InvalidIdentifier");
}

#[test]
fn name_of_257_bytes_is_an_invalid_identifier() {
    let e = Identifier::from_name(&"n".repeat(257)).unwrap_err();
    assert_eq!(e.kind, ErrorKind::InvalidIdentifier);
    assert!(Identifier::from_name(&"n".repeat(256)).is_err());
}

#[test]
fn polymorphic_address_resolves_to_one_identifier() {
    let by_number = PyIdentifier::Int(7).resolve().unwrap();
    assert_eq!(by_number.kind, IdKind::Numeric);
    assert_eq!(by_number.numeric_value(), Some(7));
    let by_name = PyIdentifier::String("events".to_string()).resolve().unwrap();
    assert_eq!(by_name.kind, IdKind::String);
    assert_eq!(by_name.value, b"events".to_vec());
    let bad = PyIdentifier::String(String::new()).resolve().unwrap_err();
    assert_eq!(bad.kind, ErrorKind::InvalidIdentifier);
}

#[test]
fn default_identifier_is_numeric_one() {
    let id = Identifier::default();
    assert_eq!(id.numeric_value(), Some(1));
    let copy = id.clone();
    assert_eq!(copy.value, id.value);
    assert_eq!(copy.kind, id.kind);
    assert_eq!(copy.length, id.length);
}
