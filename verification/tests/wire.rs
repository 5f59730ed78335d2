use simplicityhl::jet::{array, bool, either, list, option, tuple, unit, SourceJetClassification, TargetJetClassification};
use simplicityhl::types::{AliasName, AliasedType, BuiltinAlias, UIntType};
use simplicityhl::wire::{
    deserialize_source_jet_classification, deserialize_target_jet_classification, read_aliased_type, read_u32,
    serialize_source_jet_classification, serialize_target_jet_classification, write_aliased_type,
    EXTERNAL_JET_ABI_VERSION,
};

#[test]
fn source_jet_classification_round_trip() {
    let classification = SourceJetClassification::Custom(vec![
        bool(),
        list(bool(), 4),
        array(bool(), 3),
        either(bool(), bool()),
        tuple(vec![bool(), bool()]),
        AliasedType::Builtin(BuiltinAlias::Pubkey),
    ]);

    let serialized = serialize_source_jet_classification(&classification);
    assert_eq!(deserialize_source_jet_classification(&serialized), Some(classification));
}

#[test]
fn target_jet_classification_round_trip() {
    let classification = TargetJetClassification::Custom(AliasedType::Builtin(BuiltinAlias::Pubkey));

    let serialized = serialize_target_jet_classification(&classification);
    assert_eq!(deserialize_target_jet_classification(&serialized), Some(classification));
}

#[test]
fn source_jet_classification_rejects_unbounded_count() {
    let mut serialized = vec![4];
    serialized.extend_from_slice(&u32::MAX.to_le_bytes());

    assert_eq!(deserialize_source_jet_classification(&serialized), None);
}

#[test]
fn abi_version_is_one() {
    assert_eq!(EXTERNAL_JET_ABI_VERSION, 1);
}

#[test]
fn source_tags_are_single_bytes() {
    assert_eq!(serialize_source_jet_classification(&SourceJetClassification::Unary), vec![0]);
    assert_eq!(serialize_source_jet_classification(&SourceJetClassification::Binary), vec![1]);
    assert_eq!(serialize_source_jet_classification(&SourceJetClassification::Ternary), vec![2]);
    assert_eq!(serialize_source_jet_classification(&SourceJetClassification::Quaternary), vec![3]);
    assert_eq!(deserialize_source_jet_classification(&[0]), Some(SourceJetClassification::Unary));
    assert_eq!(deserialize_source_jet_classification(&[1]), Some(SourceJetClassification::Binary));
    assert_eq!(deserialize_source_jet_classification(&[2]), Some(SourceJetClassification::Ternary));
    assert_eq!(deserialize_source_jet_classification(&[3]), Some(SourceJetClassification::Quaternary));
}

#[test]
fn source_custom_layout_is_exact() {
    let classification = SourceJetClassification::Custom(vec![bool(), AliasedType::UInt(UIntType::U8)]);
    let bytes = serialize_source_jet_classification(&classification);
    let mut expected = vec![4u8, 2, 0, 0, 0];
    expected.extend_from_slice(&[4, 0, 0, 0]);
    expected.extend_from_slice(b"bool");
    expected.extend_from_slice(&[2, 0, 0, 0]);
    expected.extend_from_slice(b"u8");
    assert_eq!(bytes, expected);
}

#[test]
fn target_layout_is_exact() {
    assert_eq!(serialize_target_jet_classification(&TargetJetClassification::Unary), vec![0]);
    let bytes = serialize_target_jet_classification(&TargetJetClassification::Custom(unit()));
    assert_eq!(bytes, vec![1, 2, 0, 0, 0, b'(', b')']);
    assert_eq!(deserialize_target_jet_classification(&bytes), Some(TargetJetClassification::Custom(unit())));
}

#[test]
fn source_empty_custom_round_trip() {
    let classification = SourceJetClassification::Custom(vec![]);
    let bytes = serialize_source_jet_classification(&classification);
    assert_eq!(bytes, vec![4, 0, 0, 0, 0]);
    assert_eq!(deserialize_source_jet_classification(&bytes), Some(classification));
}

#[test]
fn source_nested_types_round_trip() {
    let classification = SourceJetClassification::Custom(vec![
        option(list(tuple(vec![AliasedType::UInt(UIntType::U64), bool()]), 8)),
        AliasedType::Alias(AliasName::new(b"MyAlias".to_vec())),
        tuple(vec![bool()]),
        unit(),
    ]);
    let bytes = serialize_source_jet_classification(&classification);
    assert_eq!(deserialize_source_jet_classification(&bytes), Some(classification));
}

#[test]
fn deserialize_rejects_empty_and_unknown_tags() {
    assert_eq!(deserialize_source_jet_classification(&[]), None);
    assert_eq!(deserialize_source_jet_classification(&[5]), None);
    assert_eq!(deserialize_target_jet_classification(&[]), None);
    assert_eq!(deserialize_target_jet_classification(&[2]), None);
}

#[test]
fn deserialize_rejects_truncated_records() {
    assert_eq!(deserialize_source_jet_classification(&[4, 1, 0]), None);
    assert_eq!(deserialize_source_jet_classification(&[4, 1, 0, 0, 0, 4, 0, 0, 0, b'b', b'o']), None);
    assert_eq!(deserialize_target_jet_classification(&[1, 9, 0, 0, 0, b'(', b')']), None);
}

#[test]
fn deserialize_rejects_malformed_type_text() {
    assert_eq!(deserialize_target_jet_classification(&[1, 3, 0, 0, 0, b'(', b'(', b')']), None);
    assert_eq!(deserialize_target_jet_classification(&[1, 2, 0, 0, 0, 0xff, 0xfe]), None);
    assert_eq!(deserialize_target_jet_classification(&[1, 5, 0, 0, 0, b'(', b'a', b',', b'b', b')']), None);
}

#[test]
fn read_u32_is_little_endian() {
    assert_eq!(read_u32(&[1, 2, 3, 4, 5], 0), Some((0x04030201, 4)));
    assert_eq!(read_u32(&[1, 2, 3, 4, 5], 1), Some((0x05040302, 5)));
    assert_eq!(read_u32(&[1, 2, 3], 0), None);
}

#[test]
fn write_then_read_aliased_type() {
    let mut out = vec![9u8];
    write_aliased_type(&mut out, &either(AliasedType::UInt(UIntType::U16), bool()));
    let text = b"Either<u16, bool>";
    let mut expected = vec![9u8, text.len() as u8, 0, 0, 0];
    expected.extend_from_slice(text);
    assert_eq!(out, expected);
    assert_eq!(
        read_aliased_type(&out, 1),
        Some((either(AliasedType::UInt(UIntType::U16), bool()), out.len()))
    );
    assert_eq!(read_aliased_type(&out, 2), None);
}
