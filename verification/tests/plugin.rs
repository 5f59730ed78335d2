use simplicityhl::jet::{bool, unit, SourceJetClassification, TargetJetClassification};
use simplicityhl::plugin::{
    self, ExternalJet, ExternalJetHinter, ExternalJetWasmLib, HappyJet, JetDecodeError, JetParseError,
};

const VERIFY_CMR: [u8; 32] = [
    0xcd, 0xca, 0x2a, 0x05, 0xe5, 0x2c, 0xef, 0xa5, 0x9d, 0xc7, 0xa5, 0xb0, 0xda, 0xe2, 0x20, 0x98, 0xfb, 0x89,
    0x6e, 0x39, 0x13, 0xbf, 0xdd, 0x44, 0x6b, 0x59, 0x4e, 0x1f, 0x92, 0x50, 0x78, 0x3e,
];

#[test]
fn happy_jet_index_round_trip() {
    assert_eq!(HappyJet::Verify.index(), 0);
    assert_eq!(HappyJet::from_index(0), Some(HappyJet::Verify));
    assert_eq!(HappyJet::from_index(1), None);
    assert_eq!(HappyJet::from_index(u64::MAX), None);
}

#[test]
fn happy_jet_description() {
    let jet = HappyJet::Verify;
    assert_eq!(jet.cmr_bytes(), VERIFY_CMR);
    assert_eq!(jet.source_ty_name(), "2");
    assert_eq!(jet.target_ty_name(), "1");
    assert_eq!(jet.encode_bits(), (0, 1));
    assert_eq!(jet.cost_milliweight(), 44);
    assert_eq!(jet.display(), "verify");
    assert_eq!(jet.source_jet_classification(), SourceJetClassification::Custom(vec![bool()]));
    assert_eq!(jet.target_jet_classification(), TargetJetClassification::Unary);
    assert_eq!(jet.source_type(), vec![bool()]);
    assert_eq!(jet.target_type(), unit());
    assert!(!jet.is_disabled());
}

#[test]
fn happy_jet_parse_by_name() {
    assert_eq!(HappyJet::parse("verify"), Ok(HappyJet::Verify));
    assert_eq!(HappyJet::parse("verif"), Err(JetParseError::InvalidJetName("verif".to_string())));
    assert_eq!(HappyJet::parse(""), Err(JetParseError::InvalidJetName(String::new())));
}

#[test]
fn happy_jet_decode_inverts_encode() {
    let (value, width) = HappyJet::Verify.encode_bits();
    assert_eq!(width, 1);
    assert_eq!(HappyJet::decode(Some(value == 1)), Ok(HappyJet::Verify));
    assert_eq!(HappyJet::decode(Some(true)), Err(JetDecodeError::InvalidJet));
    assert_eq!(HappyJet::decode(None), Err(JetDecodeError::EndOfStream));
}

#[test]
fn exports_answer_for_known_handles() {
    let handle = plugin::verify();
    assert_eq!(handle, ExternalJet::new(0));
    assert_eq!(plugin::cmr(handle), VERIFY_CMR);
    assert_eq!(plugin::source_ty(handle), "2");
    assert_eq!(plugin::target_ty(handle), "1");
    assert_eq!(plugin::encode(handle), (0, 1));
    assert_eq!(plugin::cost(handle), 44);
    assert_eq!(plugin::display(handle), "verify");
    assert_eq!(plugin::source_jet_classification(handle), SourceJetClassification::Custom(vec![bool()]));
    assert_eq!(plugin::target_jet_classification(handle), TargetJetClassification::Unary);
    assert_eq!(plugin::source_type(handle), vec![bool()]);
    assert_eq!(plugin::target_type(handle), unit());
    assert!(!plugin::is_disabled(handle));
}

#[test]
fn export_parse_hands_out_indices() {
    assert_eq!(plugin::parse("verify"), Ok(ExternalJet { index: 0 }));
    assert_eq!(plugin::parse("no_such_jet"), Err(JetParseError::InvalidJetName("no_such_jet".to_string())));
}

#[test]
fn write_out_copies_what_fits() {
    let mut small = vec![7u8; 2];
    assert_eq!(plugin::write_out(b"abcd", &mut small), 4);
    assert_eq!(small, b"ab".to_vec());
    let mut large = vec![7u8; 6];
    assert_eq!(plugin::write_out(b"abcd", &mut large), 4);
    assert_eq!(large, vec![b'a', b'b', b'c', b'd', 7, 7]);
    let mut empty: Vec<u8> = Vec::new();
    assert_eq!(plugin::write_out(b"xyz", &mut empty), 3);
    assert!(empty.is_empty());
}

#[test]
fn handles_and_hinters_construct() {
    assert_eq!(ExternalJet::new(5).index, 5);
    let _ = ExternalJetHinter::new();
    let _ = ExternalJetWasmLib;
}
