use simplicityhl::core_jets::{self, Core};
use simplicityhl::jet::{self, bool, either, list, option, tuple, unit, SourceJetClassification, TargetJetClassification};
use simplicityhl::types::{AliasedType, BuiltinAlias, UIntType};

#[test]
fn divisor_counts_arguments() {
    assert_eq!(SourceJetClassification::Unary.divisor(), 1);
    assert_eq!(SourceJetClassification::Binary.divisor(), 2);
    assert_eq!(SourceJetClassification::Ternary.divisor(), 3);
    assert_eq!(SourceJetClassification::Quaternary.divisor(), 4);
    assert_eq!(SourceJetClassification::Custom(vec![bool(), bool(), unit()]).divisor(), 3);
}

#[test]
fn type_constructors_build_the_named_types() {
    assert_eq!(bool(), AliasedType::Boolean);
    assert_eq!(unit(), AliasedType::Tuple(vec![]));
    assert_eq!(list(bool(), 2), AliasedType::List(Box::new(AliasedType::Boolean), 2));
    assert_eq!(option(bool()), AliasedType::Option(Box::new(AliasedType::Boolean)));
    assert_eq!(
        either(bool(), unit()),
        AliasedType::Either(Box::new(AliasedType::Boolean), Box::new(AliasedType::Tuple(vec![])))
    );
    assert_eq!(tuple(vec![bool()]), AliasedType::Tuple(vec![AliasedType::Boolean]));
}

#[test]
fn source_type_splits_width_evenly() {
    assert_eq!(
        jet::source_type(SourceJetClassification::Binary, 64),
        vec![AliasedType::UInt(UIntType::U32), AliasedType::UInt(UIntType::U32)]
    );
    assert_eq!(
        jet::source_type(SourceJetClassification::Quaternary, 32),
        vec![
            AliasedType::UInt(UIntType::U8),
            AliasedType::UInt(UIntType::U8),
            AliasedType::UInt(UIntType::U8),
            AliasedType::UInt(UIntType::U8),
        ]
    );
    assert_eq!(jet::source_type(SourceJetClassification::Unary, 0), vec![]);
    assert_eq!(jet::source_type(SourceJetClassification::Custom(vec![bool()]), 7), vec![bool()]);
}

#[test]
fn target_type_by_width() {
    assert_eq!(jet::target_type(TargetJetClassification::Unary, 0), unit());
    assert_eq!(jet::target_type(TargetJetClassification::Unary, 256), AliasedType::UInt(UIntType::U256));
    assert_eq!(jet::target_type(TargetJetClassification::Custom(option(bool())), 2), option(bool()));
}

#[test]
fn core_jet_signatures() {
    assert_eq!(
        core_jets::source_type(Core::Add32),
        vec![AliasedType::UInt(UIntType::U32), AliasedType::UInt(UIntType::U32)]
    );
    assert_eq!(core_jets::source_type(Core::Verify), vec![bool()]);
    assert_eq!(core_jets::target_type(Core::Verify), unit());
    assert_eq!(core_jets::source_type(Core::Sha256Ctx8Init), vec![]);
    assert_eq!(
        core_jets::source_type(Core::CheckSigVerify),
        vec![
            tuple(vec![AliasedType::Builtin(BuiltinAlias::Pubkey), AliasedType::Builtin(BuiltinAlias::Message64)]),
            AliasedType::Builtin(BuiltinAlias::Signature),
        ]
    );
    assert_eq!(
        core_jets::source_type(Core::FullAdd32),
        vec![bool(), AliasedType::UInt(UIntType::U32), AliasedType::UInt(UIntType::U32)]
    );
}

#[test]
fn core_disabled_jets() {
    assert!(Core::Verify.is_disabled());
    assert!(Core::CheckSigVerify.is_disabled());
    assert!(!Core::Add32.is_disabled());
    assert!(!Core::Bip0340Verify.is_disabled());
}
