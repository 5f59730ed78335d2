use simplicityhl::jet::{array, bool, either, list, option, tuple, unit};
use simplicityhl::parse::{parse_aliased_type, parse_decimal};
use simplicityhl::text::{type_to_bytes, write_decimal, write_type};
use simplicityhl::types::{AliasName, AliasedType, BuiltinAlias, ResolvedType, UIntType};
use simplicityhl::witness::{TypeReadError, WitnessName};

#[test]
fn uint_bit_widths_round_trip() {
    let all = [
        UIntType::U1,
        UIntType::U2,
        UIntType::U4,
        UIntType::U8,
        UIntType::U16,
        UIntType::U32,
        UIntType::U64,
        UIntType::U128,
        UIntType::U256,
    ];
    let widths = [1usize, 2, 4, 8, 16, 32, 64, 128, 256];
    for (ty, width) in all.iter().zip(widths.iter()) {
        assert_eq!(ty.bit_width(), *width);
        assert_eq!(UIntType::from_bit_width(*width), Some(*ty));
    }
    assert_eq!(UIntType::from_bit_width(0), None);
    assert_eq!(UIntType::from_bit_width(3), None);
    assert_eq!(UIntType::from_bit_width(512), None);
}

#[test]
fn uint_and_builtin_names() {
    assert_eq!(UIntType::U256.name(), b"u256".to_vec());
    assert_eq!(UIntType::U1.name(), b"u1".to_vec());
    assert_eq!(BuiltinAlias::Pubkey.name(), b"Pubkey".to_vec());
    assert_eq!(BuiltinAlias::TokenAmount1.name(), b"TokenAmount1".to_vec());
}

#[test]
fn builtin_aliases_resolve_to_structural_types() {
    assert_eq!(BuiltinAlias::Pubkey.resolve(), ResolvedType::UInt(UIntType::U256));
    assert_eq!(BuiltinAlias::Height.resolve(), ResolvedType::UInt(UIntType::U32));
    assert_eq!(
        BuiltinAlias::Outpoint.resolve(),
        ResolvedType::Tuple(vec![ResolvedType::UInt(UIntType::U256), ResolvedType::UInt(UIntType::U32)])
    );
    assert_eq!(
        BuiltinAlias::Signature.resolve(),
        ResolvedType::Array(Box::new(ResolvedType::UInt(UIntType::U8)), 64)
    );
}

#[test]
fn canonical_text_of_types() {
    assert_eq!(type_to_bytes(&bool()), b"bool".to_vec());
    assert_eq!(type_to_bytes(&unit()), b"()".to_vec());
    assert_eq!(type_to_bytes(&tuple(vec![bool()])), b"(bool,)".to_vec());
    assert_eq!(
        type_to_bytes(&tuple(vec![bool(), AliasedType::UInt(UIntType::U8)])),
        b"(bool, u8)".to_vec()
    );
    assert_eq!(type_to_bytes(&array(bool(), 3)), b"[bool; 3]".to_vec());
    assert_eq!(type_to_bytes(&list(bool(), 4)), b"List<bool, 4>".to_vec());
    assert_eq!(type_to_bytes(&either(bool(), unit())), b"Either<bool, ()>".to_vec());
    assert_eq!(type_to_bytes(&option(bool())), b"Option<bool>".to_vec());
    assert_eq!(type_to_bytes(&AliasedType::Builtin(BuiltinAlias::Ctx8)), b"Ctx8".to_vec());
}

#[test]
fn write_type_appends_text() {
    let mut out = b"x: ".to_vec();
    write_type(&mut out, &AliasedType::UInt(UIntType::U64));
    assert_eq!(out, b"x: u64".to_vec());
}

#[test]
fn write_decimal_has_no_leading_zeros() {
    let mut out = Vec::new();
    write_decimal(&mut out, 0);
    write_decimal(&mut out, 1207);
    assert_eq!(out, b"01207".to_vec());
}

#[test]
fn parse_decimal_reads_maximal_numbers() {
    assert_eq!(parse_decimal(b"[u8; 64]", 5), Some((64, 7)));
    assert_eq!(parse_decimal(b"007", 0), None);
    assert_eq!(parse_decimal(b"0", 0), Some((0, 1)));
    assert_eq!(parse_decimal(b"x", 0), None);
    assert_eq!(parse_decimal(b"99999999999999999999999", 0), None);
}

#[test]
fn parse_inverts_canonical_text() {
    let types = vec![
        bool(),
        unit(),
        tuple(vec![bool()]),
        tuple(vec![bool(), AliasedType::UInt(UIntType::U128), unit()]),
        array(AliasedType::UInt(UIntType::U8), 64),
        list(either(bool(), option(unit())), 16),
        AliasedType::Builtin(BuiltinAlias::Gej),
        AliasedType::Alias(AliasName::new(b"Custom_1".to_vec())),
    ];
    for ty in types {
        let text = type_to_bytes(&ty);
        assert_eq!(parse_aliased_type(&text), Some(ty));
    }
}

#[test]
fn parse_rejects_non_canonical_text() {
    assert_eq!(parse_aliased_type(b""), None);
    assert_eq!(parse_aliased_type(b" bool"), None);
    assert_eq!(parse_aliased_type(b"bool "), None);
    assert_eq!(parse_aliased_type(b"(bool,bool)"), None);
    assert_eq!(parse_aliased_type(b"[bool;3]"), None);
    assert_eq!(parse_aliased_type(b"[bool; 03]"), None);
    assert_eq!(parse_aliased_type(b"List<bool, 3>"), None);
    assert_eq!(parse_aliased_type(b"Either<bool>"), None);
    assert_eq!(parse_aliased_type(b"u3"), Some(AliasedType::Alias(AliasName::new(b"u3".to_vec()))));
}

#[test]
fn resolve_builtin_replaces_builtin_aliases() {
    let ty = tuple(vec![AliasedType::Builtin(BuiltinAlias::Pubkey), bool()]);
    assert_eq!(
        ty.resolve_builtin(),
        Ok(ResolvedType::Tuple(vec![ResolvedType::UInt(UIntType::U256), ResolvedType::Boolean]))
    );
    let user = either(AliasedType::Alias(AliasName::new(b"Foo".to_vec())), bool());
    assert_eq!(user.resolve_builtin(), Err(AliasName::new(b"Foo".to_vec())));
}

#[test]
fn resolved_types_compare_and_copy() {
    let a = ResolvedType::Either(Box::new(ResolvedType::Boolean), Box::new(ResolvedType::UInt(UIntType::U4)));
    let b = a.copy();
    assert!(a.same_as(&b));
    assert_eq!(a, b);
    assert!(!a.same_as(&ResolvedType::Boolean));
    let p = ResolvedType::pair(ResolvedType::Boolean, ResolvedType::Boolean);
    assert_eq!(p, ResolvedType::Tuple(vec![ResolvedType::Boolean, ResolvedType::Boolean]));
    assert_eq!(
        ResolvedType::list_of(ResolvedType::Boolean, 8),
        ResolvedType::List(Box::new(ResolvedType::Boolean), 8)
    );
}

#[test]
fn resolved_type_from_text() {
    assert_eq!(
        ResolvedType::parse_from_str("(Height, bool)"),
        Ok(ResolvedType::Tuple(vec![ResolvedType::UInt(UIntType::U32), ResolvedType::Boolean]))
    );
    assert_eq!(
        ResolvedType::parse_from_str("Option<Bar>"),
        Err(TypeReadError::UndefinedAlias(AliasName::new(b"Bar".to_vec())))
    );
    assert_eq!(ResolvedType::parse_from_str("Option<"), Err(TypeReadError::Syntax));
    let _ = WitnessName::from_str_unchecked("x");
}
