use simplicityhl::types::{ResolvedType, UIntType};
use simplicityhl::witness::{ConsistencyError, NameMap, Value, WitnessName};

fn name(s: &str) -> WitnessName {
    WitnessName::from_str_unchecked(s)
}

fn value(ty: ResolvedType, bits: Vec<bool>) -> Value {
    Value::new(ty, bits)
}

#[test]
fn witness_values_consistent_with_declared_types() {
    let types = NameMap::from_entries(vec![
        (name("a"), ResolvedType::Boolean),
        (name("b"), ResolvedType::UInt(UIntType::U8)),
    ]);
    let values = NameMap::from_entries(vec![
        (name("a"), value(ResolvedType::Boolean, vec![true])),
        (name("c"), value(ResolvedType::UInt(UIntType::U2), vec![false, true])),
    ]);
    assert_eq!(values.is_consistent(&types), Ok(()));
}

#[test]
fn witness_value_of_wrong_type_is_refused() {
    let types = NameMap::from_entries(vec![(name("a"), ResolvedType::Boolean)]);
    let values = NameMap::from_entries(vec![(name("a"), value(ResolvedType::UInt(UIntType::U1), vec![true]))]);
    assert_eq!(
        values.is_consistent(&types),
        Err(ConsistencyError::WitnessTypeMismatch(name("a"), ResolvedType::Boolean, ResolvedType::UInt(UIntType::U1)))
    );
}

#[test]
fn arguments_must_cover_parameters() {
    let parameters = NameMap::from_entries(vec![(name("p"), ResolvedType::UInt(UIntType::U32))]);
    let none: NameMap<Value> = NameMap::new();
    assert_eq!(
        none.is_consistent_with_parameters(&parameters),
        Err(ConsistencyError::ArgumentMissing(name("p")))
    );
    let wrong = NameMap::from_entries(vec![(name("p"), value(ResolvedType::Boolean, vec![false]))]);
    assert_eq!(
        wrong.is_consistent_with_parameters(&parameters),
        Err(ConsistencyError::ArgumentTypeMismatch(name("p"), ResolvedType::UInt(UIntType::U32), ResolvedType::Boolean))
    );
    let right = NameMap::from_entries(vec![
        (name("p"), value(ResolvedType::UInt(UIntType::U32), vec![false; 32])),
        (name("extra"), value(ResolvedType::Boolean, vec![true])),
    ]);
    assert_eq!(right.is_consistent_with_parameters(&parameters), Ok(()));
}

#[test]
fn name_map_lookup_and_insert() {
    let mut map: NameMap<ResolvedType> = NameMap::new();
    assert_eq!(map.len(), 0);
    map.insert_new(name("x"), ResolvedType::Boolean);
    map.insert_new(name("y"), ResolvedType::UInt(UIntType::U64));
    assert_eq!(map.len(), 2);
    assert_eq!(map.get(&name("y")), Some(&ResolvedType::UInt(UIntType::U64)));
    assert_eq!(map.get(&name("z")), None);
    assert_eq!(map.entries().len(), 2);
    assert_eq!(map.entries()[0].0.as_inner(), "x");
}

#[test]
fn values_know_their_type() {
    let v = value(ResolvedType::UInt(UIntType::U2), vec![true, false]);
    assert!(v.is_of_type(&ResolvedType::UInt(UIntType::U2)));
    assert!(!v.is_of_type(&ResolvedType::Boolean));
    assert_eq!(v.bits(), &[true, false]);
    assert_eq!(v.ty(), &ResolvedType::UInt(UIntType::U2));
}

#[test]
fn witness_names_compare_by_text() {
    let a = name("w");
    assert!(a.same_as(&a.copy()));
    assert!(!a.same_as(&name("v")));
}
