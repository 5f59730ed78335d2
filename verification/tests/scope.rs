use simplicityhl::ast::{
    FunctionParam, Identifier, Module, ModuleAssignment, ModuleItem, ModuleName, Scope, ScopeError, Span, SymbolTable,
};
use simplicityhl::jet::{bool, either, tuple};
use simplicityhl::types::{AliasName, AliasedType, BuiltinAlias, ResolvedType, UIntType};
use simplicityhl::witness::{Value, WitnessName};

fn id(s: &str) -> Identifier {
    Identifier::from_str_unchecked(s)
}

#[test]
fn variable_lookup_prefers_inner_scope() {
    let mut scope = Scope::new(0, SymbolTable::new(vec![], vec![]), SymbolTable::new(vec![], vec![]));
    assert!(scope.is_topmost());
    scope.push_scope();
    assert!(!scope.is_topmost());
    scope.insert_variable(id("x"), ResolvedType::Boolean);
    scope.push_scope();
    assert_eq!(scope.get_variable(&id("x")), Some(&ResolvedType::Boolean));
    scope.insert_variable(id("x"), ResolvedType::UInt(UIntType::U8));
    assert_eq!(scope.get_variable(&id("x")), Some(&ResolvedType::UInt(UIntType::U8)));
    scope.pop_scope();
    assert_eq!(scope.get_variable(&id("x")), Some(&ResolvedType::Boolean));
    assert_eq!(scope.get_variable(&id("y")), None);
}

#[test]
fn rebinding_in_same_scope_shadows() {
    let mut scope = Scope::new(3, SymbolTable::new(vec![], vec![]), SymbolTable::new(vec![], vec![]));
    assert_eq!(scope.file_id(), 3);
    scope.push_scope();
    scope.insert_variable(id("v"), ResolvedType::Boolean);
    scope.insert_variable(id("v"), ResolvedType::UInt(UIntType::U16));
    assert_eq!(scope.get_variable(&id("v")), Some(&ResolvedType::UInt(UIntType::U16)));
}

#[test]
fn main_scope_enters_and_leaves() {
    let mut scope = Scope::new(0, SymbolTable::new(vec![], vec![]), SymbolTable::new(vec![], vec![]));
    scope.push_main_scope();
    assert!(!scope.is_topmost());
    scope.pop_main_scope();
    assert!(scope.is_topmost());
}

#[test]
fn parameters_declared_once_per_type() {
    let mut scope = Scope::new(0, SymbolTable::new(vec![], vec![]), SymbolTable::new(vec![], vec![]));
    assert_eq!(scope.insert_parameter(WitnessName::from_str_unchecked("p"), ResolvedType::Boolean), Ok(()));
    assert_eq!(scope.insert_parameter(WitnessName::from_str_unchecked("p"), ResolvedType::Boolean), Ok(()));
    assert_eq!(
        scope.insert_parameter(WitnessName::from_str_unchecked("p"), ResolvedType::UInt(UIntType::U1)),
        Err(ScopeError::ExpressionTypeMismatch(ResolvedType::Boolean, ResolvedType::UInt(UIntType::U1)))
    );
    let (parameters, witnesses) = scope.destruct();
    assert_eq!(parameters.len(), 1);
    assert_eq!(witnesses.len(), 0);
}

#[test]
fn witnesses_only_inside_main_and_once() {
    let mut scope = Scope::new(0, SymbolTable::new(vec![], vec![]), SymbolTable::new(vec![], vec![]));
    assert_eq!(
        scope.insert_witness(WitnessName::from_str_unchecked("w"), ResolvedType::Boolean),
        Err(ScopeError::WitnessOutsideMain)
    );
    scope.push_main_scope();
    assert_eq!(scope.insert_witness(WitnessName::from_str_unchecked("w"), ResolvedType::Boolean), Ok(()));
    assert_eq!(
        scope.insert_witness(WitnessName::from_str_unchecked("w"), ResolvedType::Boolean),
        Err(ScopeError::WitnessReused(WitnessName::from_str_unchecked("w")))
    );
    scope.pop_main_scope();
    let (_, witnesses) = scope.destruct();
    assert_eq!(witnesses.get(&WitnessName::from_str_unchecked("w")), Some(&ResolvedType::Boolean));
}

#[test]
fn syntax_tree_parts_keep_their_fields() {
    let param = FunctionParam::new(id("a"), ResolvedType::Boolean);
    assert_eq!(param.identifier().as_inner(), "a");
    assert_eq!(param.ty(), &ResolvedType::Boolean);

    let assignment = ModuleAssignment::new(
        WitnessName::from_str_unchecked("w"),
        Value::new(ResolvedType::Boolean, vec![true]),
        Span::new(4, 9),
    );
    assert_eq!(assignment.name().as_inner(), "w");
    assert_eq!(assignment.value().bits(), &[true]);
    assert_eq!(assignment.span(), &Span { start: 4, end: 9 });

    let module = Module::new(ModuleName::from_str_unchecked("witness"), vec![assignment], Span::new(0, 20));
    assert_eq!(module.name().as_inner(), "witness");
    assert_eq!(module.assignments().len(), 1);
    assert_eq!(module.span().end, 20);
    let item = ModuleItem::Module(module);
    assert!(matches!(item, ModuleItem::Module(_)));
    assert_ne!(ModuleItem::Ignored, item);
    assert!(id("q").same_as(&id("q").copy()));
}

fn alias(s: &str) -> AliasName {
    AliasName::new(s.as_bytes().to_vec())
}

/// Two files: the entry file `0` imports `Word` from file `1`; file `1`
/// also declares `Secret`, which it does not export.
fn two_files() -> SymbolTable {
    SymbolTable::new(
        vec![((alias("Word"), 0), (alias("Word"), 1))],
        vec![vec![alias("Word")], vec![alias("Word"), alias("Secret")]],
    )
}

#[test]
fn aliases_resolve_through_imports() {
    let mut scope = Scope::new(1, two_files(), SymbolTable::new(vec![], vec![]));
    assert_eq!(scope.insert_alias(alias("Word"), AliasedType::UInt(UIntType::U32)), Ok(()));
    assert_eq!(scope.insert_alias(alias("Secret"), bool()), Ok(()));
    scope.set_file_id(0);
    assert_eq!(scope.file_id(), 0);
    assert_eq!(scope.get_alias(&alias("Word")), Ok(ResolvedType::UInt(UIntType::U32)));
    assert_eq!(
        scope.resolve(&tuple(vec![AliasedType::Alias(alias("Word")), AliasedType::Builtin(BuiltinAlias::Height)])),
        Ok(ResolvedType::Tuple(vec![ResolvedType::UInt(UIntType::U32), ResolvedType::UInt(UIntType::U32)]))
    );
}

#[test]
fn private_alias_does_not_leak() {
    let mut scope = Scope::new(1, two_files(), SymbolTable::new(vec![], vec![]));
    assert_eq!(scope.insert_alias(alias("Secret"), bool()), Ok(()));
    scope.set_file_id(0);
    assert_eq!(scope.get_alias(&alias("Secret")), Err(ScopeError::UndefinedAlias(alias("Secret"))));
    scope.set_file_id(1);
    assert_eq!(scope.get_alias(&alias("Secret")), Ok(ResolvedType::Boolean));
}

#[test]
fn declared_but_invisible_alias_is_private() {
    let table = SymbolTable::new(vec![], vec![vec![], vec![alias("Word")]]);
    let mut scope = Scope::new(0, table, SymbolTable::new(vec![], vec![]));
    assert_eq!(scope.insert_alias(alias("Word"), bool()), Ok(()));
    assert_eq!(scope.get_alias(&alias("Word")), Err(ScopeError::PrivateItem(alias("Word"))));
    scope.set_file_id(5);
    assert_eq!(scope.insert_alias(alias("Word"), bool()), Ok(()));
    assert_eq!(scope.get_alias(&alias("Word")), Err(ScopeError::Internal(5)));
}

#[test]
fn same_alias_name_in_two_files_does_not_conflict() {
    let table = SymbolTable::new(vec![], vec![vec![alias("Word")], vec![alias("Word")]]);
    let mut scope = Scope::new(0, table, SymbolTable::new(vec![], vec![]));
    assert_eq!(scope.insert_alias(alias("Word"), AliasedType::UInt(UIntType::U16)), Ok(()));
    scope.set_file_id(1);
    assert_eq!(scope.insert_alias(alias("Word"), AliasedType::UInt(UIntType::U32)), Ok(()));
    assert_eq!(scope.get_alias(&alias("Word")), Ok(ResolvedType::UInt(UIntType::U32)));
    scope.set_file_id(0);
    assert_eq!(scope.get_alias(&alias("Word")), Ok(ResolvedType::UInt(UIntType::U16)));
    assert_eq!(
        scope.insert_alias(alias("Word"), bool()),
        Err(ScopeError::RedefinedAlias(alias("Word")))
    );
}

#[test]
fn resolve_reports_the_leftmost_failing_alias() {
    let table = SymbolTable::new(vec![], vec![vec![alias("A"), alias("B")]]);
    let mut scope = Scope::new(0, table, SymbolTable::new(vec![], vec![]));
    assert_eq!(scope.insert_alias(alias("A"), bool()), Ok(()));
    let ty = either(AliasedType::Alias(alias("A")), tuple(vec![AliasedType::Alias(alias("B")), AliasedType::Alias(alias("C"))]));
    assert_eq!(scope.resolve(&ty), Err(ScopeError::UndefinedAlias(alias("B"))));
    assert_eq!(
        scope.insert_alias(alias("D"), AliasedType::Alias(alias("C"))),
        Err(ScopeError::UndefinedAlias(alias("C")))
    );
    assert_eq!(scope.get_alias(&alias("D")), Err(ScopeError::UndefinedAlias(alias("D"))));
}
