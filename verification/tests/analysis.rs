use simplicityhl::analysis::{
    analyze_const, analyze_expression, analyze_jet_name, analyze_program, AnalysisError, ExpressionInner, JetInfo, JetTable,
    ParsedCall, ParsedCallName, ParsedExpression, ParsedFunction, ParsedItem, ParsedMatch, ParsedMatchArm,
    ParsedStatement, subexpressions,
};
use simplicityhl::ast::{Identifier, Scope, ScopeError, SymbolTable};
use simplicityhl::jet::{bool, unit};
use simplicityhl::plugin::ExternalJet;
use simplicityhl::types::{AliasName, AliasedType, ResolvedType, UIntType};
use simplicityhl::witness::{ConsistencyError, NameMap, Value, WitnessName};

fn name(s: &str) -> AliasName {
    AliasName::new(s.as_bytes().to_vec())
}

fn id(s: &str) -> Identifier {
    Identifier::from_str_unchecked(s)
}

fn jets() -> JetTable {
    JetTable::new(vec![
        (
            "verify".to_string(),
            JetInfo { jet: ExternalJet::new(0), disabled: false, source: vec![bool()], target: unit() },
        ),
        (
            "check_sig_verify".to_string(),
            JetInfo { jet: ExternalJet::new(1), disabled: true, source: vec![bool()], target: unit() },
        ),
    ])
}

fn call(n: ParsedCallName, args: Vec<ParsedExpression>) -> ParsedExpression {
    ParsedExpression::Call(ParsedCall { name: n, args })
}

fn block(stmts: Vec<ParsedStatement>, last: Option<ParsedExpression>) -> ParsedExpression {
    ParsedExpression::Block(stmts, last.map(Box::new))
}

fn main_fn(body: ParsedExpression) -> ParsedItem {
    ParsedItem::Function(ParsedFunction { name: name("main"), params: vec![], ret: None, body }, 0)
}

fn u8t() -> AliasedType {
    AliasedType::UInt(UIntType::U8)
}

fn functions(names: &[&str]) -> SymbolTable {
    SymbolTable::new(vec![], vec![names.iter().map(|n| name(n)).collect()])
}

fn program(items: Vec<ParsedItem>, fns: &[&str]) -> Result<simplicityhl::analysis::Program, AnalysisError> {
    analyze_program(&items, SymbolTable::new(vec![], vec![vec![]]), functions(fns), &jets())
}

fn assert_verify() -> ParsedExpression {
    call(ParsedCallName::Jet("verify".to_string()), vec![ParsedExpression::Boolean(true)])
}

#[test]
fn jet_names_must_name_enabled_jets() {
    let j = ExternalJet::new(3);
    assert_eq!(analyze_jet_name("x".to_string(), Some((j, false))), Ok(j));
    assert_eq!(
        analyze_jet_name("x".to_string(), Some((j, true))),
        Err(AnalysisError::JetDoesNotExist("x".to_string()))
    );
    assert_eq!(analyze_jet_name("x".to_string(), None), Err(AnalysisError::JetDoesNotExist("x".to_string())));
}

#[test]
fn program_with_jet_call_is_typed() {
    let body = block(vec![ParsedStatement::Expression(assert_verify())], None);
    let p = program(vec![main_fn(body)], &[]).expect("well-typed program");
    assert_eq!(p.main.ty, ResolvedType::Tuple(vec![]));
    match p.main.inner {
        ExpressionInner::Block(stmts, None) => assert_eq!(stmts.len(), 1),
        other => panic!("unexpected {other:?}"),
    }
}

#[test]
fn unknown_and_disabled_jets_do_not_exist() {
    let unknown = block(
        vec![ParsedStatement::Expression(call(
            ParsedCallName::Jet("nope".to_string()),
            vec![ParsedExpression::Boolean(true)],
        ))],
        None,
    );
    assert_eq!(program(vec![main_fn(unknown)], &[]).err(), Some(AnalysisError::JetDoesNotExist("nope".to_string())));
    let disabled = block(
        vec![ParsedStatement::Expression(call(
            ParsedCallName::Jet("check_sig_verify".to_string()),
            vec![ParsedExpression::Boolean(true)],
        ))],
        None,
    );
    assert_eq!(
        program(vec![main_fn(disabled)], &[]).err(),
        Some(AnalysisError::JetDoesNotExist("check_sig_verify".to_string()))
    );
}

#[test]
fn wrong_number_of_arguments() {
    let body = block(
        vec![ParsedStatement::Expression(call(
            ParsedCallName::Assert,
            vec![ParsedExpression::Boolean(true), ParsedExpression::Boolean(false)],
        ))],
        None,
    );
    assert_eq!(program(vec![main_fn(body)], &[]).err(), Some(AnalysisError::InvalidNumberOfArguments(1, 2)));
}

#[test]
fn main_is_required_once() {
    assert_eq!(program(vec![ParsedItem::Module], &[]).err(), Some(AnalysisError::MainRequired));
    let two = vec![main_fn(block(vec![], None)), main_fn(block(vec![], None))];
    assert_eq!(program(two, &[]).err(), Some(AnalysisError::FunctionRedefined(name("main"))));
    assert_eq!(program(vec![ParsedItem::Use], &[]).err(), Some(AnalysisError::UseKeywordIsNotSupported));
}

#[test]
fn main_takes_nothing_in_entry_file() {
    let with_input = ParsedItem::Function(
        ParsedFunction { name: name("main"), params: vec![(id("x"), bool())], ret: None, body: block(vec![], None) },
        0,
    );
    assert_eq!(program(vec![with_input], &[]).err(), Some(AnalysisError::MainNoInputs));
    let with_output = ParsedItem::Function(
        ParsedFunction { name: name("main"), params: vec![], ret: Some(bool()), body: block(vec![], None) },
        0,
    );
    assert_eq!(program(vec![with_output], &[]).err(), Some(AnalysisError::MainNoOutput));
    let elsewhere = ParsedItem::Function(
        ParsedFunction { name: name("main"), params: vec![], ret: None, body: block(vec![], None) },
        1,
    );
    assert_eq!(program(vec![elsewhere], &[]).err(), Some(AnalysisError::MainOutOfEntryFile));
}

fn add_fn() -> ParsedItem {
    ParsedItem::Function(
        ParsedFunction {
            name: name("add"),
            params: vec![(id("a"), u8t()), (id("acc"), u8t())],
            ret: Some(u8t()),
            body: ParsedExpression::Variable(id("acc")),
        },
        0,
    )
}

#[test]
fn fold_with_foldable_function() {
    let fold = call(
        ParsedCallName::Fold(name("add"), 4),
        vec![
            ParsedExpression::Witness(WitnessName::from_str_unchecked("L")),
            ParsedExpression::Witness(WitnessName::from_str_unchecked("I")),
        ],
    );
    let body = block(vec![ParsedStatement::Assignment(id("x"), u8t(), fold)], None);
    let p = program(vec![add_fn(), main_fn(body)], &["add"]).expect("fold type checks");
    assert_eq!(
        p.witness_types.get(&WitnessName::from_str_unchecked("L")),
        Some(&ResolvedType::List(Box::new(ResolvedType::UInt(UIntType::U8)), 4))
    );
    assert_eq!(p.witness_types.get(&WitnessName::from_str_unchecked("I")), Some(&ResolvedType::UInt(UIntType::U8)));
}

#[test]
fn fold_with_unfoldable_function() {
    let id_fn = ParsedItem::Function(
        ParsedFunction {
            name: name("f"),
            params: vec![(id("a"), u8t())],
            ret: Some(u8t()),
            body: ParsedExpression::Variable(id("a")),
        },
        0,
    );
    let fold = call(
        ParsedCallName::ArrayFold(name("f"), 3),
        vec![ParsedExpression::Witness(WitnessName::from_str_unchecked("A"))],
    );
    let body = block(vec![ParsedStatement::Assignment(id("x"), u8t(), fold)], None);
    assert_eq!(program(vec![id_fn, main_fn(body)], &["f"]).err(), Some(AnalysisError::FunctionNotFoldable(name("f"))));
}

fn loop_fn(counter: AliasedType) -> ParsedItem {
    ParsedItem::Function(
        ParsedFunction {
            name: name("step"),
            params: vec![(id("acc"), u8t()), (id("ctx"), bool()), (id("i"), counter)],
            ret: Some(AliasedType::Either(Box::new(unit()), Box::new(u8t()))),
            body: ParsedExpression::Right(Box::new(ParsedExpression::Variable(id("acc")))),
        },
        0,
    )
}

fn loop_main() -> ParsedItem {
    let looped = call(
        ParsedCallName::ForWhile(name("step")),
        vec![
            ParsedExpression::Witness(WitnessName::from_str_unchecked("A")),
            ParsedExpression::Witness(WitnessName::from_str_unchecked("C")),
        ],
    );
    let out = AliasedType::Either(Box::new(unit()), Box::new(u8t()));
    main_fn(block(vec![ParsedStatement::Assignment(id("x"), out, looped)], None))
}

#[test]
fn for_while_needs_small_counter() {
    assert!(program(vec![loop_fn(AliasedType::UInt(UIntType::U16)), loop_main()], &["step"]).is_ok());
    assert_eq!(
        program(vec![loop_fn(AliasedType::UInt(UIntType::U32)), loop_main()], &["step"]).err(),
        Some(AnalysisError::FunctionNotLoopable(name("step")))
    );
}

#[test]
fn custom_function_must_be_declared_and_visible() {
    let body = block(
        vec![ParsedStatement::Assignment(id("x"), u8t(), call(ParsedCallName::Custom(name("g")), vec![]))],
        None,
    );
    assert_eq!(
        program(vec![main_fn(body)], &[]).err(),
        Some(AnalysisError::Scope(ScopeError::FunctionUndefined(name("g"))))
    );
    let body2 = block(
        vec![ParsedStatement::Assignment(
            id("x"),
            u8t(),
            call(
                ParsedCallName::Custom(name("add")),
                vec![
                    ParsedExpression::Witness(WitnessName::from_str_unchecked("P")),
                    ParsedExpression::Witness(WitnessName::from_str_unchecked("Q")),
                ],
            ),
        )],
        None,
    );
    assert_eq!(
        program(vec![add_fn(), main_fn(body2)], &[]).err(),
        Some(AnalysisError::Scope(ScopeError::PrivateItem(name("add"))))
    );
}

#[test]
fn witnesses_only_once_and_inside_main() {
    let w = || ParsedExpression::Witness(WitnessName::from_str_unchecked("A"));
    let body = block(
        vec![
            ParsedStatement::Assignment(id("x"), bool(), w()),
            ParsedStatement::Assignment(id("y"), bool(), w()),
        ],
        None,
    );
    assert_eq!(
        program(vec![main_fn(body)], &[]).err(),
        Some(AnalysisError::Scope(ScopeError::WitnessReused(WitnessName::from_str_unchecked("A"))))
    );
    let f = ParsedItem::Function(
        ParsedFunction { name: name("f"), params: vec![], ret: Some(bool()), body: w() },
        0,
    );
    assert_eq!(
        program(vec![f, main_fn(block(vec![], None))], &["f"]).err(),
        Some(AnalysisError::Scope(ScopeError::WitnessOutsideMain))
    );
}

#[test]
fn variables_are_scoped_and_typed() {
    let mut scope = Scope::new(0, SymbolTable::new(vec![], vec![]), SymbolTable::new(vec![], vec![]));
    let t = ResolvedType::Boolean;
    let e = block(
        vec![ParsedStatement::Assignment(id("b"), bool(), ParsedExpression::Boolean(false))],
        Some(ParsedExpression::Variable(id("b"))),
    );
    let typed = analyze_expression(&e, &t, &mut scope, &jets()).expect("block types");
    assert_eq!(typed.ty, ResolvedType::Boolean);
    assert!(scope.is_topmost());
    assert_eq!(
        analyze_expression(&ParsedExpression::Variable(id("b")), &t, &mut scope, &jets()).err(),
        Some(AnalysisError::UndefinedVariable(id("b")))
    );
    assert_eq!(
        analyze_expression(&ParsedExpression::Boolean(true), &ResolvedType::UInt(UIntType::U8), &mut scope, &jets()).err(),
        Some(AnalysisError::ExpressionTypeMismatch(ResolvedType::UInt(UIntType::U8), ResolvedType::Boolean))
    );
    assert_eq!(
        analyze_expression(&block(vec![], None), &t, &mut scope, &jets()).err(),
        Some(AnalysisError::ExpressionTypeMismatch(ResolvedType::Boolean, ResolvedType::Tuple(vec![])))
    );
}

#[test]
fn shapes_must_match_expected_types() {
    let mut scope = Scope::new(0, SymbolTable::new(vec![], vec![]), SymbolTable::new(vec![], vec![]));
    let pair = ResolvedType::Tuple(vec![ResolvedType::Boolean, ResolvedType::Boolean]);
    let one = ParsedExpression::Tuple(vec![ParsedExpression::Boolean(true)]);
    assert_eq!(
        analyze_expression(&one, &pair, &mut scope, &jets()).err(),
        Some(AnalysisError::ExpressionUnexpectedType(pair.copy()))
    );
    let two = ParsedExpression::Tuple(vec![ParsedExpression::Boolean(true), ParsedExpression::Boolean(false)]);
    assert!(analyze_expression(&two, &pair, &mut scope, &jets()).is_ok());
    let list = ResolvedType::List(Box::new(ResolvedType::Boolean), 2);
    let long = ParsedExpression::List(vec![ParsedExpression::Boolean(true), ParsedExpression::Boolean(true)]);
    assert_eq!(
        analyze_expression(&long, &list, &mut scope, &jets()).err(),
        Some(AnalysisError::ExpressionUnexpectedType(list.copy()))
    );
    let arr = ResolvedType::Array(Box::new(ResolvedType::Boolean), 2);
    assert_eq!(
        analyze_expression(&long, &arr, &mut scope, &jets()).err(),
        Some(AnalysisError::ExpressionUnexpectedType(arr.copy()))
    );
    let array = ParsedExpression::Array(vec![ParsedExpression::Boolean(true), ParsedExpression::Boolean(true)]);
    assert!(analyze_expression(&array, &arr, &mut scope, &jets()).is_ok());
    let short = ParsedExpression::List(vec![ParsedExpression::Boolean(true)]);
    assert!(analyze_expression(&short, &list, &mut scope, &jets()).is_ok());
}

#[test]
fn match_arms_bind_their_variables() {
    let mut scope = Scope::new(0, SymbolTable::new(vec![], vec![]), SymbolTable::new(vec![], vec![]));
    scope.push_main_scope();
    let m = ParsedExpression::Match(ParsedMatch {
        scrutinee: Box::new(ParsedExpression::Witness(WitnessName::from_str_unchecked("E"))),
        scrutinee_type: AliasedType::Either(Box::new(bool()), Box::new(u8t())),
        left: ParsedMatchArm {
            binding: Some((id("b"), bool())),
            expression: Box::new(ParsedExpression::Variable(id("b"))),
        },
        right: ParsedMatchArm { binding: Some((id("n"), u8t())), expression: Box::new(ParsedExpression::Boolean(true)) },
    });
    let typed = analyze_expression(&m, &ResolvedType::Boolean, &mut scope, &jets()).expect("match types");
    assert!(matches!(typed.inner, ExpressionInner::Match(_)));
    assert_eq!(scope.get_variable(&id("b")), None);
}

#[test]
fn subexpressions_follow_source_order() {
    let mut scope = Scope::new(0, SymbolTable::new(vec![], vec![]), SymbolTable::new(vec![], vec![]));
    let e = block(
        vec![ParsedStatement::Assignment(id("b"), bool(), ParsedExpression::Boolean(false))],
        Some(ParsedExpression::Tuple(vec![
            ParsedExpression::Variable(id("b")),
            ParsedExpression::Boolean(true),
        ])),
    );
    let ty = ResolvedType::Tuple(vec![ResolvedType::Boolean, ResolvedType::Boolean]);
    let typed = analyze_expression(&e, &ty, &mut scope, &jets()).expect("block types");
    let kids = subexpressions(&typed);
    assert_eq!(kids.len(), 2);
    assert_eq!(kids[0].ty, ResolvedType::Boolean);
    assert_eq!(kids[1].ty, ty);
    assert_eq!(subexpressions(kids[1]).len(), 2);
    assert!(subexpressions(kids[0]).is_empty());
}

fn u32t() -> AliasedType {
    AliasedType::UInt(UIntType::U32)
}

fn eq_jets() -> JetTable {
    JetTable::new(vec![
        (
            "eq_32".to_string(),
            JetInfo { jet: ExternalJet::new(2), disabled: false, source: vec![u32t(), u32t()], target: bool() },
        ),
        ("is_zero_32".to_string(), JetInfo { jet: ExternalJet::new(3), disabled: false, source: vec![u32t()], target: bool() }),
    ])
}

fn witness(s: &str) -> ParsedExpression {
    ParsedExpression::Witness(WitnessName::from_str_unchecked(s))
}

fn assert_call(e: ParsedExpression) -> ParsedStatement {
    ParsedStatement::Expression(call(ParsedCallName::Assert, vec![e]))
}

fn jet_call(n: &str, args: Vec<ParsedExpression>) -> ParsedExpression {
    call(ParsedCallName::Jet(n.to_string()), args)
}

#[test]
fn witness_reuse() {
    let body = block(vec![assert_call(jet_call("eq_32", vec![witness("A"), witness("A")]))], None);
    let r = analyze_program(
        &vec![main_fn(body)],
        SymbolTable::new(vec![], vec![vec![]]),
        functions(&[]),
        &eq_jets(),
    );
    assert_eq!(r.err(), Some(AnalysisError::Scope(ScopeError::WitnessReused(WitnessName::from_str_unchecked("A")))));
}

#[test]
fn witness_type_mismatch() {
    let body = block(vec![assert_call(jet_call("is_zero_32", vec![witness("A")]))], None);
    let p = analyze_program(
        &vec![main_fn(body)],
        SymbolTable::new(vec![], vec![vec![]]),
        functions(&[]),
        &eq_jets(),
    )
    .expect("well-typed program");
    let mut bits = vec![false; 16];
    for (i, bit) in bits.iter_mut().enumerate() {
        *bit = (42u16 >> (15 - i)) & 1 == 1;
    }
    let values = NameMap::from_entries(vec![(
        WitnessName::from_str_unchecked("A"),
        Value::new(ResolvedType::UInt(UIntType::U16), bits),
    )]);
    assert_eq!(
        values.is_consistent(&p.witness_types),
        Err(ConsistencyError::WitnessTypeMismatch(
            WitnessName::from_str_unchecked("A"),
            ResolvedType::UInt(UIntType::U32),
            ResolvedType::UInt(UIntType::U16),
        ))
    );
}

#[test]
fn witness_outside_main() {
    let f = ParsedItem::Function(
        ParsedFunction { name: name("f"), params: vec![], ret: Some(u32t()), body: witness("OUTPUT_OF_F") },
        0,
    );
    let body = block(
        vec![assert_call(jet_call("is_zero_32", vec![call(ParsedCallName::Custom(name("f")), vec![])]))],
        None,
    );
    let r = analyze_program(
        &vec![f, main_fn(body)],
        SymbolTable::new(vec![], vec![vec![]]),
        functions(&["f"]),
        &eq_jets(),
    );
    assert_eq!(r.err(), Some(AnalysisError::Scope(ScopeError::WitnessOutsideMain)));
}

fn unit_fn(n: &str, file: usize) -> ParsedItem {
    ParsedItem::Function(ParsedFunction { name: name(n), params: vec![], ret: None, body: block(vec![], None) }, file)
}

fn main_in(file: usize, stmts: Vec<ParsedStatement>) -> ParsedItem {
    ParsedItem::Function(ParsedFunction { name: name("main"), params: vec![], ret: None, body: block(stmts, None) }, file)
}

fn call_helper() -> ParsedStatement {
    ParsedStatement::Expression(call(ParsedCallName::Custom(name("helper")), vec![]))
}

/// Function table of an entry file that imports `helper` from file 1.
fn helper_functions() -> SymbolTable {
    SymbolTable::new(
        vec![((name("helper"), 0), (name("helper"), 1))],
        vec![vec![name("helper"), name("main")], vec![name("main"), name("helper")]],
    )
}

#[test]
fn private_type_alias_from_dependency_does_not_leak() {
    let items = vec![
        ParsedItem::TypeAlias(name("Secret"), u32t(), 1),
        unit_fn("helper", 1),
        main_in(
            0,
            vec![
                call_helper(),
                ParsedStatement::Assignment(
                    id("x"),
                    AliasedType::Alias(name("Secret")),
                    ParsedExpression::Parameter(WitnessName::from_str_unchecked("ZERO")),
                ),
            ],
        ),
    ];
    let aliases = SymbolTable::new(vec![], vec![vec![], vec![name("Secret")]]);
    let result = analyze_program(&items, aliases, helper_functions(), &eq_jets());
    assert!(result.is_err(), "private alias from another file leaked into root scope: {:?}", result.err());
}

#[test]
fn same_alias_name_in_different_modules_does_not_conflict_if_only_one_is_imported() {
    let id_fn = ParsedItem::Function(
        ParsedFunction {
            name: name("id"),
            params: vec![(id("x"), u32t())],
            ret: Some(u32t()),
            body: ParsedExpression::Variable(id("x")),
        },
        2,
    );
    let items = vec![
        ParsedItem::TypeAlias(name("Word"), u32t(), 1),
        ParsedItem::TypeAlias(name("Word"), AliasedType::UInt(UIntType::U16), 2),
        id_fn,
        main_in(
            0,
            vec![
                ParsedStatement::Assignment(
                    id("x"),
                    AliasedType::Alias(name("Word")),
                    ParsedExpression::Parameter(WitnessName::from_str_unchecked("ZERO")),
                ),
                assert_call(jet_call(
                    "is_zero_32",
                    vec![call(ParsedCallName::Custom(name("id")), vec![ParsedExpression::Variable(id("x"))])],
                )),
            ],
        ),
    ];
    let aliases = SymbolTable::new(
        vec![((name("Word"), 0), (name("Word"), 1))],
        vec![vec![name("Word")], vec![name("Word")], vec![name("Word")]],
    );
    let fns = SymbolTable::new(
        vec![((name("id"), 0), (name("id"), 2))],
        vec![vec![name("id"), name("main")], vec![], vec![name("id")]],
    );
    let result = analyze_program(&items, aliases, fns, &eq_jets());
    assert!(result.is_ok(), "unimported alias from another module should not collide: {:?}", result.err());
}

#[test]
fn dependency_main_does_not_satisfy_missing_root_main() {
    let items = vec![main_in(1, vec![]), unit_fn("helper", 1)];
    let result = analyze_program(&items, SymbolTable::new(vec![], vec![vec![], vec![]]), helper_functions(), &eq_jets());
    assert_eq!(result.err(), Some(AnalysisError::MainOutOfEntryFile), "Main function must be inside an entry file");
}

#[test]
fn main_must_be_defined_once_per_project() {
    let items = vec![main_in(1, vec![]), unit_fn("helper", 1), main_in(0, vec![call_helper()])];
    let result = analyze_program(&items, SymbolTable::new(vec![], vec![vec![], vec![]]), helper_functions(), &eq_jets());
    assert_eq!(result.err(), Some(AnalysisError::MainOutOfEntryFile), "Main function must be inside an entry file");
}

#[test]
fn jet_signature_resolves_builtin_aliases_only() {
    let table = JetTable::new(vec![(
        "odd".to_string(),
        JetInfo { jet: ExternalJet::new(9), disabled: false, source: vec![AliasedType::Alias(name("a"))], target: unit() },
    )]);
    let items = vec![
        ParsedItem::TypeAlias(name("a"), bool(), 0),
        main_fn(block(vec![ParsedStatement::Expression(jet_call("odd", vec![]))], None)),
    ];
    let r = analyze_program(&items, SymbolTable::new(vec![], vec![vec![name("a")]]), functions(&[]), &table);
    assert_eq!(r.err(), Some(AnalysisError::Scope(ScopeError::UndefinedAlias(name("a")))));
}

#[test]
fn block_without_final_expression_has_unit_type() {
    let mut scope = Scope::new(0, SymbolTable::new(vec![], vec![]), SymbolTable::new(vec![], vec![]));
    let r = analyze_expression(&block(vec![], None), &ResolvedType::Boolean, &mut scope, &jets());
    assert_eq!(r.err(), Some(AnalysisError::ExpressionTypeMismatch(ResolvedType::Boolean, ResolvedType::Tuple(vec![]))));
}

#[test]
fn constants_analyze_in_an_empty_scope() {
    let ty = ResolvedType::Tuple(vec![ResolvedType::Boolean, ResolvedType::Option(Box::new(ResolvedType::Boolean))]);
    let e = analyze_const(
        &ParsedExpression::Tuple(vec![ParsedExpression::Boolean(true), ParsedExpression::Optional(None)]),
        &ty,
        &jets(),
    )
    .expect("well-typed constant");
    assert_eq!(e.ty, ty);
    assert_eq!(
        analyze_const(&ParsedExpression::Variable(id("x")), &ResolvedType::Boolean, &jets()).err(),
        Some(AnalysisError::UndefinedVariable(id("x")))
    );
    assert_eq!(
        analyze_const(&witness("A"), &ResolvedType::Boolean, &jets()).err(),
        Some(AnalysisError::Scope(ScopeError::WitnessOutsideMain))
    );
}

#[test]
fn program_accessors_give_main_parameters_and_witnesses() {
    let body = block(
        vec![
            assert_call(jet_call("is_zero_32", vec![witness("W")])),
            assert_call(jet_call("is_zero_32", vec![ParsedExpression::Parameter(WitnessName::from_str_unchecked("P"))])),
        ],
        None,
    );
    let p = analyze_program(&vec![main_fn(body)], SymbolTable::new(vec![], vec![vec![]]), functions(&[]), &eq_jets())
        .expect("well-typed program");
    assert_eq!(p.main().ty, ResolvedType::Tuple(vec![]));
    assert_eq!(
        p.witness_types().get(&WitnessName::from_str_unchecked("W")),
        Some(&ResolvedType::UInt(UIntType::U32))
    );
    assert_eq!(
        p.parameters().get(&WitnessName::from_str_unchecked("P")),
        Some(&ResolvedType::UInt(UIntType::U32))
    );
    assert_eq!(p.parameters().get(&WitnessName::from_str_unchecked("W")), None);
}

#[test]
fn analyzed_tree_keeps_parts_in_place() {
    let ty = ResolvedType::Array(Box::new(ResolvedType::Boolean), 3);
    let e = analyze_const(
        &ParsedExpression::Array(vec![
            ParsedExpression::Boolean(true),
            ParsedExpression::Boolean(false),
            ParsedExpression::Boolean(false),
        ]),
        &ty,
        &jets(),
    )
    .expect("well-typed array");
    match e.inner {
        ExpressionInner::Array(es) => {
            let bits: Vec<Vec<bool>> = es
                .iter()
                .map(|x| match &x.inner {
                    ExpressionInner::Constant(v) => v.bits().to_vec(),
                    other => panic!("unexpected {other:?}"),
                })
                .collect();
            assert_eq!(bits, vec![vec![true], vec![false], vec![false]]);
        }
        other => panic!("unexpected {other:?}"),
    }
}
