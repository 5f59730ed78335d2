//! Type checking of SimplicityHL programs: the analysis that turns a parse
//! tree into an abstract syntax tree in which every expression has its type.
use vstd::prelude::*;

use crate::ast::{
    alias_error_model, failing_alias_of, lemma_failing_alias_prefix, ScopeErrorModel, declare_parameter, declare_witness, SymbolTable, law_binding_leaves_others, lookup, alias_error, failing_alias, last_binding, lemma_last_binding_at, lemma_last_binding_none, resolve_aliases, AliasLookup, FunctionLookup, FunctionParam, Identifier, Scope,
    ScopeError,
};
use crate::plugin::ExternalJet;
use crate::types::{
    first_alias, first_alias_of, lemma_first_alias_prefix, resolve_builtins, resolve_builtins_of, AliasName,
    AliasedType, ResolvedType, TypeModel, UIntType,
};
use crate::witness::{Parameters, Value, WitnessName, WitnessTypes};

verus! {

/// Name of a function. Function names are identifiers, written as bytes like
/// the names of aliases.
pub type FunctionName = AliasName;

/// An analyzed expression and its type.
#[derive(Debug, PartialEq, Eq)]
pub struct Expression {
    pub inner: ExpressionInner,
    pub ty: ResolvedType,
}

/// Variant of an analyzed expression.
#[derive(Debug, PartialEq, Eq)]
pub enum ExpressionInner {
    /// Constant value.
    Constant(Value),
    /// Witness value.
    Witness(WitnessName),
    /// Parameter value.
    Parameter(WitnessName),
    /// Variable that has been assigned a value.
    Variable(Identifier),
    /// Expression in parentheses.
    Parenthesized(Box<Expression>),
    /// Tuple expression.
    Tuple(Vec<Expression>),
    /// Array expression.
    Array(Vec<Expression>),
    /// Bounded list of expressions.
    List(Vec<Expression>),
    /// Left value of an `Either`.
    Left(Box<Expression>),
    /// Right value of an `Either`.
    Right(Box<Expression>),
    /// Option expression.
    Optional(Option<Box<Expression>>),
    /// Call expression.
    Call(Box<Call>),
    /// Block: statements in a local scope, then the value of the final expression.
    Block(Vec<Statement>, Option<Box<Expression>>),
    /// Match expression.
    Match(Box<Match>),
}

/// Match of a value of sum type, of option type or of boolean type.
#[derive(Debug, PartialEq, Eq)]
pub struct Match {
    pub scrutinee: Expression,
    pub left: MatchArm,
    pub right: MatchArm,
}

/// Arm of a match: the variable that the arm binds, if any, and its expression.
#[derive(Debug, PartialEq, Eq)]
pub struct MatchArm {
    pub binding: Option<Identifier>,
    pub expression: Expression,
}

/// A statement of a block.
#[derive(Debug, PartialEq, Eq)]
pub enum Statement {
    /// Assignment of a value to a variable.
    Assignment(Identifier, Expression),
    /// Expression that returns nothing.
    Expression(Expression),
}

/// Definition of a custom function: its parameters and its analyzed body.
#[derive(Debug, PartialEq, Eq)]
pub struct CustomFunction {
    pub params: Vec<FunctionParam>,
    pub body: Expression,
}

/// Call of a jet, of a builtin function or of a custom function.
#[derive(Debug, PartialEq, Eq)]
pub struct Call {
    pub name: CallName,
    pub args: Vec<Expression>,
}

/// Name of a called function, with the signature that the call is checked against.
#[derive(Debug, PartialEq, Eq)]
pub enum CallName {
    /// Jet with its argument types and output type as the jet parser gives
    /// them, before their builtin aliases are resolved.
    Jet(ExternalJet, Vec<AliasedType>, AliasedType),
    /// `unwrap_left` with the right type.
    UnwrapLeft(ResolvedType),
    /// `unwrap_right` with the left type.
    UnwrapRight(ResolvedType),
    /// `is_none` with the type inside the option.
    IsNone(ResolvedType),
    /// `unwrap` of an option.
    Unwrap,
    /// `assert!`.
    Assert,
    /// `panic!` without error message.
    Panic,
    /// `dbg!`.
    Debug,
    /// Custom function with its parameter types and its body type.
    Custom(FunctionName, Vec<ResolvedType>, ResolvedType),
    /// Fold of a bounded list with the function, its parameter types, body type and the list bound.
    Fold(FunctionName, Vec<ResolvedType>, ResolvedType, usize),
    /// Fold of an array with the function, its parameter types, body type and the array size.
    ArrayFold(FunctionName, Vec<ResolvedType>, ResolvedType, usize),
    /// Loop of the function, with its parameter types, body type and the bit width of its counter.
    ForWhile(FunctionName, Vec<ResolvedType>, ResolvedType, usize),
}

/// What the jet parser tells of a jet name: the jet, whether it is disabled,
/// and its high-level signature.
#[derive(Debug, PartialEq, Eq)]
pub struct JetInfo {
    pub jet: ExternalJet,
    pub disabled: bool,
    pub source: Vec<AliasedType>,
    pub target: AliasedType,
}

/// The answers of the jet parser, by jet name.
pub struct JetTable {
    entries: Vec<(String, JetInfo)>,
}

impl JetTable {
    /// The names and answers, the last answer for a name counting.
    pub closed spec fn entries_view(&self) -> Seq<(Seq<char>, JetInfo)> {
        self.entries@.map_values(|e: (String, JetInfo)| (e.0@, e.1))
    }

    /// What the jet parser answers for `name`.
    pub open spec fn spec_find(&self, name: Seq<char>) -> Option<JetInfo> {
        last_binding(self.entries_view(), name)
    }

    /// The table of the given answers.
    pub fn new(entries: Vec<(String, JetInfo)>) -> (r: JetTable)
        ensures
            r.entries_view() == entries@.map_values(|e: (String, JetInfo)| (e.0@, e.1)),
    {
        JetTable { entries }
    }

    /// What the jet parser answers for `name`.
    pub fn parse_jet(&self, name: &String) -> (r: Option<&JetInfo>)
        ensures
            r matches Some(i) ==> self.spec_find(name@) == Some(*i),
            r is None ==> self.spec_find(name@) is None,
    {
        let ghost key = name@;
        let mut i: usize = self.entries.len();
        while i > 0
            invariant
                i <= self.entries.len(),
                key == name@,
                forall|jj: int| i <= jj < self.entries_view().len() ==> (#[trigger] self.entries_view()[jj]).0 != key,
            decreases i,
        {
            let entry = &self.entries[i - 1];
            if entry.0 == *name {
                proof {
                    assert(self.entries_view()[i - 1].0 == key);
                    lemma_last_binding_at(self.entries_view(), i - 1, key);
                }
                return Some(&entry.1);
            }
            i = i - 1;
        }
        proof {
            lemma_last_binding_none(self.entries_view(), key);
        }
        None
    }
}

/// Error of analyzing a program.
#[derive(Debug, PartialEq, Eq)]
pub enum AnalysisError {
    /// A lookup or declaration in the scope failed.
    Scope(ScopeError),
    /// The jet parser knows no jet of this name, or the jet is disabled.
    JetDoesNotExist(String),
    /// The function cannot be used in a fold.
    FunctionNotFoldable(FunctionName),
    /// The function cannot be used in a loop.
    FunctionNotLoopable(FunctionName),
    /// The call has the wrong number of arguments: the expected number, then the given one.
    InvalidNumberOfArguments(usize, usize),
    /// The expression was expected to have the first type but has the second.
    ExpressionTypeMismatch(ResolvedType, ResolvedType),
    /// The expression cannot have the expected type.
    ExpressionUnexpectedType(ResolvedType),
    /// The variable is not bound.
    UndefinedVariable(Identifier),
    /// The main function takes no inputs.
    MainNoInputs,
    /// The main function returns nothing.
    MainNoOutput,
    /// The main function is not in the entry file.
    MainOutOfEntryFile,
    /// The program has no main function.
    MainRequired,
    /// The function is defined twice.
    FunctionRedefined(FunctionName),
    /// `use` declarations are not supported.
    UseKeywordIsNotSupported,
}

/// An analysis error with its names and types as plain values.
pub enum ErrorModel {
    Scope(ScopeErrorModel),
    JetDoesNotExist(Seq<char>),
    FunctionNotFoldable(Seq<u8>),
    FunctionNotLoopable(Seq<u8>),
    InvalidNumberOfArguments(nat, nat),
    ExpressionTypeMismatch(TypeModel, TypeModel),
    ExpressionUnexpectedType(TypeModel),
    UndefinedVariable(Seq<char>),
    MainNoInputs,
    MainNoOutput,
    MainOutOfEntryFile,
    MainRequired,
    FunctionRedefined(Seq<u8>),
    UseKeywordIsNotSupported,
}

impl View for AnalysisError {
    type V = ErrorModel;

    open spec fn view(&self) -> ErrorModel {
        match self {
            AnalysisError::Scope(e) => ErrorModel::Scope(e@),
            AnalysisError::JetDoesNotExist(n) => ErrorModel::JetDoesNotExist(n@),
            AnalysisError::FunctionNotFoldable(n) => ErrorModel::FunctionNotFoldable(n@),
            AnalysisError::FunctionNotLoopable(n) => ErrorModel::FunctionNotLoopable(n@),
            AnalysisError::InvalidNumberOfArguments(a, b) => ErrorModel::InvalidNumberOfArguments(*a as nat, *b as nat),
            AnalysisError::ExpressionTypeMismatch(a, b) => ErrorModel::ExpressionTypeMismatch(a@, b@),
            AnalysisError::ExpressionUnexpectedType(t) => ErrorModel::ExpressionUnexpectedType(t@),
            AnalysisError::UndefinedVariable(x) => ErrorModel::UndefinedVariable(x@),
            AnalysisError::MainNoInputs => ErrorModel::MainNoInputs,
            AnalysisError::MainNoOutput => ErrorModel::MainNoOutput,
            AnalysisError::MainOutOfEntryFile => ErrorModel::MainOutOfEntryFile,
            AnalysisError::MainRequired => ErrorModel::MainRequired,
            AnalysisError::FunctionRedefined(n) => ErrorModel::FunctionRedefined(n@),
            AnalysisError::UseKeywordIsNotSupported => ErrorModel::UseKeywordIsNotSupported,
        }
    }
}

/// Analyze a jet name from the jet parser's answer for it: the jet, if the
/// parser found one, and whether that jet is disabled.
///
/// A jet that is found and not disabled is taken; any other name does not
/// name a jet.
pub fn analyze_jet_name(name: String, found: Option<(ExternalJet, bool)>) -> (r: Result<ExternalJet, AnalysisError>)
    ensures
        found matches Some((j, false)) ==> r == Ok::<ExternalJet, AnalysisError>(j),
        !(found matches Some((_, false))) ==> (r matches Err(AnalysisError::JetDoesNotExist(n)) && n@ == name@),
{
    match found {
        Some((jet, false)) => Ok(jet),
        _ => Err(AnalysisError::JetDoesNotExist(name)),
    }
}

/// The types of the parameters of a function.
pub open spec fn param_types(f: CustomFunction) -> Seq<TypeModel> {
    f.params@.map_values(|p: FunctionParam| p@.1)
}

/// A function that a fold can use: `fn f(element: E, accumulator: A) -> A`.
pub open spec fn foldable(f: CustomFunction) -> bool {
    f.params@.len() == 2 && param_types(f)[1] == f.body.ty@
}

/// The counter width of a function that a loop can use:
/// `fn f(accumulator: A, context: C, counter: u{N}) -> Either<B, A>` with `N`
/// at most 16; `None` for any other function.
pub open spec fn loop_width(f: CustomFunction) -> Option<nat> {
    if f.params@.len() != 3 {
        None
    } else {
        match f.body.ty@ {
            TypeModel::Either(_, out_r) => if *out_r != param_types(f)[0] {
                None
            } else {
                match param_types(f)[2] {
                    TypeModel::UInt(u) => if u == UIntType::U1 || u == UIntType::U2 || u == UIntType::U4 || u
                        == UIntType::U8 || u == UIntType::U16 {
                        Some(u.spec_bit_width())
                    } else {
                        None
                    },
                    _ => None,
                }
            },
            _ => None,
        }
    }
}

/// The error that a failed function lookup reports.
pub open spec fn function_error(e: AnalysisError, name: Seq<u8>, found: FunctionLookup, file_id: usize) -> bool {
    match found {
        FunctionLookup::Undefined => e matches AnalysisError::Scope(ScopeError::FunctionUndefined(n)) && n@ == name,
        FunctionLookup::MissingFile => e == AnalysisError::Scope(ScopeError::Internal(file_id)),
        FunctionLookup::Private => e matches AnalysisError::Scope(ScopeError::PrivateItem(n)) && n@ == name,
        FunctionLookup::Found(_) => false,
    }
}

/// The call name of a custom function `f` used under the name `name`: its
/// parameter types and body type.
pub open spec fn custom_signature(c: CallName, name: Seq<u8>, f: CustomFunction) -> bool {
    c matches CallName::Custom(n, ps, b) && n@ == name && ResolvedType::models(ps@) == param_types(f) && b@ == f.body.ty@
}

/// Name of a called function in the parse tree.
pub enum ParsedCallName {
    Jet(String),
    UnwrapLeft(AliasedType),
    UnwrapRight(AliasedType),
    IsNone(AliasedType),
    Unwrap,
    Assert,
    Panic,
    Debug,
    Custom(FunctionName),
    ArrayFold(FunctionName, usize),
    Fold(FunctionName, usize),
    ForWhile(FunctionName),
}

/// A call in the parse tree.
pub struct ParsedCall {
    pub name: ParsedCallName,
    pub args: Vec<ParsedExpression>,
}

/// An expression in the parse tree.
pub enum ParsedExpression {
    Boolean(bool),
    Witness(WitnessName),
    Parameter(WitnessName),
    Variable(Identifier),
    Parenthesized(Box<ParsedExpression>),
    Tuple(Vec<ParsedExpression>),
    Array(Vec<ParsedExpression>),
    List(Vec<ParsedExpression>),
    Left(Box<ParsedExpression>),
    Right(Box<ParsedExpression>),
    Optional(Option<Box<ParsedExpression>>),
    Call(ParsedCall),
    Block(Vec<ParsedStatement>, Option<Box<ParsedExpression>>),
    Match(ParsedMatch),
}

/// A match in the parse tree, with the type of its scrutinee as its patterns
/// say (`Either<L, R>`, `Option<T>` or `bool`).
pub struct ParsedMatch {
    pub scrutinee: Box<ParsedExpression>,
    pub scrutinee_type: AliasedType,
    pub left: ParsedMatchArm,
    pub right: ParsedMatchArm,
}

/// An arm in the parse tree: the variable and type that its pattern binds,
/// if it binds one, and its expression.
pub struct ParsedMatchArm {
    pub binding: Option<(Identifier, AliasedType)>,
    pub expression: Box<ParsedExpression>,
}

/// A statement in the parse tree: the assignment of a value of a written type
/// to a variable, or an expression.
pub enum ParsedStatement {
    Assignment(Identifier, AliasedType, ParsedExpression),
    Expression(ParsedExpression),
}

/// Resolve the builtin aliases of every type, failing on the leftmost
/// user-defined alias.
fn resolve_builtin_all(v: &Vec<AliasedType>) -> (r: Result<Vec<ResolvedType>, AliasName>)
    ensures
        first_alias_of(AliasedType::models(v@)) is None ==> (r matches Ok(ps) && ResolvedType::models(ps@)
            == resolve_builtins_of(AliasedType::models(v@))),
        first_alias_of(AliasedType::models(v@)) matches Some(a) ==> (r matches Err(n) && n@ == a),
{
    proof {
        AliasedType::lemma_models(v@);
    }
    let ghost ms = AliasedType::models(v@);
    let mut out: Vec<ResolvedType> = Vec::new();
    let mut i: usize = 0;
    while i < v.len()
        invariant
            i <= v.len(),
            ms == AliasedType::models(v@),
            ms.len() == v.len(),
            forall|j: int| 0 <= j < v.len() ==> #[trigger] ms[j] == v@[j].model(),
            first_alias_of(ms.take(i as int)) is None,
            ResolvedType::models(out@) == resolve_builtins_of(ms.take(i as int)),
        decreases v.len() - i,
    {
        proof {
            assert(ms.take(i + 1).drop_last() =~= ms.take(i as int));
        }
        match v[i].resolve_builtin() {
            Ok(t) => {
                let ghost v0 = out@;
                out.push(t);
                proof {
                    assert(out@.drop_last() =~= v0);
                }
            },
            Err(n) => {
                proof {
                    assert(first_alias_of(ms.take(i + 1)) == first_alias(ms[i as int]));
                    lemma_first_alias_prefix(ms, i + 1);
                }
                return Err(n);
            },
        }
        i = i + 1;
    }
    proof {
        assert(ms.take(v.len() as int) =~= ms);
    }
    Ok(out)
}

/// Copies of the parameter types of a function.
fn param_type_copies(params: &Vec<FunctionParam>) -> (r: Vec<ResolvedType>)
    ensures
        r@.len() == params@.len(),
        ResolvedType::models(r@) == params@.map_values(|p: FunctionParam| p@.1),
{
    let mut out: Vec<ResolvedType> = Vec::new();
    let mut i: usize = 0;
    while i < params.len()
        invariant
            i <= params.len(),
            ResolvedType::models(out@) == params@.map_values(|p: FunctionParam| p@.1).take(i as int),
            out@.len() == i,
        decreases params.len() - i,
    {
        let t = params[i].ty().copy();
        let ghost v0 = out@;
        out.push(t);
        proof {
            assert(out@.drop_last() =~= v0);
            assert(params@.map_values(|p: FunctionParam| p@.1).take(i + 1) =~= params@.map_values(
                |p: FunctionParam| p@.1,
            ).take(i as int).push(t@));
        }
        i = i + 1;
    }
    proof {
        assert(params@.map_values(|p: FunctionParam| p@.1).take(params.len() as int) =~= params@.map_values(
            |p: FunctionParam| p@.1,
        ));
    }
    out
}

/// Copies of the aliased types.
fn copy_aliased_types(v: &Vec<AliasedType>) -> (r: Vec<AliasedType>)
    ensures
        AliasedType::models(r@) == AliasedType::models(v@),
{
    proof {
        AliasedType::lemma_models(v@);
    }
    let mut out: Vec<AliasedType> = Vec::new();
    let mut i: usize = 0;
    while i < v.len()
        invariant
            i <= v.len(),
            AliasedType::models(v@).len() == v.len(),
            forall|j: int| 0 <= j < v.len() ==> #[trigger] AliasedType::models(v@)[j] == v@[j]@,
            AliasedType::models(out@) == AliasedType::models(v@).take(i as int),
        decreases v.len() - i,
    {
        let t = v[i].copy();
        let ghost v0 = out@;
        out.push(t);
        proof {
            assert(out@.drop_last() =~= v0);
            assert(AliasedType::models(out@) =~= AliasedType::models(v@).take(i + 1));
        }
        i = i + 1;
    }
    proof {
        assert(AliasedType::models(v@).take(v.len() as int) =~= AliasedType::models(v@));
    }
    out
}

/// Analyze the name of a call: look up the jet or the function it names and
/// check that a function used in a fold or a loop has the right signature.
pub fn analyze_call_name(from: &ParsedCall, scope: &Scope, jets: &JetTable) -> (r: Result<CallName, AnalysisError>)
    ensures
        r matches Err(e) ==> item_error(e),
        from.name matches ParsedCallName::Jet(n) ==> match jets.spec_find(n@) {
            Some(info) => if info.disabled {
                r matches Err(AnalysisError::JetDoesNotExist(m)) && m@ == n@
            } else {
                r matches Ok(CallName::Jet(j, ps, o)) && j == info.jet && AliasedType::models(ps@) == AliasedType::models(
                    info.source@,
                ) && o@ == info.target@
            },
            None => r matches Err(AnalysisError::JetDoesNotExist(m)) && m@ == n@,
        },
        from.name matches ParsedCallName::UnwrapLeft(t) ==> (match failing_alias(t@, scope.lookup_fn()) {
            None => r matches Ok(CallName::UnwrapLeft(u)) && u@ == resolve_aliases(t@, scope.lookup_fn()),
            Some(a) => r matches Err(AnalysisError::Scope(e)) && alias_error(e, a, scope.alias_lookup(a), scope.spec_file_id()),
        }),
        from.name matches ParsedCallName::UnwrapRight(t) ==> (match failing_alias(t@, scope.lookup_fn()) {
            None => r matches Ok(CallName::UnwrapRight(u)) && u@ == resolve_aliases(t@, scope.lookup_fn()),
            Some(a) => r matches Err(AnalysisError::Scope(e)) && alias_error(e, a, scope.alias_lookup(a), scope.spec_file_id()),
        }),
        from.name matches ParsedCallName::IsNone(t) ==> (match failing_alias(t@, scope.lookup_fn()) {
            None => r matches Ok(CallName::IsNone(u)) && u@ == resolve_aliases(t@, scope.lookup_fn()),
            Some(a) => r matches Err(AnalysisError::Scope(e)) && alias_error(e, a, scope.alias_lookup(a), scope.spec_file_id()),
        }),
        r matches Ok(c) ==> call_name_wf(c),
        r matches Err(e) ==> forall|t: TypeModel| #[trigger] call_plan(*from, t, ctx_of(*scope), *jets) == Err::<
            CallPlan,
            ErrorModel,
        >(e@),
        r matches Ok(c) ==> forall|t: TypeModel| #[trigger] call_plan(*from, t, ctx_of(*scope), *jets) == Ok::<
            CallPlan,
            ErrorModel,
        >(name_plan(c, t)),
        r matches Ok(c) ==> call_name_as(from.name, c, *jets),
        from.name is Unwrap ==> r == Ok::<CallName, AnalysisError>(CallName::Unwrap),
        from.name is Assert ==> r == Ok::<CallName, AnalysisError>(CallName::Assert),
        from.name is Panic ==> r == Ok::<CallName, AnalysisError>(CallName::Panic),
        from.name is Debug ==> r == Ok::<CallName, AnalysisError>(CallName::Debug),
        from.name matches ParsedCallName::Custom(n) ==> (match scope.function_lookup(n@) {
            FunctionLookup::Found(f) => r matches Ok(c) && custom_signature(c, n@, f),
            found => r matches Err(e) && function_error(e, n@, found, scope.spec_file_id()),
        }),
        from.name matches ParsedCallName::Fold(n, bound) ==> (match scope.function_lookup(n@) {
            FunctionLookup::Found(f) => if foldable(f) {
                r matches Ok(CallName::Fold(m, ps, b, k)) && m@ == n@ && ResolvedType::models(ps@) == param_types(f)
                    && b@ == f.body.ty@ && k == bound
            } else {
                r matches Err(AnalysisError::FunctionNotFoldable(m)) && m@ == n@
            },
            found => r matches Err(e) && function_error(e, n@, found, scope.spec_file_id()),
        }),
        from.name matches ParsedCallName::ArrayFold(n, size) ==> (match scope.function_lookup(n@) {
            FunctionLookup::Found(f) => if foldable(f) {
                r matches Ok(CallName::ArrayFold(m, ps, b, k)) && m@ == n@ && ResolvedType::models(ps@) == param_types(f)
                    && b@ == f.body.ty@ && k == size
            } else {
                r matches Err(AnalysisError::FunctionNotFoldable(m)) && m@ == n@
            },
            found => r matches Err(e) && function_error(e, n@, found, scope.spec_file_id()),
        }),
        from.name matches ParsedCallName::ForWhile(n) ==> (match scope.function_lookup(n@) {
            FunctionLookup::Found(f) => match loop_width(f) {
                Some(w) => r matches Ok(CallName::ForWhile(m, ps, b, k)) && m@ == n@ && ResolvedType::models(ps@)
                    == param_types(f) && b@ == f.body.ty@ && k == w,
                None => r matches Err(AnalysisError::FunctionNotLoopable(m)) && m@ == n@,
            },
            found => r matches Err(e) && function_error(e, n@, found, scope.spec_file_id()),
        }),
{
    match &from.name {
        ParsedCallName::Jet(name) => {
            let found = match jets.parse_jet(name) {
                Some(info) => Some((info.jet, info.disabled)),
                None => None,
            };
            let jet = analyze_jet_name(name.clone(), found)?;
            let info = jets.parse_jet(name).unwrap();
            Ok(CallName::Jet(jet, copy_aliased_types(&info.source), info.target.copy()))
        },
        ParsedCallName::UnwrapLeft(t) => match scope.resolve(t) {
            Ok(u) => Ok(CallName::UnwrapLeft(u)),
            Err(e) => Err(AnalysisError::Scope(e)),
        },
        ParsedCallName::UnwrapRight(t) => match scope.resolve(t) {
            Ok(u) => Ok(CallName::UnwrapRight(u)),
            Err(e) => Err(AnalysisError::Scope(e)),
        },
        ParsedCallName::IsNone(t) => match scope.resolve(t) {
            Ok(u) => Ok(CallName::IsNone(u)),
            Err(e) => Err(AnalysisError::Scope(e)),
        },
        ParsedCallName::Unwrap => Ok(CallName::Unwrap),
        ParsedCallName::Assert => Ok(CallName::Assert),
        ParsedCallName::Panic => Ok(CallName::Panic),
        ParsedCallName::Debug => Ok(CallName::Debug),
        ParsedCallName::Custom(name) => match scope.get_function(name) {
            Ok(f) => Ok(CallName::Custom(name.copy(), param_type_copies(&f.params), f.body.ty.copy())),
            Err(e) => Err(AnalysisError::Scope(e)),
        },
        ParsedCallName::Fold(name, bound) => match scope.get_function(name) {
            Ok(f) => {
                if f.params.len() != 2 || !f.params[1].ty().same_as(&f.body.ty) {
                    Err(AnalysisError::FunctionNotFoldable(name.copy()))
                } else {
                    let ps = param_type_copies(&f.params);
                    proof {
                        ResolvedType::lemma_models(ps@);
                    }
                    Ok(CallName::Fold(name.copy(), ps, f.body.ty.copy(), *bound))
                }
            },
            Err(e) => Err(AnalysisError::Scope(e)),
        },
        ParsedCallName::ArrayFold(name, size) => match scope.get_function(name) {
            Ok(f) => {
                if f.params.len() != 2 || !f.params[1].ty().same_as(&f.body.ty) {
                    Err(AnalysisError::FunctionNotFoldable(name.copy()))
                } else {
                    let ps = param_type_copies(&f.params);
                    proof {
                        ResolvedType::lemma_models(ps@);
                    }
                    Ok(CallName::ArrayFold(name.copy(), ps, f.body.ty.copy(), *size))
                }
            },
            Err(e) => Err(AnalysisError::Scope(e)),
        },
        ParsedCallName::ForWhile(name) => match scope.get_function(name) {
            Ok(f) => {
                if f.params.len() != 3 {
                    return Err(AnalysisError::FunctionNotLoopable(name.copy()));
                }
                let right_ok = match &f.body.ty {
                    ResolvedType::Either(_, out_r) => out_r.same_as(f.params[0].ty()),
                    _ => false,
                };
                if !right_ok {
                    return Err(AnalysisError::FunctionNotLoopable(name.copy()));
                }
                let width: usize = match f.params[2].ty() {
                    ResolvedType::UInt(u) => match u {
                        UIntType::U1 | UIntType::U2 | UIntType::U4 | UIntType::U8 | UIntType::U16 => u.bit_width(),
                        _ => return Err(AnalysisError::FunctionNotLoopable(name.copy())),
                    },
                    _ => return Err(AnalysisError::FunctionNotLoopable(name.copy())),
                };
                let ps = param_type_copies(&f.params);
                proof {
                    ResolvedType::lemma_models(ps@);
                }
                Ok(CallName::ForWhile(name.copy(), ps, f.body.ty.copy(), width))
            },
            Err(e) => Err(AnalysisError::Scope(e)),
        },
    }
}

/// An error that analyzing a single item can give: anything but the errors
/// about the number of main functions.
pub open spec fn item_error(e: AnalysisError) -> bool {
    !(e is MainRequired) && !(e is FunctionRedefined)
}

/// A call name as [`analyze_call_name`] makes it: a fold names a function of
/// two parameters, a loop one of three.
pub open spec fn call_name_wf(name: CallName) -> bool {
    match name {
        CallName::Fold(_, ps, _, _) => ps@.len() == 2,
        CallName::ArrayFold(_, ps, _, _) => ps@.len() == 2,
        CallName::ForWhile(_, ps, _, _) => ps@.len() == 3,
        _ => true,
    }
}

/// The types that the arguments of a call of `name` with output type `ty` must have.
pub open spec fn expected_params(name: CallName, ty: TypeModel) -> Seq<TypeModel> {
    match name {
        CallName::Jet(_, ps, _) => resolve_builtins_of(AliasedType::models(ps@)),
        CallName::UnwrapLeft(r) => seq![TypeModel::Either(Box::new(ty), Box::new(r@))],
        CallName::UnwrapRight(l) => seq![TypeModel::Either(Box::new(l@), Box::new(ty))],
        CallName::IsNone(t) => seq![TypeModel::Option(Box::new(t@))],
        CallName::Unwrap => seq![TypeModel::Option(Box::new(ty))],
        CallName::Assert => seq![TypeModel::Boolean],
        CallName::Panic => Seq::empty(),
        CallName::Debug => seq![ty],
        CallName::Custom(_, ps, _) => ResolvedType::models(ps@),
        CallName::Fold(_, ps, _, bound) => seq![
            TypeModel::List(Box::new(ps@[0]@), bound as nat),
            ps@[1]@,
        ],
        CallName::ArrayFold(_, ps, _, size) => seq![
            TypeModel::Array(Box::new(ps@[0]@), size as nat),
            ps@[1]@,
        ],
        CallName::ForWhile(_, ps, _, _) => seq![ps@[0]@, ps@[1]@],
    }
}

/// The output type that a call of `name` has, where it is fixed.
pub open spec fn expected_output(name: CallName) -> Option<TypeModel> {
    match name {
        CallName::Jet(_, _, o) => Some(resolve_builtins(o@)),
        CallName::IsNone(_) => Some(TypeModel::Boolean),
        CallName::Assert => Some(TypeModel::Tuple(Seq::empty())),
        CallName::Custom(_, _, b) => Some(b@),
        CallName::Fold(_, _, b, _) => Some(b@),
        CallName::ArrayFold(_, _, b, _) => Some(b@),
        CallName::ForWhile(_, _, b, _) => Some(b@),
        _ => None,
    }
}

/// The leftmost user-defined alias among the argument types of a jet's call
/// name, if there is one.
pub open spec fn source_alias(name: CallName) -> Option<Seq<u8>> {
    match name {
        CallName::Jet(_, ps, _) => first_alias_of(AliasedType::models(ps@)),
        _ => None,
    }
}

/// The leftmost user-defined alias in the output type of a jet's call name,
/// if there is one.
pub open spec fn target_alias(name: CallName) -> Option<Seq<u8>> {
    match name {
        CallName::Jet(_, _, o) => first_alias(o@),
        _ => None,
    }
}

/// The signature of `name` fits a call with `n` arguments and output type
/// `ty`: every type resolves, the number of arguments is right and so is the
/// output type, where the name fixes it.
pub open spec fn call_fits(name: CallName, n: nat, ty: TypeModel) -> bool {
    &&& source_alias(name) is None
    &&& n == expected_params(name, ty).len()
    &&& target_alias(name) is None
    &&& expected_output(name) matches Some(o) ==> o == ty
}

/// What the analysis of an expression reads and never changes: how aliases
/// resolve, how functions are found, whether it is inside the main function,
/// and the current file.
pub type Ctx = (spec_fn(Seq<u8>) -> AliasLookup, spec_fn(Seq<u8>) -> SignatureLookup, bool, usize);

/// The parameter types and the body type of a function.
pub type Signature = (Seq<TypeModel>, TypeModel);

/// What looking up a function finds, with the found function's signature.
pub enum SignatureLookup {
    Found(Signature),
    Undefined,
    MissingFile,
    Private,
}

/// The signature of a function.
pub open spec fn signature(f: CustomFunction) -> Signature {
    (param_types(f), f.body.ty@)
}

/// What a function lookup finds, with the signature of a found function.
pub open spec fn found_signature(found: FunctionLookup) -> SignatureLookup {
    match found {
        FunctionLookup::Found(f) => SignatureLookup::Found(signature(f)),
        FunctionLookup::Undefined => SignatureLookup::Undefined,
        FunctionLookup::MissingFile => SignatureLookup::MissingFile,
        FunctionLookup::Private => SignatureLookup::Private,
    }
}

/// The error of a function lookup that finds no usable function.
pub open spec fn function_error_model(name: Seq<u8>, found: SignatureLookup, file_id: usize) -> ErrorModel {
    match found {
        SignatureLookup::MissingFile => ErrorModel::Scope(ScopeErrorModel::Internal(file_id)),
        SignatureLookup::Private => ErrorModel::Scope(ScopeErrorModel::PrivateItem(name)),
        _ => ErrorModel::Scope(ScopeErrorModel::FunctionUndefined(name)),
    }
}

/// The error of resolving a type whose alias `a` fails in context `c`.
pub open spec fn alias_failure(a: Seq<u8>, c: Ctx) -> ErrorModel {
    ErrorModel::Scope(alias_error_model(a, (c.0)(a), c.3))
}

/// A signature that a fold can use: two parameters, the second of the body's type.
pub open spec fn foldable_signature(g: Signature) -> bool {
    g.0.len() == 2 && g.0[1] == g.1
}

/// The counter width of a signature that a loop can use, as [`loop_width`] says.
pub open spec fn signature_loop_width(g: Signature) -> Option<nat> {
    if g.0.len() != 3 {
        None
    } else {
        match g.1 {
            TypeModel::Either(_, out_r) => if *out_r != g.0[0] {
                None
            } else {
                match g.0[2] {
                    TypeModel::UInt(u) => if u == UIntType::U1 || u == UIntType::U2 || u == UIntType::U4 || u
                        == UIntType::U8 || u == UIntType::U16 {
                        Some(u.spec_bit_width())
                    } else {
                        None
                    },
                    _ => None,
                }
            },
            _ => None,
        }
    }
}

/// What the analysis of an expression changes: the variable scopes, the
/// declared witnesses and the declared parameters.
pub type AState = (Seq<Map<Seq<char>, TypeModel>>, Map<Seq<char>, TypeModel>, Map<Seq<char>, TypeModel>);

/// The context of a scope.
pub open spec fn ctx_of(s: Scope) -> Ctx {
    (s.lookup_fn(), |n: Seq<u8>| found_signature(s.function_lookup(n)), s.in_main(), s.spec_file_id())
}

/// The state of a scope.
pub open spec fn state_of(s: Scope) -> AState {
    (s.frames(), s.witness_map(), s.parameter_map())
}

/// The unit type.
pub open spec fn unit_model() -> TypeModel {
    TypeModel::Tuple(Seq::empty())
}

/// The state with a fresh innermost variable scope.
pub open spec fn pushed(st: AState) -> AState {
    (st.0.push(Map::empty()), st.1, st.2)
}

/// The state without its innermost variable scope.
pub open spec fn popped(st: AState) -> AState {
    (st.0.drop_last(), st.1, st.2)
}

/// The state in which `name` is bound to `t` in the innermost variable scope.
pub open spec fn bound(st: AState, name: Seq<char>, t: TypeModel) -> AState {
    (st.0.update(st.0.len() - 1, st.0.last().insert(name, t)), st.1, st.2)
}

/// The signature against which a call is checked: the leftmost user-defined
/// alias among a jet's argument types, the argument types, the leftmost
/// user-defined alias in a jet's output type, and the output type where the
/// called name fixes it.
pub type CallPlan = (Option<Seq<u8>>, Seq<TypeModel>, Option<Seq<u8>>, Option<TypeModel>);

/// The signature of a call of an analyzed name with output type `ty`.
pub open spec fn name_plan(name: CallName, ty: TypeModel) -> CallPlan {
    (source_alias(name), expected_params(name, ty), target_alias(name), expected_output(name))
}

/// The signature of a call with output type `ty`, or the error of analyzing
/// its name.
pub open spec fn call_plan(call: ParsedCall, ty: TypeModel, c: Ctx, jets: JetTable) -> Result<CallPlan, ErrorModel> {
    match call.name {
        ParsedCallName::Jet(n) => match jets.spec_find(n@) {
            Some(info) => if !info.disabled {
                Ok(
                    (
                        first_alias_of(AliasedType::models(info.source@)),
                        resolve_builtins_of(AliasedType::models(info.source@)),
                        first_alias(info.target@),
                        Some(resolve_builtins(info.target@)),
                    ),
                )
            } else {
                Err(ErrorModel::JetDoesNotExist(n@))
            },
            None => Err(ErrorModel::JetDoesNotExist(n@)),
        },
        ParsedCallName::UnwrapLeft(t) => match failing_alias(t@, c.0) {
            Some(a) => Err(alias_failure(a, c)),
            None => Ok((None, seq![TypeModel::Either(Box::new(ty), Box::new(resolve_aliases(t@, c.0)))], None, None)),
        },
        ParsedCallName::UnwrapRight(t) => match failing_alias(t@, c.0) {
            Some(a) => Err(alias_failure(a, c)),
            None => Ok((None, seq![TypeModel::Either(Box::new(resolve_aliases(t@, c.0)), Box::new(ty))], None, None)),
        },
        ParsedCallName::IsNone(t) => match failing_alias(t@, c.0) {
            Some(a) => Err(alias_failure(a, c)),
            None => Ok(
                (None, seq![TypeModel::Option(Box::new(resolve_aliases(t@, c.0)))], None, Some(TypeModel::Boolean)),
            ),
        },
        ParsedCallName::Unwrap => Ok((None, seq![TypeModel::Option(Box::new(ty))], None, None)),
        ParsedCallName::Assert => Ok((None, seq![TypeModel::Boolean], None, Some(unit_model()))),
        ParsedCallName::Panic => Ok((None, Seq::empty(), None, None)),
        ParsedCallName::Debug => Ok((None, seq![ty], None, None)),
        ParsedCallName::Custom(n) => match (c.1)(n@) {
            SignatureLookup::Found(g) => Ok((None, g.0, None, Some(g.1))),
            other => Err(function_error_model(n@, other, c.3)),
        },
        ParsedCallName::Fold(n, bound) => match (c.1)(n@) {
            SignatureLookup::Found(g) => if foldable_signature(g) {
                Ok((None, seq![TypeModel::List(Box::new(g.0[0]), bound as nat), g.0[1]], None, Some(g.1)))
            } else {
                Err(ErrorModel::FunctionNotFoldable(n@))
            },
            other => Err(function_error_model(n@, other, c.3)),
        },
        ParsedCallName::ArrayFold(n, size) => match (c.1)(n@) {
            SignatureLookup::Found(g) => if foldable_signature(g) {
                Ok((None, seq![TypeModel::Array(Box::new(g.0[0]), size as nat), g.0[1]], None, Some(g.1)))
            } else {
                Err(ErrorModel::FunctionNotFoldable(n@))
            },
            other => Err(function_error_model(n@, other, c.3)),
        },
        ParsedCallName::ForWhile(n) => match (c.1)(n@) {
            SignatureLookup::Found(g) => if signature_loop_width(g) is Some {
                Ok((None, seq![g.0[0], g.0[1]], None, Some(g.1)))
            } else {
                Err(ErrorModel::FunctionNotLoopable(n@))
            },
            other => Err(function_error_model(n@, other, c.3)),
        },
    }
}

/// The state after analyzing `from` with expected type `ty` in context `c`
/// from state `st`, or the error that the analysis reports.
pub open spec fn expr_typing(from: ParsedExpression, ty: TypeModel, c: Ctx, jets: JetTable, st: AState) -> Result<
    AState,
    ErrorModel,
>
    decreases from, 3nat,
{
    match from {
        ParsedExpression::Boolean(_) => if ty == TypeModel::Boolean {
            Ok(st)
        } else {
            Err(ErrorModel::ExpressionTypeMismatch(ty, TypeModel::Boolean))
        },
        ParsedExpression::Witness(n) => match declare_witness(c.2, st.1, n@, ty) {
            Some(m) => Ok((st.0, m, st.2)),
            None => if !c.2 {
                Err(ErrorModel::Scope(ScopeErrorModel::WitnessOutsideMain))
            } else {
                Err(ErrorModel::Scope(ScopeErrorModel::WitnessReused(n@)))
            },
        },
        ParsedExpression::Parameter(n) => match declare_parameter(st.2, n@, ty) {
            Some(m) => Ok((st.0, st.1, m)),
            None => Err(ErrorModel::Scope(ScopeErrorModel::ExpressionTypeMismatch(st.2[n@], ty))),
        },
        ParsedExpression::Variable(x) => match lookup(st.0, x@) {
            Some(t) => if t == ty {
                Ok(bound(st, x@, ty))
            } else {
                Err(ErrorModel::ExpressionTypeMismatch(ty, t))
            },
            None => Err(ErrorModel::UndefinedVariable(x@)),
        },
        ParsedExpression::Parenthesized(x) => expr_typing(*x, ty, c, jets, st),
        ParsedExpression::Tuple(es) => match ty {
            TypeModel::Tuple(ts) => if es@.len() == ts.len() {
                seq_typing(es@, ts, c, jets, st)
            } else {
                Err(ErrorModel::ExpressionUnexpectedType(ty))
            },
            _ => Err(ErrorModel::ExpressionUnexpectedType(ty)),
        },
        ParsedExpression::Array(es) => match ty {
            TypeModel::Array(el, n) => if es@.len() == n {
                seq_typing(es@, Seq::new(n, |i: int| *el), c, jets, st)
            } else {
                Err(ErrorModel::ExpressionUnexpectedType(ty))
            },
            _ => Err(ErrorModel::ExpressionUnexpectedType(ty)),
        },
        ParsedExpression::List(es) => match ty {
            TypeModel::List(el, b) => if es@.len() < b {
                seq_typing(es@, Seq::new(es@.len(), |i: int| *el), c, jets, st)
            } else {
                Err(ErrorModel::ExpressionUnexpectedType(ty))
            },
            _ => Err(ErrorModel::ExpressionUnexpectedType(ty)),
        },
        ParsedExpression::Left(x) => match ty {
            TypeModel::Either(l, _) => expr_typing(*x, *l, c, jets, st),
            _ => Err(ErrorModel::ExpressionUnexpectedType(ty)),
        },
        ParsedExpression::Right(x) => match ty {
            TypeModel::Either(_, r) => expr_typing(*x, *r, c, jets, st),
            _ => Err(ErrorModel::ExpressionUnexpectedType(ty)),
        },
        ParsedExpression::Optional(o) => match ty {
            TypeModel::Option(t) => match o {
                Some(x) => expr_typing(*x, *t, c, jets, st),
                None => Ok(st),
            },
            _ => Err(ErrorModel::ExpressionUnexpectedType(ty)),
        },
        ParsedExpression::Call(call) => call_typing(call, ty, c, jets, st),
        ParsedExpression::Match(m) => match failing_alias(m.scrutinee_type@, c.0) {
            Some(a) => Err(alias_failure(a, c)),
            None => match expr_typing(*m.scrutinee, resolve_aliases(m.scrutinee_type@, c.0), c, jets, st) {
                Ok(s1) => match arm_typing(m.left, ty, c, jets, s1) {
                    Ok(s2) => arm_typing(m.right, ty, c, jets, s2),
                    Err(e) => Err(e),
                },
                Err(e) => Err(e),
            },
        },
        ParsedExpression::Block(stmts, last) => match stmts_typing(stmts@, c, jets, pushed(st)) {
            Ok(s1) => match last {
                Some(x) => match expr_typing(*x, ty, c, jets, s1) {
                    Ok(s2) => Ok(popped(s2)),
                    Err(e) => Err(e),
                },
                None => if ty == unit_model() {
                    Ok(popped(s1))
                } else {
                    Err(ErrorModel::ExpressionTypeMismatch(ty, unit_model()))
                },
            },
            Err(e) => Err(e),
        },
    }
}

/// The state after analyzing the expressions one after the other, each with
/// its type, or the error of the first that fails.
pub open spec fn seq_typing(es: Seq<ParsedExpression>, tys: Seq<TypeModel>, c: Ctx, jets: JetTable, st: AState) -> Result<
    AState,
    ErrorModel,
>
    decreases es, 0nat,
{
    if es.len() == 0 {
        Ok(st)
    } else {
        match seq_typing(es.drop_last(), tys.drop_last(), c, jets, st) {
            Ok(s1) => expr_typing(es.last(), tys.last(), c, jets, s1),
            Err(e) => Err(e),
        }
    }
}

/// The state after checking a call's arguments against a signature, or the
/// error: an unresolved argument type, the wrong number of arguments, an
/// unresolved output type, the wrong output type, then the error of the
/// first argument that fails.
pub open spec fn plan_typing(
    plan: CallPlan,
    args: Seq<ParsedExpression>,
    ty: TypeModel,
    c: Ctx,
    jets: JetTable,
    st: AState,
) -> Result<AState, ErrorModel>
    decreases args, 1nat,
{
    match plan.0 {
        Some(a) => Err(ErrorModel::Scope(ScopeErrorModel::UndefinedAlias(a))),
        None => if args.len() != plan.1.len() {
            Err(ErrorModel::InvalidNumberOfArguments(plan.1.len(), args.len()))
        } else {
            match plan.2 {
                Some(a) => Err(ErrorModel::Scope(ScopeErrorModel::UndefinedAlias(a))),
                None => match plan.3 {
                    Some(o) => if o != ty {
                        Err(ErrorModel::ExpressionTypeMismatch(ty, o))
                    } else {
                        seq_typing(args, plan.1, c, jets, st)
                    },
                    None => seq_typing(args, plan.1, c, jets, st),
                },
            }
        },
    }
}

/// The state after analyzing a call with output type `ty`, or the error that
/// the analysis reports.
pub open spec fn call_typing(call: ParsedCall, ty: TypeModel, c: Ctx, jets: JetTable, st: AState) -> Result<AState, ErrorModel>
    decreases call, 2nat,
{
    match call_plan(call, ty, c, jets) {
        Ok(plan) => plan_typing(plan, call.args@, ty, c, jets, st),
        Err(e) => Err(e),
    }
}

/// The state after analyzing a statement, or the error that the analysis
/// reports.
pub open spec fn stmt_typing(s: ParsedStatement, c: Ctx, jets: JetTable, st: AState) -> Result<AState, ErrorModel>
    decreases s, 2nat,
{
    match s {
        ParsedStatement::Assignment(id, aty, expr) => match failing_alias(aty@, c.0) {
            Some(a) => Err(alias_failure(a, c)),
            None => match expr_typing(expr, resolve_aliases(aty@, c.0), c, jets, st) {
                Ok(s1) => Ok(bound(s1, id@, resolve_aliases(aty@, c.0))),
                Err(e) => Err(e),
            },
        },
        ParsedStatement::Expression(expr) => expr_typing(expr, unit_model(), c, jets, st),
    }
}

/// The state after analyzing the statements one after the other, or the
/// error of the first that fails.
pub open spec fn stmts_typing(ss: Seq<ParsedStatement>, c: Ctx, jets: JetTable, st: AState) -> Result<AState, ErrorModel>
    decreases ss, 0nat,
{
    if ss.len() == 0 {
        Ok(st)
    } else {
        match stmts_typing(ss.drop_last(), c, jets, st) {
            Ok(s1) => stmt_typing(ss.last(), c, jets, s1),
            Err(e) => Err(e),
        }
    }
}

/// The state after analyzing a match arm with expected type `ty`, or the
/// error that the analysis reports.
pub open spec fn arm_typing(a: ParsedMatchArm, ty: TypeModel, c: Ctx, jets: JetTable, st: AState) -> Result<AState, ErrorModel>
    decreases a, 4nat,
{
    match a.binding {
        None => match expr_typing(*a.expression, ty, c, jets, pushed(st)) {
            Ok(s1) => Ok(popped(s1)),
            Err(e) => Err(e),
        },
        Some(b) => match failing_alias(b.1@, c.0) {
            Some(x) => Err(alias_failure(x, c)),
            None => match expr_typing(*a.expression, ty, c, jets, bound(pushed(st), b.0@, resolve_aliases(b.1@, c.0))) {
                Ok(s1) => Ok(popped(s1)),
                Err(e) => Err(e),
            },
        },
    }
}

/// The expression analyzes with type `ty` in the scope.
pub open spec fn typable(from: ParsedExpression, ty: TypeModel, scope: Scope, jets: JetTable) -> bool {
    expr_typing(from, ty, ctx_of(scope), jets, state_of(scope)) is Ok
}

/// The analysis ends as the typing says: with the state it gives, or with
/// the error it gives.
pub open spec fn typing_outcome<T>(r: Result<T, AnalysisError>, t: Result<AState, ErrorModel>, after: Scope) -> bool {
    match r {
        Ok(_) => t == Ok::<AState, ErrorModel>(state_of(after)),
        Err(e) => t == Err::<AState, ErrorModel>(e@),
    }
}

/// A called name as the analysis makes it from the parsed one: the same
/// kind, the jet that the jet parser gives for the name, the same function
/// name and bound.
pub open spec fn call_name_as(p: ParsedCallName, c: CallName, jets: JetTable) -> bool {
    match p {
        ParsedCallName::Jet(n) => c matches CallName::Jet(j, _, _) && jets.spec_find(n@) matches Some(info) && j
            == info.jet,
        ParsedCallName::UnwrapLeft(_) => c is UnwrapLeft,
        ParsedCallName::UnwrapRight(_) => c is UnwrapRight,
        ParsedCallName::IsNone(_) => c is IsNone,
        ParsedCallName::Unwrap => c is Unwrap,
        ParsedCallName::Assert => c is Assert,
        ParsedCallName::Panic => c is Panic,
        ParsedCallName::Debug => c is Debug,
        ParsedCallName::Custom(n) => c matches CallName::Custom(m, _, _) && m@ == n@,
        ParsedCallName::Fold(n, b) => c matches CallName::Fold(m, _, _, k) && m@ == n@ && k == b,
        ParsedCallName::ArrayFold(n, b) => c matches CallName::ArrayFold(m, _, _, k) && m@ == n@ && k == b,
        ParsedCallName::ForWhile(n) => c matches CallName::ForWhile(m, _, _, _) && m@ == n@,
    }
}

/// The analyzed expression is the parsed one with types: the same tree, the
/// same constants and names, each part analyzed from the parsed part at the
/// same place.
pub open spec fn analyzed_as(from: ParsedExpression, e: Expression, jets: JetTable) -> bool
    decreases from, 3nat,
{
    match from {
        ParsedExpression::Boolean(b) => e.inner matches ExpressionInner::Constant(v) && v@.bits == seq![b] && v@.ty
            == TypeModel::Boolean,
        ParsedExpression::Witness(n) => e.inner matches ExpressionInner::Witness(m) && m@ == n@,
        ParsedExpression::Parameter(n) => e.inner matches ExpressionInner::Parameter(m) && m@ == n@,
        ParsedExpression::Variable(x) => e.inner matches ExpressionInner::Variable(y) && y@ == x@,
        ParsedExpression::Parenthesized(x) => e.inner matches ExpressionInner::Parenthesized(y) && analyzed_as(
            *x,
            *y,
            jets,
        ),
        ParsedExpression::Tuple(ps) => e.inner matches ExpressionInner::Tuple(es) && all_analyzed_as(ps@, es@, jets),
        ParsedExpression::Array(ps) => e.inner matches ExpressionInner::Array(es) && all_analyzed_as(ps@, es@, jets),
        ParsedExpression::List(ps) => e.inner matches ExpressionInner::List(es) && all_analyzed_as(ps@, es@, jets),
        ParsedExpression::Left(x) => e.inner matches ExpressionInner::Left(y) && analyzed_as(*x, *y, jets),
        ParsedExpression::Right(x) => e.inner matches ExpressionInner::Right(y) && analyzed_as(*x, *y, jets),
        ParsedExpression::Optional(o) => e.inner matches ExpressionInner::Optional(q) && match o {
            None => q is None,
            Some(x) => q matches Some(y) && analyzed_as(*x, *y, jets),
        },
        ParsedExpression::Call(c) => e.inner matches ExpressionInner::Call(d) && call_name_as(c.name, d.name, jets)
            && all_analyzed_as(c.args@, d.args@, jets),
        ParsedExpression::Match(m) => e.inner matches ExpressionInner::Match(n) && analyzed_as(
            *m.scrutinee,
            n.scrutinee,
            jets,
        ) && arm_analyzed_as(m.left, n.left, jets) && arm_analyzed_as(m.right, n.right, jets),
        ParsedExpression::Block(ss, last) => e.inner matches ExpressionInner::Block(ts, l) && stmts_analyzed_as(
            ss@,
            ts@,
            jets,
        ) && match last {
            None => l is None,
            Some(x) => l matches Some(y) && analyzed_as(*x, *y, jets),
        },
    }
}

/// Each analyzed expression is analyzed from the parsed one at its place.
pub open spec fn all_analyzed_as(ps: Seq<ParsedExpression>, es: Seq<Expression>, jets: JetTable) -> bool
    decreases ps, 0nat,
{
    &&& ps.len() == es.len()
    &&& ps.len() > 0 ==> all_analyzed_as(ps.drop_last(), es.drop_last(), jets) && analyzed_as(ps.last(), es.last(), jets)
}

/// The analyzed statement is the parsed one with types.
pub open spec fn stmt_analyzed_as(p: ParsedStatement, t: Statement, jets: JetTable) -> bool
    decreases p, 2nat,
{
    match p {
        ParsedStatement::Assignment(id, _, x) => t matches Statement::Assignment(j, y) && j@ == id@ && analyzed_as(
            x,
            y,
            jets,
        ),
        ParsedStatement::Expression(x) => t matches Statement::Expression(y) && analyzed_as(x, y, jets),
    }
}

/// Each analyzed statement is analyzed from the parsed one at its place.
pub open spec fn stmts_analyzed_as(ps: Seq<ParsedStatement>, ts: Seq<Statement>, jets: JetTable) -> bool
    decreases ps, 0nat,
{
    &&& ps.len() == ts.len()
    &&& ps.len() > 0 ==> stmts_analyzed_as(ps.drop_last(), ts.drop_last(), jets) && stmt_analyzed_as(
        ps.last(),
        ts.last(),
        jets,
    )
}

/// The analyzed arm is the parsed one with types: it binds the same
/// variable, and its expression is analyzed from the parsed one.
pub open spec fn arm_analyzed_as(a: ParsedMatchArm, b: MatchArm, jets: JetTable) -> bool
    decreases a, 4nat,
{
    &&& match a.binding {
        None => b.binding is None,
        Some(p) => b.binding matches Some(i) && i@ == p.0@,
    }
    &&& analyzed_as(*a.expression, b.expression, jets)
}

/// Each analyzed expression is analyzed from the parsed one at the same index.
pub proof fn lemma_all_analyzed_as_index(ps: Seq<ParsedExpression>, es: Seq<Expression>, jets: JetTable)
    requires
        all_analyzed_as(ps, es, jets),
    ensures
        ps.len() == es.len(),
        forall|i: int| 0 <= i < ps.len() ==> #[trigger] analyzed_as(ps[i], es[i], jets),
    decreases ps.len(),
{
    if ps.len() > 0 {
        lemma_all_analyzed_as_index(ps.drop_last(), es.drop_last(), jets);
        assert forall|i: int| 0 <= i < ps.len() implies #[trigger] analyzed_as(ps[i], es[i], jets) by {
            if i < ps.len() - 1 {
                assert(ps.drop_last()[i] == ps[i]);
                assert(es.drop_last()[i] == es[i]);
            }
        }
    }
}

proof fn lemma_ctx_steady(a: Scope, b: Scope)
    requires
        scope_steady(a, b),
    ensures
        ctx_of(a) == ctx_of(b),
{
    assert(a.lookup_fn() =~= b.lookup_fn());
    assert((|n: Seq<u8>| found_signature(a.function_lookup(n))) =~= (|n: Seq<u8>| found_signature(b.function_lookup(n))));
}

proof fn lemma_seq_typing_prefix(
    es: Seq<ParsedExpression>,
    tys: Seq<TypeModel>,
    k: int,
    c: Ctx,
    jets: JetTable,
    st: AState,
    e: ErrorModel,
)
    requires
        0 <= k <= es.len(),
        es.len() == tys.len(),
        seq_typing(es.take(k), tys.take(k), c, jets, st) == Err::<AState, ErrorModel>(e),
    ensures
        seq_typing(es, tys, c, jets, st) == Err::<AState, ErrorModel>(e),
    decreases es.len(),
{
    if es.len() == k {
        assert(es.take(k) =~= es);
        assert(tys.take(k) =~= tys);
    } else {
        assert(es.drop_last().take(k) =~= es.take(k));
        assert(tys.drop_last().take(k) =~= tys.take(k));
        lemma_seq_typing_prefix(es.drop_last(), tys.drop_last(), k, c, jets, st, e);
    }
}

proof fn lemma_stmts_typing_prefix(ss: Seq<ParsedStatement>, k: int, c: Ctx, jets: JetTable, st: AState, e: ErrorModel)
    requires
        0 <= k <= ss.len(),
        stmts_typing(ss.take(k), c, jets, st) == Err::<AState, ErrorModel>(e),
    ensures
        stmts_typing(ss, c, jets, st) == Err::<AState, ErrorModel>(e),
    decreases ss.len(),
{
    if ss.len() == k {
        assert(ss.take(k) =~= ss);
    } else {
        assert(ss.drop_last().take(k) =~= ss.take(k));
        lemma_stmts_typing_prefix(ss.drop_last(), k, c, jets, st, e);
    }
}

/// The variable scopes after analyzing an expression: the same number of
/// scopes, the outer ones unchanged, and every name of the same type.
pub open spec fn frames_kept(before: Seq<Map<Seq<char>, TypeModel>>, after: Seq<Map<Seq<char>, TypeModel>>) -> bool {
    &&& after.len() == before.len()
    &&& forall|i: int| 0 <= i < before.len() - 1 ==> #[trigger] after[i] == before[i]
    &&& forall|n: Seq<char>| #[trigger] lookup(after, n) == lookup(before, n)
}

/// The variable scopes after analyzing a statement: the same number of
/// scopes and the outer ones unchanged; the innermost may gain bindings.
pub open spec fn outer_frames_kept(before: Seq<Map<Seq<char>, TypeModel>>, after: Seq<Map<Seq<char>, TypeModel>>) -> bool {
    &&& after.len() == before.len()
    &&& forall|i: int| 0 <= i < before.len() - 1 ==> #[trigger] after[i] == before[i]
}

/// What analysis never changes in a scope: the aliases, the functions, the
/// current file and whether it is inside the main function.
pub open spec fn scope_steady(before: Scope, after: Scope) -> bool {
    &&& after.alias_state() == before.alias_state()
    &&& after.function_state() == before.function_state()
    &&& after.in_main() == before.in_main()
    &&& after.spec_file_id() == before.spec_file_id()
}

/// The type of an analyzed expression fits the types of its parts.
pub open spec fn node_typed(e: Expression) -> bool {
    match e.inner {
        ExpressionInner::Constant(v) => v@.ty == e.ty@,
        ExpressionInner::Witness(_) => true,
        ExpressionInner::Parameter(_) => true,
        ExpressionInner::Variable(_) => true,
        ExpressionInner::Parenthesized(x) => x.ty@ == e.ty@,
        ExpressionInner::Tuple(es) => e.ty@ == TypeModel::Tuple(es@.map_values(|x: Expression| x.ty@)),
        ExpressionInner::Array(es) => e.ty@ matches TypeModel::Array(el, n) && n == es@.len() && forall|i: int|
            0 <= i < es@.len() ==> (#[trigger] es@[i]).ty@ == *el,
        ExpressionInner::List(es) => e.ty@ matches TypeModel::List(el, b) && es@.len() < b && forall|i: int|
            0 <= i < es@.len() ==> (#[trigger] es@[i]).ty@ == *el,
        ExpressionInner::Left(x) => e.ty@ matches TypeModel::Either(l, _) && x.ty@ == *l,
        ExpressionInner::Right(x) => e.ty@ matches TypeModel::Either(_, r) && x.ty@ == *r,
        ExpressionInner::Optional(o) => e.ty@ matches TypeModel::Option(t) && (o matches Some(x) ==> x.ty@ == *t),
        ExpressionInner::Call(c) => {
            &&& c.args@.len() == expected_params(c.name, e.ty@).len()
            &&& forall|i: int| 0 <= i < c.args@.len() ==> (#[trigger] c.args@[i]).ty@ == expected_params(c.name, e.ty@)[i]
            &&& expected_output(c.name) matches Some(o) ==> o == e.ty@
        },
        ExpressionInner::Match(m) => m.left.expression.ty@ == e.ty@ && m.right.expression.ty@ == e.ty@,
        ExpressionInner::Block(stmts, last) => {
            &&& match last {
                Some(x) => x.ty@ == e.ty@,
                None => e.ty@ == TypeModel::Tuple(Seq::empty()),
            }
            &&& forall|i: int| 0 <= i < stmts@.len() ==> (#[trigger] stmts@[i] matches Statement::Expression(x) ==> x.ty@
                == TypeModel::Tuple(Seq::empty()))
        },
    }
}

/// The expected type does not have the form that the parsed expression needs.
pub open spec fn shape_refused(from: ParsedExpression, ty: TypeModel) -> bool {
    match from {
        ParsedExpression::Tuple(ps) => !(ty matches TypeModel::Tuple(ts) && ts.len() == ps@.len()),
        ParsedExpression::Array(ps) => !(ty matches TypeModel::Array(_, n) && n == ps@.len()),
        ParsedExpression::List(ps) => !(ty matches TypeModel::List(_, b) && ps@.len() < b),
        ParsedExpression::Left(_) => !(ty is Either),
        ParsedExpression::Right(_) => !(ty is Either),
        ParsedExpression::Optional(_) => !(ty is Option),
        _ => false,
    }
}

/// The outcome of analyzing a leaf of the parse tree: a boolean constant, a
/// witness, a parameter or a variable.
pub open spec fn leaf_outcome(
    from: ParsedExpression,
    ty: TypeModel,
    before: Scope,
    after: Scope,
    r: Result<Expression, AnalysisError>,
) -> bool {
    match from {
        ParsedExpression::Boolean(_) => if ty == TypeModel::Boolean {
            r is Ok
        } else {
            r matches Err(AnalysisError::ExpressionTypeMismatch(e, g)) && e@ == ty && g@ == TypeModel::Boolean
        },
        ParsedExpression::Witness(n) => match declare_witness(before.in_main(), before.witness_map(), n@, ty) {
            Some(m) => r is Ok && after.witness_map() == m && after.parameter_map() == before.parameter_map(),
            None => r is Err,
        },
        ParsedExpression::Parameter(n) => match declare_parameter(before.parameter_map(), n@, ty) {
            Some(m) => r is Ok && after.parameter_map() == m && after.witness_map() == before.witness_map(),
            None => r is Err,
        },
        ParsedExpression::Variable(x) => match lookup(before.frames(), x@) {
            None => r matches Err(AnalysisError::UndefinedVariable(y)) && y@ == x@,
            Some(t) => if t == ty {
                r is Ok
            } else {
                r matches Err(AnalysisError::ExpressionTypeMismatch(e, g)) && e@ == ty && g@ == t
            },
        },
        _ => true,
    }
}

proof fn lemma_frames_kept_trans(
    a: Seq<Map<Seq<char>, TypeModel>>,
    b: Seq<Map<Seq<char>, TypeModel>>,
    c: Seq<Map<Seq<char>, TypeModel>>,
)
    requires
        frames_kept(a, b),
        frames_kept(b, c),
    ensures
        frames_kept(a, c),
{
    assert forall|i: int| 0 <= i < a.len() - 1 implies #[trigger] c[i] == a[i] by {
        assert(b[i] == a[i]);
    }
    assert forall|n: Seq<char>| #[trigger] lookup(c, n) == lookup(a, n) by {
        assert(lookup(b, n) == lookup(a, n));
    }
}

proof fn lemma_lookup_nonempty(frames: Seq<Map<Seq<char>, TypeModel>>, n: Seq<char>)
    requires
        lookup(frames, n) is Some,
    ensures
        frames.len() > 0,
{
}

proof fn lemma_rebind_kept(frames: Seq<Map<Seq<char>, TypeModel>>, n: Seq<char>, t: TypeModel)
    requires
        frames.len() > 0,
        lookup(frames, n) == Some(t),
    ensures
        frames_kept(frames, frames.update(frames.len() - 1, frames.last().insert(n, t))),
{
    let g = frames.update(frames.len() - 1, frames.last().insert(n, t));
    assert forall|m: Seq<char>| #[trigger] lookup(g, m) == lookup(frames, m) by {
        if m != n {
            law_binding_leaves_others(frames, n, t, m);
        } else {
            assert(g.last().contains_key(n));
        }
    }
}

/// The unit type.
fn unit_type() -> (r: ResolvedType)
    ensures
        r@ == TypeModel::Tuple(Seq::empty()),
{
    let r = ResolvedType::Tuple(Vec::new());
    assert(ResolvedType::models(Seq::<ResolvedType>::empty()) =~= Seq::<TypeModel>::empty());
    r
}

/// The argument types of a call of `name` with output type `ty`.
fn call_params(name: &CallName, ty: &ResolvedType) -> (r: Vec<ResolvedType>)
    requires
        call_name_wf(*name),
        !(*name is Jet),
    ensures
        ResolvedType::models(r@) == expected_params(*name, ty@),
{
    let mut r: Vec<ResolvedType> = Vec::new();
    match name {
        CallName::Jet(..) => {},
        CallName::UnwrapLeft(t) => r.push(ResolvedType::Either(Box::new(ty.copy()), Box::new(t.copy()))),
        CallName::UnwrapRight(t) => r.push(ResolvedType::Either(Box::new(t.copy()), Box::new(ty.copy()))),
        CallName::IsNone(t) => r.push(ResolvedType::Option(Box::new(t.copy()))),
        CallName::Unwrap => r.push(ResolvedType::Option(Box::new(ty.copy()))),
        CallName::Assert => r.push(ResolvedType::Boolean),
        CallName::Panic => {},
        CallName::Debug => r.push(ty.copy()),
        CallName::Custom(_, ps, _) => {
            let c = copy_types(ps);
            return c;
        },
        CallName::Fold(_, ps, _, bound) => {
            r.push(ResolvedType::List(Box::new(ps[0].copy()), *bound));
            r.push(ps[1].copy());
        },
        CallName::ArrayFold(_, ps, _, size) => {
            r.push(ResolvedType::Array(Box::new(ps[0].copy()), *size));
            r.push(ps[1].copy());
        },
        CallName::ForWhile(_, ps, _, _) => {
            r.push(ps[0].copy());
            r.push(ps[1].copy());
        },
    }
    proof {
        ResolvedType::lemma_models(r@);
        assert(ResolvedType::models(r@) =~= expected_params(*name, ty@));
    }
    r
}

/// Copies of the types.
fn copy_types(ps: &Vec<ResolvedType>) -> (r: Vec<ResolvedType>)
    ensures
        ResolvedType::models(r@) == ResolvedType::models(ps@),
{
    proof {
        ResolvedType::lemma_models(ps@);
    }
    let mut out: Vec<ResolvedType> = Vec::new();
    let mut i: usize = 0;
    while i < ps.len()
        invariant
            i <= ps.len(),
            ResolvedType::models(ps@).len() == ps.len(),
            forall|j: int| 0 <= j < ps.len() ==> #[trigger] ResolvedType::models(ps@)[j] == ps@[j]@,
            ResolvedType::models(out@) == ResolvedType::models(ps@).take(i as int),
        decreases ps.len() - i,
    {
        let t = ps[i].copy();
        let ghost v0 = out@;
        out.push(t);
        proof {
            assert(out@.drop_last() =~= v0);
            assert(ResolvedType::models(out@) =~= ResolvedType::models(ps@).take(i + 1));
        }
        i = i + 1;
    }
    proof {
        assert(ResolvedType::models(ps@).take(ps.len() as int) =~= ResolvedType::models(ps@));
    }
    out
}

/// The output type of a call of `name`, where it is fixed.
fn call_output(name: &CallName) -> (r: Option<ResolvedType>)
    requires
        !(*name is Jet),
    ensures
        r matches Some(o) ==> expected_output(*name) == Some(o@),
        r is None ==> expected_output(*name) is None,
{
    match name {
        CallName::IsNone(_) => Some(ResolvedType::Boolean),
        CallName::Assert => Some(unit_type()),
        CallName::Custom(_, _, b) => Some(b.copy()),
        CallName::Fold(_, _, b, _) => Some(b.copy()),
        CallName::ArrayFold(_, _, b, _) => Some(b.copy()),
        CallName::ForWhile(_, _, b, _) => Some(b.copy()),
        _ => None,
    }
}

/// Analyze a sequence of expressions, each with its type, one after the other.
fn analyze_sequence(
    from: &Vec<ParsedExpression>,
    tys: &Vec<ResolvedType>,
    scope: &mut Scope,
    jets: &JetTable,
) -> (r: Result<Vec<Expression>, AnalysisError>)
    requires
        old(scope).wf(),
        from.len() == tys.len(),
    ensures
        r matches Err(e) ==> item_error(e),
        final(scope).wf(),
        scope_steady(*old(scope), *final(scope)),
        r matches Ok(v) ==> {
            &&& v@.len() == from@.len()
            &&& forall|i: int| 0 <= i < v@.len() ==> (#[trigger] v@[i]).ty@ == tys@[i]@
            &&& frames_kept(old(scope).frames(), final(scope).frames())
        },
        typing_outcome(
            r,
            seq_typing(from@, ResolvedType::models(tys@), ctx_of(*old(scope)), *jets, state_of(*old(scope))),
            *final(scope),
        ),
        r matches Ok(v) ==> all_analyzed_as(from@, v@, *jets),
    decreases from, 0nat,
{
    let ghost c0 = ctx_of(*scope);
    let ghost st0 = state_of(*scope);
    let ghost ms = ResolvedType::models(tys@);
    proof {
        ResolvedType::lemma_models(tys@);
        assert(from@.take(0) =~= Seq::<ParsedExpression>::empty());
        assert(all_analyzed_as(from@.take(0), Seq::<Expression>::empty(), *jets));
        assert(ms.take(0) =~= Seq::<TypeModel>::empty());
    }
    let mut out: Vec<Expression> = Vec::new();
    let mut i: usize = 0;
    while i < from.len()
        invariant
            i <= from.len(),
            from.len() == tys.len(),
            ms == ResolvedType::models(tys@),
            ms.len() == tys.len(),
            forall|j: int| 0 <= j < tys.len() ==> #[trigger] ms[j] == tys@[j]@,
            scope.wf(),
            scope_steady(*old(scope), *scope),
            c0 == ctx_of(*old(scope)),
            st0 == state_of(*old(scope)),
            ctx_of(*scope) == c0,
            seq_typing(from@.take(i as int), ms.take(i as int), c0, *jets, st0) == Ok::<AState, ErrorModel>(
                state_of(*scope),
            ),
            all_analyzed_as(from@.take(i as int), out@, *jets),
            out@.len() == i,
            forall|j: int| 0 <= j < i ==> (#[trigger] out@[j]).ty@ == tys@[j]@,
            frames_kept(old(scope).frames(), scope.frames()),
        decreases from.len() - i,
    {
        proof {
            assert(decreases_to!(*from => from@));
            assert(decreases_to!(from@ => from@[i as int]));
            assert(from@.take(i + 1).drop_last() =~= from@.take(i as int));
            assert(ms.take(i + 1).drop_last() =~= ms.take(i as int));
            assert(from@.take(i + 1).last() == from@[i as int]);
            assert(ms.take(i + 1).last() == tys@[i as int]@);
        }
        let ghost before = scope.frames();
        let ghost sb = *scope;
        let e = match analyze_expression(&from[i], &tys[i], scope, jets) {
            Ok(e) => e,
            Err(err) => {
                proof {
                    lemma_seq_typing_prefix(from@, ms, i + 1, c0, *jets, st0, err@);
                }
                return Err(err);
            },
        };
        proof {
            lemma_frames_kept_trans(old(scope).frames(), before, scope.frames());
            lemma_ctx_steady(sb, *scope);
        }
        let ghost o0 = out@;
        out.push(e);
        proof {
            assert(out@.drop_last() =~= o0);
        }
        i = i + 1;
    }
    proof {
        assert(from@.take(from.len() as int) =~= from@);
        assert(ms.take(from.len() as int) =~= ms);
    }
    Ok(out)
}

/// Analyze a call with its analyzed name, expecting output type `ty`.
///
/// The argument types of a jet are resolved first, then the number of
/// arguments is checked, then the output type is resolved and checked where
/// the name fixes it, then each argument is analyzed against its expected type.
pub fn analyze_call(
    from: &ParsedCall,
    name: CallName,
    ty: &ResolvedType,
    scope: &mut Scope,
    jets: &JetTable,
) -> (r: Result<Call, AnalysisError>)
    requires
        old(scope).wf(),
        call_name_wf(name),
    ensures
        r matches Err(e) ==> item_error(e),
        final(scope).wf(),
        scope_steady(*old(scope), *final(scope)),
        source_alias(name) matches Some(a) ==> {
            &&& r matches Err(AnalysisError::Scope(ScopeError::UndefinedAlias(n))) && n@ == a
            &&& *final(scope) == *old(scope)
        },
        source_alias(name) is None && from.args@.len() != expected_params(name, ty@).len() ==> {
            &&& r == Err::<Call, AnalysisError>(
                AnalysisError::InvalidNumberOfArguments(
                    expected_params(name, ty@).len() as usize,
                    from.args@.len() as usize,
                ),
            )
            &&& *final(scope) == *old(scope)
        },
        source_alias(name) is None && from.args@.len() == expected_params(name, ty@).len() ==> match target_alias(name) {
            Some(a) => {
                &&& r matches Err(AnalysisError::Scope(ScopeError::UndefinedAlias(n))) && n@ == a
                &&& *final(scope) == *old(scope)
            },
            None => match expected_output(name) {
                Some(o) => o != ty@ ==> {
                    &&& r matches Err(AnalysisError::ExpressionTypeMismatch(e, g)) && e@ == ty@ && g@ == o
                    &&& *final(scope) == *old(scope)
                },
                None => true,
            },
        },
        r matches Ok(c) ==> {
            &&& c.name == name
            &&& call_fits(name, from.args@.len(), ty@)
            &&& c.args@.len() == expected_params(name, ty@).len()
            &&& forall|i: int| 0 <= i < c.args@.len() ==> (#[trigger] c.args@[i]).ty@ == expected_params(name, ty@)[i]
            &&& frames_kept(old(scope).frames(), final(scope).frames())
        },
        typing_outcome(
            r,
            plan_typing(name_plan(name, ty@), from.args@, ty@, ctx_of(*old(scope)), *jets, state_of(*old(scope))),
            *final(scope),
        ),
        r matches Ok(c) ==> all_analyzed_as(from.args@, c.args@, *jets),
        r matches Ok(c) ==> forall|i: int| 0 <= i < from.args@.len() ==> #[trigger] analyzed_as(from.args@[i], c.args@[i], *jets),
    decreases from, 1nat,
{
    let params: Vec<ResolvedType> = match &name {
        CallName::Jet(_, src, _) => match resolve_builtin_all(src) {
            Ok(ps) => ps,
            Err(a) => return Err(AnalysisError::Scope(ScopeError::UndefinedAlias(a))),
        },
        _ => call_params(&name, ty),
    };
    proof {
        ResolvedType::lemma_models(params@);
    }
    if from.args.len() != params.len() {
        return Err(AnalysisError::InvalidNumberOfArguments(params.len(), from.args.len()));
    }
    let out: Option<ResolvedType> = match &name {
        CallName::Jet(_, _, tgt) => match tgt.resolve_builtin() {
            Ok(o) => Some(o),
            Err(a) => return Err(AnalysisError::Scope(ScopeError::UndefinedAlias(a))),
        },
        _ => call_output(&name),
    };
    match out {
        Some(o) => {
            if !o.same_as(ty) {
                return Err(AnalysisError::ExpressionTypeMismatch(ty.copy(), o));
            }
        },
        None => {},
    }
    proof {
        assert(decreases_to!(*from => from.args));
    }
    let args = analyze_sequence(&from.args, &params, scope, jets)?;
    proof {
        lemma_all_analyzed_as_index(from.args@, args@, *jets);
    }
    Ok(Call { name, args })
}

/// Analyze a statement: it returns nothing. An assignment binds its variable
/// in the innermost scope, which exists.
pub fn analyze_statement(from: &ParsedStatement, scope: &mut Scope, jets: &JetTable) -> (r: Result<Statement, AnalysisError>)
    requires
        old(scope).wf(),
        old(scope).frames().len() > 0,
    ensures
        r matches Err(e) ==> item_error(e),
        final(scope).wf(),
        scope_steady(*old(scope), *final(scope)),
        r matches Ok(st) ==> {
            &&& outer_frames_kept(old(scope).frames(), final(scope).frames())
            &&& (st matches Statement::Expression(x) ==> x.ty@ == TypeModel::Tuple(Seq::empty()))
            &&& (st matches Statement::Assignment(x, e) ==> lookup(final(scope).frames(), x@) == Some(e.ty@))
        },
        from matches ParsedStatement::Assignment(_, t, _) ==> (failing_alias(t@, old(scope).lookup_fn()) matches Some(a) ==> {
            &&& r matches Err(AnalysisError::Scope(e)) && alias_error(e, a, old(scope).alias_lookup(a), old(scope).spec_file_id())
        }),
        typing_outcome(r, stmt_typing(*from, ctx_of(*old(scope)), *jets, state_of(*old(scope))), *final(scope)),
        r matches Ok(st) ==> stmt_analyzed_as(*from, st, *jets),
    decreases from, 2nat,
{
    match from {
        ParsedStatement::Assignment(id, aty, expr) => {
            let t = match scope.resolve(aty) {
                Ok(t) => t,
                Err(e) => return Err(AnalysisError::Scope(e)),
            };
            proof {
                assert(decreases_to!(*from => from->Assignment_2));
            }
            let e = analyze_expression(expr, &t, scope, jets)?;
            let ghost f1 = scope.frames();
            let ghost tm = t@;
            scope.insert_variable(id.copy(), t);
            proof {
                crate::ast::law_variable_after_binding(f1, id@, tm);
            }
            Ok(Statement::Assignment(id.copy(), e))
        },
        ParsedStatement::Expression(expr) => {
            let u = unit_type();
            proof {
                assert(decreases_to!(*from => from->Expression_0));
            }
            let e = analyze_expression(expr, &u, scope, jets)?;
            Ok(Statement::Expression(e))
        },
    }
}

/// Analyze an expression, expecting it to have type `ty`, and give every
/// part of it its type.
///
/// The analysis ends as [`expr_typing`] says, with its state or its error;
/// the analyzed expression is the parsed one part by part ([`analyzed_as`]).
pub fn analyze_expression(
    from: &ParsedExpression,
    ty: &ResolvedType,
    scope: &mut Scope,
    jets: &JetTable,
) -> (r: Result<Expression, AnalysisError>)
    requires
        old(scope).wf(),
    ensures
        r matches Err(e) ==> item_error(e),
        final(scope).wf(),
        scope_steady(*old(scope), *final(scope)),
        r matches Ok(e) ==> {
            &&& e.ty@ == ty@
            &&& node_typed(e)
            &&& analyzed_as(*from, e, *jets)
            &&& frames_kept(old(scope).frames(), final(scope).frames())
        },
        leaf_outcome(*from, ty@, *old(scope), *final(scope), r),
        shape_refused(*from, ty@) ==> (r matches Err(AnalysisError::ExpressionUnexpectedType(t)) && t@ == ty@),
        from matches ParsedExpression::Block(ss, None) ==> (stmts_typing(ss@, ctx_of(*old(scope)), *jets, pushed(
            state_of(*old(scope)),
        )) is Ok && ty@ != unit_model() ==> (r matches Err(AnalysisError::ExpressionTypeMismatch(e, g)) && e@ == ty@
            && g@ == unit_model())),
        typing_outcome(r, expr_typing(*from, ty@, ctx_of(*old(scope)), *jets, state_of(*old(scope))), *final(scope)),
        typable(*from, ty@, *old(scope), *jets) <==> r is Ok,
    decreases from, 3nat,
{
    let inner = match from {
        ParsedExpression::Boolean(b) => {
            if !matches!(ty, ResolvedType::Boolean) {
                return Err(AnalysisError::ExpressionTypeMismatch(ty.copy(), ResolvedType::Boolean));
            }
            let mut bits: Vec<bool> = Vec::new();
            bits.push(*b);
            ExpressionInner::Constant(Value::new(ResolvedType::Boolean, bits))
        },
        ParsedExpression::Witness(name) => {
            match scope.insert_witness(name.copy(), ty.copy()) {
                Ok(()) => {},
                Err(e) => return Err(AnalysisError::Scope(e)),
            }
            ExpressionInner::Witness(name.copy())
        },
        ParsedExpression::Parameter(name) => {
            match scope.insert_parameter(name.copy(), ty.copy()) {
                Ok(()) => {},
                Err(e) => return Err(AnalysisError::Scope(e)),
            }
            ExpressionInner::Parameter(name.copy())
        },
        ParsedExpression::Variable(id) => {
            let bound = match scope.get_variable(id) {
                None => return Err(AnalysisError::UndefinedVariable(id.copy())),
                Some(b) => b.copy(),
            };
            if !ty.same_as(&bound) {
                return Err(AnalysisError::ExpressionTypeMismatch(ty.copy(), bound));
            }
            proof {
                lemma_lookup_nonempty(scope.frames(), id@);
                lemma_rebind_kept(scope.frames(), id@, ty@);
            }
            scope.insert_variable(id.copy(), ty.copy());
            ExpressionInner::Variable(id.copy())
        },
        ParsedExpression::Parenthesized(inner) => {
            proof {
                assert(decreases_to!(*from => from->Parenthesized_0));
            }
            let e = analyze_expression(inner, ty, scope, jets)?;
            ExpressionInner::Parenthesized(Box::new(e))
        },
        ParsedExpression::Tuple(es) => {
            let types = match ty {
                ResolvedType::Tuple(types) => types,
                _ => return Err(AnalysisError::ExpressionUnexpectedType(ty.copy())),
            };
            proof {
                ResolvedType::lemma_models(types@);
            }
            if es.len() != types.len() {
                return Err(AnalysisError::ExpressionUnexpectedType(ty.copy()));
            }
            proof {
                assert(decreases_to!(*from => from->Tuple_0));
            }
            let v = analyze_sequence(es, types, scope, jets)?;
            proof {
                ResolvedType::lemma_models(types@);
                assert(v@.map_values(|x: Expression| x.ty@) =~= ResolvedType::models(types@));
            }
            ExpressionInner::Tuple(v)
        },
        ParsedExpression::Array(es) => {
            let (el, size) = match ty {
                ResolvedType::Array(el, size) => (el, *size),
                _ => return Err(AnalysisError::ExpressionUnexpectedType(ty.copy())),
            };
            if es.len() != size {
                return Err(AnalysisError::ExpressionUnexpectedType(ty.copy()));
            }
            let tys = repeat_type(el, es.len());
            proof {
                assert(decreases_to!(*from => from->Array_0));
                ResolvedType::lemma_models(tys@);
                assert(ResolvedType::models(tys@) =~= Seq::new(es@.len(), |i: int| el@));
            }
            let v = analyze_sequence(es, &tys, scope, jets)?;
            ExpressionInner::Array(v)
        },
        ParsedExpression::List(es) => {
            let (el, bound) = match ty {
                ResolvedType::List(el, bound) => (el, *bound),
                _ => return Err(AnalysisError::ExpressionUnexpectedType(ty.copy())),
            };
            if bound <= es.len() {
                return Err(AnalysisError::ExpressionUnexpectedType(ty.copy()));
            }
            let tys = repeat_type(el, es.len());
            proof {
                assert(decreases_to!(*from => from->List_0));
                ResolvedType::lemma_models(tys@);
                assert(ResolvedType::models(tys@) =~= Seq::new(es@.len(), |i: int| el@));
            }
            let v = analyze_sequence(es, &tys, scope, jets)?;
            ExpressionInner::List(v)
        },
        ParsedExpression::Left(inner) => {
            let l = match ty {
                ResolvedType::Either(l, _) => l,
                _ => return Err(AnalysisError::ExpressionUnexpectedType(ty.copy())),
            };
            proof {
                assert(decreases_to!(*from => from->Left_0));
            }
            let e = analyze_expression(inner, l, scope, jets)?;
            ExpressionInner::Left(Box::new(e))
        },
        ParsedExpression::Right(inner) => {
            let r = match ty {
                ResolvedType::Either(_, r) => r,
                _ => return Err(AnalysisError::ExpressionUnexpectedType(ty.copy())),
            };
            proof {
                assert(decreases_to!(*from => from->Right_0));
            }
            let e = analyze_expression(inner, r, scope, jets)?;
            ExpressionInner::Right(Box::new(e))
        },
        ParsedExpression::Optional(maybe) => {
            let t = match ty {
                ResolvedType::Option(t) => t,
                _ => return Err(AnalysisError::ExpressionUnexpectedType(ty.copy())),
            };
            match maybe {
                None => ExpressionInner::Optional(None),
                Some(inner) => {
                    proof {
                        assert(decreases_to!(*from => from->Optional_0));
                        assert(decreases_to!(from->Optional_0 => from->Optional_0->Some_0));
                    }
                    let e = analyze_expression(inner, t, scope, jets)?;
                    ExpressionInner::Optional(Some(Box::new(e)))
                },
            }
        },
        ParsedExpression::Call(call) => {
            let ghost c0 = ctx_of(*scope);
            let ghost st0 = state_of(*scope);
            let name = match analyze_call_name(call, scope, jets) {
                Ok(n) => n,
                Err(e) => {
                    proof {
                        assert(call_plan(*call, ty@, c0, *jets) == Err::<CallPlan, ErrorModel>(e@));
                    }
                    return Err(e);
                },
            };
            proof {
                assert(decreases_to!(*from => from->Call_0));
                assert(call_plan(*call, ty@, c0, *jets) == Ok::<CallPlan, ErrorModel>(name_plan(name, ty@)));
            }
            let ghost nm = name;
            let c = match analyze_call(call, name, ty, scope, jets) {
                Ok(c) => c,
                Err(e) => {
                    proof {
                        assert(call_typing(*call, ty@, c0, *jets, st0) == Err::<AState, ErrorModel>(e@));
                    }
                    return Err(e);
                },
            };
            proof {
                assert(call_typing(*call, ty@, c0, *jets, st0) == plan_typing(name_plan(nm, ty@), call.args@, ty@, c0, *jets, st0));
            }
            ExpressionInner::Call(Box::new(c))
        },
        ParsedExpression::Match(m) => {
            let st = match scope.resolve(&m.scrutinee_type) {
                Ok(t) => t,
                Err(e) => return Err(AnalysisError::Scope(e)),
            };
            proof {
                assert(decreases_to!(*from => from->Match_0));
                assert(decreases_to!(from->Match_0 => from->Match_0.scrutinee));
            }
            let ghost f0 = scope.frames();
            let ghost sm0 = *scope;
            let scrutinee = analyze_expression(&m.scrutinee, &st, scope, jets)?;
            let ghost f1 = scope.frames();
            let ghost sm1 = *scope;
            proof {
                lemma_ctx_steady(sm0, sm1);
                assert(decreases_to!(from->Match_0 => from->Match_0.left));
                assert(decreases_to!(from->Match_0.left => from->Match_0.left.expression));
            }
            let left = analyze_arm(&m.left, ty, scope, jets)?;
            let ghost f2 = scope.frames();
            proof {
                lemma_ctx_steady(sm1, *scope);
                assert(decreases_to!(from->Match_0 => from->Match_0.right));
                assert(decreases_to!(from->Match_0.right => from->Match_0.right.expression));
            }
            let right = analyze_arm(&m.right, ty, scope, jets)?;
            proof {
                lemma_frames_kept_trans(f0, f1, f2);
                lemma_frames_kept_trans(f0, f2, scope.frames());
            }
            ExpressionInner::Match(Box::new(Match { scrutinee, left, right }))
        },
        ParsedExpression::Block(stmts, last) => {
            let ghost f0 = scope.frames();
            let ghost c0 = ctx_of(*scope);
            let ghost st0 = state_of(*scope);
            let ghost sb = *scope;
            scope.push_scope();
            proof {
                lemma_ctx_steady(sb, *scope);
                assert(stmts@.take(0) =~= Seq::<ParsedStatement>::empty());
                assert(stmts_analyzed_as(stmts@.take(0), Seq::<Statement>::empty(), *jets));
            }
            let mut out: Vec<Statement> = Vec::new();
            let mut i: usize = 0;
            while i < stmts.len()
                invariant
                    i <= stmts.len(),
                    c0 == ctx_of(*old(scope)),
                    st0 == state_of(*old(scope)),
                    ctx_of(*scope) == c0,
                    stmts_typing(stmts@.take(i as int), c0, *jets, pushed(st0)) == Ok::<AState, ErrorModel>(
                        state_of(*scope),
                    ),
                    stmts_analyzed_as(stmts@.take(i as int), out@, *jets),
                    scope.wf(),
                    scope_steady(*old(scope), *scope),
                    f0 == old(scope).frames(),
                    *from == ParsedExpression::Block(*stmts, *last),
                    scope.frames().len() == f0.len() + 1,
                    forall|j: int| 0 <= j < f0.len() ==> #[trigger] scope.frames()[j] == f0[j],
                    out@.len() == i,
                    forall|j: int| 0 <= j < i ==> (#[trigger] out@[j] matches Statement::Expression(x) ==> x.ty@
                        == TypeModel::Tuple(Seq::empty())),
                decreases stmts.len() - i,
            {
                proof {
                    assert(decreases_to!(*from => from->Block_0));
                    assert(decreases_to!(from->Block_0 => from->Block_0@));
                    assert(decreases_to!(from->Block_0@ => from->Block_0@[i as int]));
                }
                let ghost g0 = scope.frames();
                let ghost si = *scope;
                proof {
                    assert(stmts@.take(i + 1).drop_last() =~= stmts@.take(i as int));
                    assert(stmts@.take(i + 1).last() == stmts@[i as int]);
                }
                let st = match analyze_statement(&stmts[i], scope, jets) {
                    Ok(st) => st,
                    Err(err) => {
                        proof {
                            lemma_stmts_typing_prefix(stmts@, i + 1, c0, *jets, pushed(st0), err@);
                        }
                        return Err(err);
                    },
                };
                proof {
                    lemma_ctx_steady(si, *scope);
                    assert forall|j: int| 0 <= j < f0.len() implies #[trigger] scope.frames()[j] == f0[j] by {
                        assert(scope.frames()[j] == g0[j]);
                    }
                }
                let ghost o0 = out@;
                out.push(st);
                proof {
                    assert(out@.drop_last() =~= o0);
                }
                i = i + 1;
            }
            let ghost g1 = scope.frames();
            proof {
                assert(stmts@.take(stmts.len() as int) =~= stmts@);
            }
            let tail = match last {
                Some(x) => {
                    proof {
                        assert(decreases_to!(*from => from->Block_1));
                        assert(decreases_to!(from->Block_1 => from->Block_1->Some_0));
                    }
                    let e = analyze_expression(x, ty, scope, jets)?;
                    Some(Box::new(e))
                },
                None => {
                    let u = unit_type();
                    if !ty.same_as(&u) {
                        return Err(AnalysisError::ExpressionTypeMismatch(ty.copy(), u));
                    }
                    None
                },
            };
            proof {
                assert forall|j: int| 0 <= j < f0.len() implies #[trigger] scope.frames()[j] == f0[j] by {
                    assert(scope.frames()[j] == g1[j]);
                }
            }
            scope.pop_scope();
            proof {
                assert(scope.frames() =~= f0);
            }
            ExpressionInner::Block(out, tail)
        },
    };
    Ok(Expression { inner, ty: ty.copy() })
}

/// Analyze an arm of a match in a fresh scope in which its pattern's
/// variable is bound, expecting its expression to have type `ty`.
fn analyze_arm(from: &ParsedMatchArm, ty: &ResolvedType, scope: &mut Scope, jets: &JetTable) -> (r: Result<MatchArm, AnalysisError>)
    requires
        old(scope).wf(),
    ensures
        r matches Err(e) ==> item_error(e),
        final(scope).wf(),
        scope_steady(*old(scope), *final(scope)),
        r matches Ok(a) ==> {
            &&& a.expression.ty@ == ty@
            &&& frames_kept(old(scope).frames(), final(scope).frames())
        },
        typing_outcome(r, arm_typing(*from, ty@, ctx_of(*old(scope)), *jets, state_of(*old(scope))), *final(scope)),
        r matches Ok(a) ==> arm_analyzed_as(*from, a, *jets),
    decreases from, 4nat,
{
    let ghost f0 = scope.frames();
    let ghost s0 = *scope;
    scope.push_scope();
    proof {
        lemma_ctx_steady(s0, *scope);
    }
    let binding = match &from.binding {
        None => None,
        Some((id, aty)) => {
            let t = match scope.resolve(aty) {
                Ok(t) => t,
                Err(e) => return Err(AnalysisError::Scope(e)),
            };
            scope.insert_variable(id.copy(), t);
            Some(id.copy())
        },
    };
    let ghost g0 = scope.frames();
    proof {
        assert(decreases_to!(*from => from.expression));
        lemma_ctx_steady(s0, *scope);
    }
    let expression = analyze_expression(&from.expression, ty, scope, jets)?;
    proof {
        assert(g0.len() == f0.len() + 1);
        assert forall|j: int| 0 <= j < f0.len() implies #[trigger] scope.frames()[j] == f0[j] by {
            assert(scope.frames()[j] == g0[j]);
        }
    }
    scope.pop_scope();
    proof {
        assert(scope.frames() =~= f0);
    }
    Ok(MatchArm { binding, expression })
}

/// The expression of a statement.
pub open spec fn statement_expression(st: Statement) -> Expression {
    match st {
        Statement::Assignment(_, x) => x,
        Statement::Expression(x) => x,
    }
}

/// The direct subexpressions of an analyzed expression, in the order of the
/// source: elements, arguments, the scrutinee before the arms, and the
/// expressions of a block's statements before its final expression.
pub open spec fn children(e: Expression) -> Seq<Expression> {
    match e.inner {
        ExpressionInner::Parenthesized(x) => seq![*x],
        ExpressionInner::Left(x) => seq![*x],
        ExpressionInner::Right(x) => seq![*x],
        ExpressionInner::Optional(Some(x)) => seq![*x],
        ExpressionInner::Tuple(es) => es@,
        ExpressionInner::Array(es) => es@,
        ExpressionInner::List(es) => es@,
        ExpressionInner::Call(c) => c.args@,
        ExpressionInner::Match(m) => seq![m.scrutinee, m.left.expression, m.right.expression],
        ExpressionInner::Block(stmts, last) => stmts@.map_values(|st: Statement| statement_expression(st)) + match last {
            Some(x) => seq![*x],
            None => Seq::empty(),
        },
        _ => Seq::empty(),
    }
}

/// The direct subexpressions of an analyzed expression; see [`children`].
pub fn subexpressions(e: &Expression) -> (r: Vec<&Expression>)
    ensures
        r@.len() == children(*e).len(),
        forall|i: int| 0 <= i < r@.len() ==> *(#[trigger] r@[i]) == children(*e)[i],
{
    let mut out: Vec<&Expression> = Vec::new();
    match &e.inner {
        ExpressionInner::Parenthesized(x) | ExpressionInner::Left(x) | ExpressionInner::Right(x) => {
            out.push(&**x);
        },
        ExpressionInner::Optional(Some(x)) => {
            out.push(&**x);
        },
        ExpressionInner::Tuple(es) | ExpressionInner::Array(es) | ExpressionInner::List(es) => {
            push_all(&mut out, es);
        },
        ExpressionInner::Call(c) => {
            push_all(&mut out, &c.args);
        },
        ExpressionInner::Match(m) => {
            out.push(&m.scrutinee);
            out.push(&m.left.expression);
            out.push(&m.right.expression);
        },
        ExpressionInner::Block(stmts, last) => {
            let mut i: usize = 0;
            while i < stmts.len()
                invariant
                    i <= stmts.len(),
                    out@.len() == i,
                    forall|j: int| 0 <= j < i ==> *(#[trigger] out@[j]) == statement_expression(stmts@[j]),
                decreases stmts.len() - i,
            {
                match &stmts[i] {
                    Statement::Assignment(_, x) => out.push(x),
                    Statement::Expression(x) => out.push(x),
                }
                i = i + 1;
            }
            match last {
                Some(x) => out.push(&**x),
                None => {},
            }
        },
        _ => {},
    }
    out
}

fn push_all<'a>(out: &mut Vec<&'a Expression>, es: &'a Vec<Expression>)
    requires
        old(out)@.len() == 0,
    ensures
        final(out)@.len() == es@.len(),
        forall|i: int| 0 <= i < es@.len() ==> *(#[trigger] final(out)@[i]) == es@[i],
{
    let mut i: usize = 0;
    while i < es.len()
        invariant
            i <= es.len(),
            out@.len() == i,
            forall|j: int| 0 <= j < i ==> *(#[trigger] out@[j]) == es@[j],
        decreases es.len() - i,
    {
        out.push(&es[i]);
        i = i + 1;
    }
}

/// `n` copies of the type.
fn repeat_type(t: &ResolvedType, n: usize) -> (r: Vec<ResolvedType>)
    ensures
        r@.len() == n,
        forall|i: int| 0 <= i < n ==> (#[trigger] r@[i])@ == t@,
{
    let mut out: Vec<ResolvedType> = Vec::new();
    let mut i: usize = 0;
    while i < n
        invariant
            i <= n,
            out@.len() == i,
            forall|j: int| 0 <= j < i ==> (#[trigger] out@[j])@ == t@,
        decreases n - i,
    {
        out.push(t.copy());
        i = i + 1;
    }
    out
}

/// A function definition in the parse tree.
pub struct ParsedFunction {
    pub name: FunctionName,
    pub params: Vec<(Identifier, AliasedType)>,
    pub ret: Option<AliasedType>,
    pub body: ParsedExpression,
}

/// An analyzed function definition: a custom function goes into the scope;
/// the main function keeps its body.
#[derive(Debug, PartialEq, Eq)]
pub enum Function {
    Custom,
    Main(Expression),
}

/// File id of the entry file of a project.
pub const MAIN_MODULE: usize = 0;

/// The name of the main function: `main`.
pub open spec fn main_name() -> Seq<u8> {
    seq![109u8, 97u8, 105u8, 110u8]
}

/// The resolved parameter types.
pub open spec fn resolved_params(ps: Seq<(Identifier, AliasedType)>, lookup: spec_fn(Seq<u8>) -> crate::ast::AliasLookup) -> Seq<TypeModel> {
    ps.map_values(|p: (Identifier, AliasedType)| resolve_aliases(p.1@, lookup))
}

/// The resolved return type; the unit type where none is written.
pub open spec fn resolved_ret(ret: Option<AliasedType>, lookup: spec_fn(Seq<u8>) -> crate::ast::AliasLookup) -> TypeModel {
    match ret {
        Some(t) => resolve_aliases(t@, lookup),
        None => TypeModel::Tuple(Seq::empty()),
    }
}

/// The variable scope in which a custom function's body is analyzed: its
/// parameters bound in order to their resolved types.
pub open spec fn param_frame(ps: Seq<(Identifier, AliasedType)>, lookup: spec_fn(Seq<u8>) -> AliasLookup) -> Map<Seq<char>, TypeModel>
    decreases ps.len(),
{
    if ps.len() == 0 {
        Map::empty()
    } else {
        param_frame(ps.drop_last(), lookup).insert(ps.last().0@, resolve_aliases(ps.last().1@, lookup))
    }
}

/// The written return type of a main function resolves to the unit type, or
/// none is written.
pub open spec fn main_ret_ok(ret: Option<AliasedType>, lookup: spec_fn(Seq<u8>) -> AliasLookup) -> bool {
    match ret {
        None => true,
        Some(t) => failing_alias(t@, lookup) is None && resolve_aliases(t@, lookup) == unit_model(),
    }
}

/// The written parameter types.
pub open spec fn param_models(ps: Seq<(Identifier, AliasedType)>) -> Seq<TypeModel> {
    ps.map_values(|p: (Identifier, AliasedType)| p.1@)
}

/// The error of resolving the written return type, if it fails.
pub open spec fn ret_failure(ret: Option<AliasedType>, c: Ctx) -> Option<ErrorModel> {
    match ret {
        Some(t) => match failing_alias(t@, c.0) {
            Some(a) => Some(alias_failure(a, c)),
            None => None,
        },
        None => None,
    }
}

/// The outcome of analyzing the function `f` in context `c` outside the main
/// function, with the declared witnesses `w` and parameters `p`: the
/// witnesses and parameters after it and, for a custom function, the
/// signature that it declares; or the error. `defined` says whether a
/// function of its name is declared in its file already.
///
/// The main function must take no inputs, return the unit type and stand in
/// the entry file; its body is analyzed inside the main function. A custom
/// function's parameter and return types must resolve; its body is analyzed
/// with its parameters bound, and then it is declared.
pub open spec fn function_typing(
    f: ParsedFunction,
    c: Ctx,
    jets: JetTable,
    w: Map<Seq<char>, TypeModel>,
    p: Map<Seq<char>, TypeModel>,
    defined: bool,
) -> Result<(Map<Seq<char>, TypeModel>, Map<Seq<char>, TypeModel>, Option<Signature>), ErrorModel> {
    if f.name@ == main_name() {
        if f.params@.len() != 0 {
            Err(ErrorModel::MainNoInputs)
        } else {
            match ret_failure(f.ret, c) {
                Some(e) => Err(e),
                None => if !main_ret_ok(f.ret, c.0) {
                    Err(ErrorModel::MainNoOutput)
                } else if c.3 != MAIN_MODULE {
                    Err(ErrorModel::MainOutOfEntryFile)
                } else {
                    match expr_typing(f.body, unit_model(), (c.0, c.1, true, c.3), jets, (seq![Map::empty()], w, p)) {
                        Ok(u) => Ok((u.1, u.2, None)),
                        Err(e) => Err(e),
                    }
                },
            }
        }
    } else {
        match failing_alias_of(param_models(f.params@), c.0) {
            Some(a) => Err(alias_failure(a, c)),
            None => match ret_failure(f.ret, c) {
                Some(e) => Err(e),
                None => match expr_typing(
                    f.body,
                    resolved_ret(f.ret, c.0),
                    c,
                    jets,
                    (seq![param_frame(f.params@, c.0)], w, p),
                ) {
                    Ok(u) => if defined {
                        Err(ErrorModel::Scope(ScopeErrorModel::FunctionRedefined(f.name@)))
                    } else {
                        Ok((u.1, u.2, Some((resolved_params(f.params@, c.0), resolved_ret(f.ret, c.0)))))
                    },
                    Err(e) => Err(e),
                },
            },
        }
    }
}

proof fn lemma_lookups_same(a: Scope, b: Scope)
    requires
        a.alias_state() == b.alias_state(),
        a.function_state() == b.function_state(),
        a.spec_file_id() == b.spec_file_id(),
    ensures
        a.lookup_fn() == b.lookup_fn(),
        (|n: Seq<u8>| found_signature(a.function_lookup(n))) == (|n: Seq<u8>| found_signature(b.function_lookup(n))),
{
    assert(a.lookup_fn() =~= b.lookup_fn());
    assert((|n: Seq<u8>| found_signature(a.function_lookup(n))) =~= (|n: Seq<u8>| found_signature(b.function_lookup(n))));
}

/// The name `main`.
fn main_function_name() -> (r: FunctionName)
    ensures
        r@ == main_name(),
{
    let mut bytes: Vec<u8> = Vec::new();
    bytes.push(109);
    bytes.push(97);
    bytes.push(105);
    bytes.push(110);
    assert(bytes@ =~= main_name());
    AliasName::new(bytes)
}

fn is_main_name(name: &FunctionName) -> (r: bool)
    ensures
        r == (name@ == main_name()),
{
    let m = main_function_name();
    name.same_as(&m)
}

/// Analyze a function definition in the topmost scope.
///
/// A custom function is analyzed with its parameters bound in a fresh scope
/// and then declared. The main function takes no inputs, returns nothing,
/// stands in the entry file, and is analyzed inside the main scope. The
/// analysis ends as [`function_typing`] says, with its outcome or its error.
pub fn analyze_function(from: &ParsedFunction, scope: &mut Scope, jets: &JetTable) -> (r: Result<Function, AnalysisError>)
    requires
        old(scope).wf(),
        old(scope).frames().len() == 0,
        !old(scope).in_main(),
    ensures
        r matches Err(e) ==> item_error(e),
        final(scope).wf(),
        final(scope).alias_state() == old(scope).alias_state(),
        final(scope).spec_file_id() == old(scope).spec_file_id(),
        final(scope).function_roots() == old(scope).function_roots(),
        final(scope).function_scopes() == old(scope).function_scopes(),
        r is Ok ==> final(scope).frames().len() == 0 && !final(scope).in_main(),
        match function_typing(
            *from,
            ctx_of(*old(scope)),
            *jets,
            old(scope).witness_map(),
            old(scope).parameter_map(),
            old(scope).function_of((from.name@, old(scope).spec_file_id())) is Some,
        ) {
            Err(e) => r matches Err(x) && x@ == e,
            Ok(out) => {
                &&& final(scope).witness_map() == out.0
                &&& final(scope).parameter_map() == out.1
                &&& match out.2 {
                    None => {
                        &&& r matches Ok(Function::Main(body)) && analyzed_as(from.body, body, *jets) && body.ty@
                            == unit_model()
                        &&& final(scope).function_state() == old(scope).function_state()
                    },
                    Some(g) => {
                        &&& r == Ok::<Function, AnalysisError>(Function::Custom)
                        &&& exists|f: CustomFunction|
                            {
                                &&& final(scope).function_pool() == old(scope).function_pool().push(
                                    ((from.name@, old(scope).spec_file_id()), f),
                                )
                                &&& signature(f) == g
                                &&& analyzed_as(from.body, f.body, *jets)
                            }
                    },
                }
            },
        },
{
    if !is_main_name(&from.name) {
        let ghost lookup = scope.lookup_fn();
        let mut params: Vec<FunctionParam> = Vec::new();
        let mut i: usize = 0;
        while i < from.params.len()
            invariant
                i <= from.params.len(),
                lookup == scope.lookup_fn(),
                *scope == *old(scope),
                scope.wf(),
                from.name@ != main_name(),
                params@.len() == i,
                forall|j: int| 0 <= j < i ==> failing_alias(from.params@[j].1@, lookup) is None,
                failing_alias_of(param_models(from.params@.take(i as int)), lookup) is None,
                forall|j: int| 0 <= j < i ==> (#[trigger] params@[j])@.1 == resolve_aliases(from.params@[j].1@, lookup),
                forall|j: int| 0 <= j < i ==> (#[trigger] params@[j])@.0 == from.params@[j].0@,
            decreases from.params.len() - i,
        {
            proof {
                assert(param_models(from.params@.take(i + 1)).drop_last() =~= param_models(from.params@.take(i as int)));
                assert(param_models(from.params@.take(i + 1)).last() == from.params@[i as int].1@);
                assert(param_models(from.params@.take(i + 1)) =~= param_models(from.params@).take(i + 1));
            }
            let t = match scope.resolve(&from.params[i].1) {
                Ok(t) => t,
                Err(e) => {
                    proof {
                        lemma_failing_alias_prefix(param_models(from.params@), i + 1, lookup);
                    }
                    return Err(AnalysisError::Scope(e));
                },
            };
            params.push(FunctionParam::new(from.params[i].0.copy(), t));
            i = i + 1;
        }
        proof {
            assert(from.params@.take(from.params@.len() as int) =~= from.params@);
        }
        let ret = match &from.ret {
            Some(aliased) => match scope.resolve(aliased) {
                Ok(t) => t,
                Err(e) => return Err(AnalysisError::Scope(e)),
            },
            None => unit_type(),
        };
        let ghost f0 = scope.frames();
        let ghost s0 = *scope;
        scope.push_scope();
        proof {
            assert(s0.frames() =~= Seq::<Map<Seq<char>, TypeModel>>::empty());
            assert(from.params@.take(0) =~= Seq::<(Identifier, AliasedType)>::empty());
            assert(scope.frames() =~= seq![param_frame(from.params@.take(0), lookup)]);
        }
        let mut k: usize = 0;
        while k < params.len()
            invariant
                k <= params.len(),
                params@.len() == from.params@.len(),
                lookup == s0.lookup_fn(),
                forall|j: int| 0 <= j < params@.len() ==> (#[trigger] params@[j])@.1 == resolve_aliases(from.params@[j].1@, lookup),
                forall|j: int| 0 <= j < params@.len() ==> (#[trigger] params@[j])@.0 == from.params@[j].0@,
                scope.wf(),
                scope_steady(s0, *scope),
                scope.frames() == seq![param_frame(from.params@.take(k as int), lookup)],
                scope.witness_map() == s0.witness_map(),
                scope.parameter_map() == s0.parameter_map(),
                s0.wf(),
            decreases params.len() - k,
        {
            proof {
                assert(from.params@.take(k + 1).drop_last() =~= from.params@.take(k as int));
                assert(from.params@.take(k + 1).last() == from.params@[k as int]);
            }
            scope.insert_variable(params[k].identifier().copy(), params[k].ty().copy());
            proof {
                assert(scope.frames() =~= seq![param_frame(from.params@.take(k + 1), lookup)]);
            }
            k = k + 1;
        }
        proof {
            assert(from.params@.take(params.len() as int) =~= from.params@);
            lemma_ctx_steady(s0, *scope);
        }
        let body = analyze_expression(&from.body, &ret, scope, jets)?;
        scope.pop_scope();
        let f = CustomFunction { params, body };
        let ghost fg = f;
        proof {
            assert(param_types(f) =~= resolved_params(from.params@, lookup));
            assert(signature(fg) == (resolved_params(from.params@, lookup), resolved_ret(from.ret, lookup)));
            assert(analyzed_as(from.body, fg.body, *jets));
        }
        match scope.insert_function(from.name.copy(), f) {
            Ok(()) => {},
            Err(e) => return Err(AnalysisError::Scope(e)),
        }
        proof {
            assert(scope.function_pool() == old(scope).function_pool().push(((from.name@, old(scope).spec_file_id()), fg)));
        }
        return Ok(Function::Custom);
    }
    if from.params.len() != 0 {
        return Err(AnalysisError::MainNoInputs);
    }
    match &from.ret {
        Some(aliased) => {
            let resolved = match scope.resolve(aliased) {
                Ok(t) => t,
                Err(e) => return Err(AnalysisError::Scope(e)),
            };
            let u = unit_type();
            if !resolved.same_as(&u) {
                return Err(AnalysisError::MainNoOutput);
            }
        },
        None => {},
    }
    if scope.file_id() != MAIN_MODULE {
        return Err(AnalysisError::MainOutOfEntryFile);
    }
    let ghost sm = *scope;
    scope.push_main_scope();
    proof {
        lemma_lookups_same(sm, *scope);
    }
    let u = unit_type();
    let body = analyze_expression(&from.body, &u, scope, jets)?;
    scope.pop_main_scope();
    Ok(Function::Main(body))
}

/// An item of a program in the parse tree, each with the file that holds it.
pub enum ParsedItem {
    /// A type alias declared in the file.
    TypeAlias(AliasName, AliasedType, usize),
    /// A function defined in the file.
    Function(ParsedFunction, usize),
    /// A `use` declaration.
    Use,
    /// A module, which is ignored.
    Module,
}

/// An analyzed program: its main function and the parameters and witnesses it declares.
pub struct Program {
    pub main: Expression,
    pub parameters: Parameters,
    pub witness_types: WitnessTypes,
}

/// What the analysis of a program has gathered after some of its items:
/// the declared aliases, the signatures of the declared functions, each with
/// its name and file, the declared witnesses and parameters, and the number
/// of main functions.
pub type ProgramState = (
    Seq<((Seq<u8>, usize), TypeModel)>,
    Seq<((Seq<u8>, usize), Signature)>,
    Map<Seq<char>, TypeModel>,
    Map<Seq<char>, TypeModel>,
    nat,
);

/// The signatures of the functions of a function pool.
pub open spec fn signatures(pool: Seq<((Seq<u8>, usize), CustomFunction)>) -> Seq<((Seq<u8>, usize), Signature)> {
    pool.map_values(|e: ((Seq<u8>, usize), CustomFunction)| (e.0, signature(e.1)))
}

/// What looking up an alias from `file` finds, given the declared aliases and
/// the symbol table: as [`Scope::alias_lookup`] says.
pub open spec fn model_alias_lookup(
    pool: Seq<((Seq<u8>, usize), TypeModel)>,
    table: SymbolTable,
    file: usize,
) -> spec_fn(Seq<u8>) -> AliasLookup {
    |name: Seq<u8>|
        match last_binding(pool, SymbolTable::spec_root_of(table.roots(), (name, file))) {
            None => AliasLookup::Undefined,
            Some(t) => if file >= table.scopes().len() {
                AliasLookup::MissingFile
            } else if !table.scopes()[file as int].contains(name) {
                AliasLookup::Private
            } else {
                AliasLookup::Found(t)
            },
        }
}

/// What looking up a function from `file` finds, given the declared
/// signatures and the symbol table: as [`Scope::function_lookup`] says.
pub open spec fn model_function_lookup(
    sigs: Seq<((Seq<u8>, usize), Signature)>,
    table: SymbolTable,
    file: usize,
) -> spec_fn(Seq<u8>) -> SignatureLookup {
    |name: Seq<u8>|
        match last_binding(sigs, SymbolTable::spec_root_of(table.roots(), (name, file))) {
            None => SignatureLookup::Undefined,
            Some(g) => if file >= table.scopes().len() {
                SignatureLookup::MissingFile
            } else if !table.scopes()[file as int].contains(name) {
                SignatureLookup::Private
            } else {
                SignatureLookup::Found(g)
            },
        }
}

/// The program state after analyzing `item` from state `ps`, or the error
/// that the analysis of the item reports.
pub open spec fn item_step(item: ParsedItem, ps: ProgramState, aliases: SymbolTable, functions: SymbolTable, jets: JetTable) -> Result<
    ProgramState,
    ErrorModel,
> {
    match item {
        ParsedItem::TypeAlias(name, ty, file) => {
            let l = model_alias_lookup(ps.0, aliases, file);
            if last_binding(ps.0, (name@, file)) is Some {
                Err(ErrorModel::Scope(ScopeErrorModel::RedefinedAlias(name@)))
            } else {
                match failing_alias(ty@, l) {
                    Some(a) => Err(ErrorModel::Scope(alias_error_model(a, l(a), file))),
                    None => Ok((ps.0.push(((name@, file), resolve_aliases(ty@, l))), ps.1, ps.2, ps.3, ps.4)),
                }
            }
        },
        ParsedItem::Function(f, file) => {
            let c = (model_alias_lookup(ps.0, aliases, file), model_function_lookup(ps.1, functions, file), false, file);
            match function_typing(f, c, jets, ps.2, ps.3, last_binding(ps.1, (f.name@, file)) is Some) {
                Ok(o) => match o.2 {
                    None => Ok((ps.0, ps.1, o.0, o.1, ps.4 + 1)),
                    Some(g) => Ok((ps.0, ps.1.push(((f.name@, file), g)), o.0, o.1, ps.4)),
                },
                Err(e) => Err(e),
            }
        },
        ParsedItem::Use => Err(ErrorModel::UseKeywordIsNotSupported),
        ParsedItem::Module => Ok(ps),
    }
}

/// The program state after analyzing the items in order, or the error of
/// the first item that fails.
pub open spec fn program_typing(items: Seq<ParsedItem>, aliases: SymbolTable, functions: SymbolTable, jets: JetTable) -> Result<
    ProgramState,
    ErrorModel,
>
    decreases items.len(),
{
    if items.len() == 0 {
        Ok((Seq::empty(), Seq::empty(), Map::empty(), Map::empty(), 0))
    } else {
        match program_typing(items.drop_last(), aliases, functions, jets) {
            Ok(ps) => item_step(items.last(), ps, aliases, functions, jets),
            Err(e) => Err(e),
        }
    }
}

/// The body of the last main function among the items, if there is one.
pub open spec fn main_body(items: Seq<ParsedItem>) -> Option<ParsedExpression>
    decreases items.len(),
{
    if items.len() == 0 {
        None
    } else {
        match items.last() {
            ParsedItem::Function(f, _) => if f.name@ == main_name() {
                Some(f.body)
            } else {
                main_body(items.drop_last())
            },
            _ => main_body(items.drop_last()),
        }
    }
}

proof fn lemma_program_step(items: Seq<ParsedItem>, k: int, aliases: SymbolTable, functions: SymbolTable, jets: JetTable)
    requires
        0 <= k < items.len(),
    ensures
        program_typing(items.take(k + 1), aliases, functions, jets) == match program_typing(items.take(k), aliases, functions, jets) {
            Ok(ps) => item_step(items[k], ps, aliases, functions, jets),
            Err(e) => Err(e),
        },
        main_body(items.take(k + 1)) == match items[k] {
            ParsedItem::Function(f, _) => if f.name@ == main_name() {
                Some(f.body)
            } else {
                main_body(items.take(k))
            },
            _ => main_body(items.take(k)),
        },
{
    assert(items.take(k + 1).drop_last() =~= items.take(k));
    assert(items.take(k + 1).last() == items[k]);
}

proof fn lemma_program_prefix_err(
    items: Seq<ParsedItem>,
    j: int,
    k: int,
    aliases: SymbolTable,
    functions: SymbolTable,
    jets: JetTable,
    e: ErrorModel,
)
    requires
        0 <= j <= k <= items.len(),
        program_typing(items.take(j), aliases, functions, jets) == Err::<ProgramState, ErrorModel>(e),
    ensures
        program_typing(items.take(k), aliases, functions, jets) == Err::<ProgramState, ErrorModel>(e),
    decreases k - j,
{
    if j < k {
        lemma_program_prefix_err(items, j, k - 1, aliases, functions, jets, e);
        lemma_program_step(items, k - 1, aliases, functions, jets);
    }
}

proof fn lemma_last_binding_signatures(pool: Seq<((Seq<u8>, usize), CustomFunction)>, key: (Seq<u8>, usize))
    ensures
        last_binding(signatures(pool), key) == match last_binding(pool, key) {
            Some(f) => Some(signature(f)),
            None => None,
        },
    decreases pool.len(),
{
    if pool.len() > 0 {
        assert(signatures(pool).drop_last() =~= signatures(pool.drop_last()));
        lemma_last_binding_signatures(pool.drop_last(), key);
    }
}

proof fn lemma_model_lookups(s: Scope, ps: ProgramState, aliases: SymbolTable, functions: SymbolTable)
    requires
        s.alias_pool() == ps.0,
        s.table_roots() == aliases.roots(),
        s.table_scopes() == aliases.scopes(),
        signatures(s.function_pool()) == ps.1,
        s.function_roots() == functions.roots(),
        s.function_scopes() == functions.scopes(),
    ensures
        s.lookup_fn() == model_alias_lookup(ps.0, aliases, s.spec_file_id()),
        (|n: Seq<u8>| found_signature(s.function_lookup(n))) == model_function_lookup(ps.1, functions, s.spec_file_id()),
        forall|key: (Seq<u8>, usize)| #[trigger] last_binding(ps.1, key) is Some <==> s.function_of(key) is Some,
{
    assert(s.lookup_fn() =~= model_alias_lookup(ps.0, aliases, s.spec_file_id()));
    assert forall|n: Seq<u8>| found_signature(s.function_lookup(n)) == model_function_lookup(ps.1, functions, s.spec_file_id())(n) by {
        lemma_last_binding_signatures(
            s.function_pool(),
            SymbolTable::spec_root_of(functions.roots(), (n, s.spec_file_id())),
        );
    }
    assert((|n: Seq<u8>| found_signature(s.function_lookup(n))) =~= model_function_lookup(ps.1, functions, s.spec_file_id()));
    assert forall|key: (Seq<u8>, usize)| #[trigger] last_binding(ps.1, key) is Some <==> s.function_of(key) is Some by {
        lemma_last_binding_signatures(s.function_pool(), key);
    }
}

impl Program {
    /// The main function's body; a program has exactly one main function.
    pub fn main(&self) -> (r: &Expression)
        ensures
            *r == self.main,
    {
        &self.main
    }

    /// The parameters that the program declares.
    pub fn parameters(&self) -> (r: &Parameters)
        ensures
            *r == self.parameters,
    {
        &self.parameters
    }

    /// The witnesses that the program declares, with their types.
    pub fn witness_types(&self) -> (r: &WitnessTypes)
        ensures
            *r == self.witness_types,
    {
        &self.witness_types
    }
}

/// The context of an empty scope of the entry file: no alias and no function
/// is found, and the scope is outside the main function.
pub open spec fn empty_ctx() -> Ctx {
    (|n: Seq<u8>| AliasLookup::Undefined, |n: Seq<u8>| SignatureLookup::Undefined, false, MAIN_MODULE)
}

/// Analyze an expression of type `ty` in an empty scope: no variable, alias
/// or function is in scope, and it is outside the main function.
///
/// The expression might not be evaluable at compile time.
pub fn analyze_const(from: &ParsedExpression, ty: &ResolvedType, jets: &JetTable) -> (r: Result<Expression, AnalysisError>)
    ensures
        r matches Err(e) ==> item_error(e),
        match expr_typing(*from, ty@, empty_ctx(), *jets, (Seq::empty(), Map::empty(), Map::empty())) {
            Ok(_) => r is Ok,
            Err(e) => r matches Err(x) && x@ == e,
        },
        r matches Ok(e) ==> e.ty@ == ty@ && node_typed(e) && analyzed_as(*from, e, *jets),
{
    let mut scope = Scope::new(MAIN_MODULE, SymbolTable::new(Vec::new(), Vec::new()), SymbolTable::new(Vec::new(), Vec::new()));
    proof {
        assert(scope.lookup_fn() =~= empty_ctx().0);
        assert((|n: Seq<u8>| found_signature(scope.function_lookup(n))) =~= empty_ctx().1);
        assert(ctx_of(scope) == empty_ctx());
        assert(scope.frames() =~= Seq::<Map<Seq<char>, TypeModel>>::empty());
    }
    analyze_expression(from, ty, &mut scope, jets)
}

/// The number of main functions among the items.
pub open spec fn main_count(items: Seq<ParsedItem>) -> nat
    decreases items.len(),
{
    if items.len() == 0 {
        0
    } else {
        main_count(items.drop_last()) + match items.last() {
            ParsedItem::Function(f, _) => if f.name@ == main_name() { 1nat } else { 0nat },
            _ => 0nat,
        }
    }
}

/// The program state of a topmost scope, with `mains` main functions seen.
pub open spec fn program_state_of(s: Scope, mains: nat) -> ProgramState {
    (s.alias_pool(), signatures(s.function_pool()), s.witness_map(), s.parameter_map(), mains)
}

/// A topmost scope of the entry file outside the main function, whose symbol
/// tables are `at` and `ft`.
pub open spec fn program_scope(s: Scope, at: SymbolTable, ft: SymbolTable) -> bool {
    &&& s.wf()
    &&& s.frames().len() == 0
    &&& !s.in_main()
    &&& s.spec_file_id() == MAIN_MODULE
    &&& s.table_roots() == at.roots()
    &&& s.table_scopes() == at.scopes()
    &&& s.function_roots() == ft.roots()
    &&& s.function_scopes() == ft.scopes()
}

/// The item is a main function.
pub open spec fn is_main_item(item: ParsedItem) -> bool {
    item matches ParsedItem::Function(f, _) && f.name@ == main_name()
}

/// The expression is the analyzed body of the main function `item`.
pub open spec fn main_analyzed(item: ParsedItem, e: Expression, jets: JetTable) -> bool {
    &&& e.ty@ == unit_model()
    &&& item matches ParsedItem::Function(f, _) && analyzed_as(f.body, e, jets)
}

/// The expression is the analyzed body of the last main function among the items.
pub open spec fn main_body_analyzed(items: Seq<ParsedItem>, e: Expression, jets: JetTable) -> bool {
    main_body(items) matches Some(b) && analyzed_as(b, e, jets)
}

/// Analyze one item of a program: the body of the main function if it is one.
fn analyze_item(
    item: &ParsedItem,
    scope: &mut Scope,
    jets: &JetTable,
    Ghost(at): Ghost<SymbolTable>,
    Ghost(ft): Ghost<SymbolTable>,
    Ghost(n): Ghost<nat>,
) -> (r: Result<Option<Expression>, AnalysisError>)
    requires
        program_scope(*old(scope), at, ft),
    ensures
        r is Ok ==> program_scope(*final(scope), at, ft),
        r matches Err(e) ==> item_error(e),
        match item_step(*item, program_state_of(*old(scope), n), at, ft, *jets) {
            Err(e) => r matches Err(x) && x@ == e,
            Ok(ps) => r matches Ok(o) && ps == program_state_of(*final(scope), if o is Some { n + 1 } else { n }) && (o is Some)
                == is_main_item(*item) && (o matches Some(e) ==> main_analyzed(*item, e, *jets)),
        },
{
    let ghost ps = program_state_of(*scope, n);
    match item {
        ParsedItem::TypeAlias(name, ty, file_id) => {
            scope.set_file_id(*file_id);
            proof {
                lemma_model_lookups(*scope, ps, at, ft);
            }
            let res = scope.insert_alias(name.copy(), ty.copy());
            scope.set_file_id(MAIN_MODULE);
            match res {
                Ok(()) => Ok(None),
                Err(e) => Err(AnalysisError::Scope(e)),
            }
        },
        ParsedItem::Function(function, file_id) => {
            scope.set_file_id(*file_id);
            proof {
                lemma_model_lookups(*scope, ps, at, ft);
            }
            let ghost sf = *scope;
            let res = analyze_function(function, scope, jets);
            scope.set_file_id(MAIN_MODULE);
            match res {
                Ok(Function::Main(body)) => Ok(Some(body)),
                Ok(Function::Custom) => {
                    proof {
                        let g = function_typing(
                            *function,
                            ctx_of(sf),
                            *jets,
                            sf.witness_map(),
                            sf.parameter_map(),
                            sf.function_of((function.name@, *file_id)) is Some,
                        )->Ok_0.2->Some_0;
                        assert(signatures(scope.function_pool()) =~= signatures(sf.function_pool()).push(
                            ((function.name@, *file_id), g),
                        ));
                    }
                    Ok(None)
                },
                Err(e) => Err(e),
            }
        },
        ParsedItem::Use => Err(AnalysisError::UseKeywordIsNotSupported),
        ParsedItem::Module => Ok(None),
    }
}

/// Analyze the items of a program in order, then require exactly one main
/// function.
///
/// The first item whose analysis fails gives the error. Where every item
/// analyzes, a program without a main function is refused with
/// `MainRequired`, one with two or more with `FunctionRedefined(main)`, and
/// one with exactly one is analyzed: its main expression is the analyzed
/// body of that main function, with the parameters and witnesses that its
/// items declare.
pub fn analyze_program(
    items: &Vec<ParsedItem>,
    aliases_table: SymbolTable,
    functions_table: SymbolTable,
    jets: &JetTable,
) -> (r: Result<Program, AnalysisError>)
    ensures
        r matches Ok(p) ==> {
            &&& p.main.ty@ == TypeModel::Tuple(Seq::empty())
            &&& main_count(items@) == 1
            &&& p.parameters.wf() && p.witness_types.wf()
        },
        r == Err::<Program, AnalysisError>(AnalysisError::MainRequired) ==> main_count(items@) == 0,
        r matches Err(AnalysisError::FunctionRedefined(n)) ==> n@ == main_name() && main_count(items@) > 1,
        match program_typing(items@, aliases_table, functions_table, *jets) {
            Err(e) => r matches Err(x) && x@ == e && item_error(x),
            Ok(ps) => {
                &&& ps.4 == 0 ==> r == Err::<Program, AnalysisError>(AnalysisError::MainRequired)
                &&& ps.4 > 1 ==> (r matches Err(AnalysisError::FunctionRedefined(n)) && n@ == main_name())
                &&& ps.4 == 1 ==> (r matches Ok(p) && p.parameters.map() == ps.3 && p.witness_types.map() == ps.2
                    && main_body_analyzed(items@, p.main, *jets))
            },
        },
{
    let ghost at = aliases_table;
    let ghost ft = functions_table;
    let mut scope = Scope::new(MAIN_MODULE, aliases_table, functions_table);
    let mut main: Option<Expression> = None;
    let mut mains: usize = 0;
    let mut i: usize = 0;
    proof {
        assert(items@.take(0) =~= Seq::<ParsedItem>::empty());
        assert(signatures(scope.function_pool()) =~= Seq::<((Seq<u8>, usize), Signature)>::empty());
    }
    while i < items.len()
        invariant
            i <= items.len(),
            at == aliases_table,
            ft == functions_table,
            program_scope(scope, at, ft),
            program_typing(items@.take(i as int), at, ft, *jets) == Ok::<ProgramState, ErrorModel>(
                program_state_of(scope, mains as nat),
            ),
            mains == main_count(items@.take(i as int)),
            mains <= i,
            (mains == 0) == (main is None),
            main matches Some(e) ==> e.ty@ == TypeModel::Tuple(Seq::empty()),
            mains == 1 ==> (main matches Some(e) && main_body_analyzed(items@.take(i as int), e, *jets)),
        decreases items.len() - i,
    {
        proof {
            assert(items@.take(i + 1).drop_last() =~= items@.take(i as int));
            assert(items@.take(i + 1).last() == items@[i as int]);
            lemma_program_step(items@, i as int, at, ft, *jets);
        }
        match analyze_item(&items[i], &mut scope, jets, Ghost(at), Ghost(ft), Ghost(mains as nat)) {
            Ok(Some(body)) => {
                if mains == 0 {
                    main = Some(body);
                }
                mains = mains + 1;
            },
            Ok(None) => {},
            Err(e) => {
                proof {
                    lemma_program_prefix_err(items@, i + 1, items.len() as int, at, ft, *jets, e@);
                    assert(items@.take(items.len() as int) =~= items@);
                }
                return Err(e);
            },
        }
        i = i + 1;
    }
    proof {
        assert(items@.take(items.len() as int) =~= items@);
    }
    if mains == 0 {
        return Err(AnalysisError::MainRequired);
    }
    if mains > 1 {
        return Err(AnalysisError::FunctionRedefined(main_function_name()));
    }
    let (parameters, witness_types) = scope.destruct();
    Ok(Program { main: main.unwrap(), parameters, witness_types })
}

/// A function can be folded exactly when it has two parameters, the element
/// and the accumulator, and the accumulator has the type that the function
/// returns; the type of the element does not matter.
pub proof fn law_foldable_accumulator(f: CustomFunction)
    ensures
        foldable(f) <==> (f.params@.len() == 2 && f.params@[1]@.1 == f.body.ty@),
        foldable(f) <==> foldable_signature(signature(f)),
{
}

/// A signature `fn(element: E, accumulator: A) -> B` can be folded exactly
/// when `A` is `B`, whatever `E` is; one of another number of parameters
/// cannot.
pub proof fn law_foldable_signature(element: TypeModel, accumulator: TypeModel, ret: TypeModel, g: Signature)
    ensures
        foldable_signature((seq![element, accumulator], ret)) <==> accumulator == ret,
        g.0.len() != 2 ==> !foldable_signature(g),
{
}

/// A fold of a function `fn(element: E, accumulator: A) -> A` over a list of
/// bound `N` takes a `List<E, N>` and an initial `A` and returns an `A`; an
/// array fold takes an `[E; N]` in place of the list. A function whose
/// accumulator type is not its return type is refused as not foldable.
pub proof fn law_fold_call_plan(
    call: ParsedCall,
    ty: TypeModel,
    c: Ctx,
    jets: JetTable,
    n: FunctionName,
    bound: usize,
    element: TypeModel,
    accumulator: TypeModel,
    ret: TypeModel,
)
    requires
        (c.1)(n@) == SignatureLookup::Found((seq![element, accumulator], ret)),
    ensures
        call.name == ParsedCallName::Fold(n, bound) && accumulator == ret ==> call_plan(call, ty, c, jets) == Ok::<
            CallPlan,
            ErrorModel,
        >((None, seq![TypeModel::List(Box::new(element), bound as nat), accumulator], None, Some(ret))),
        call.name == ParsedCallName::ArrayFold(n, bound) && accumulator == ret ==> call_plan(call, ty, c, jets) == Ok::<
            CallPlan,
            ErrorModel,
        >((None, seq![TypeModel::Array(Box::new(element), bound as nat), accumulator], None, Some(ret))),
        (call.name == ParsedCallName::Fold(n, bound) || call.name == ParsedCallName::ArrayFold(n, bound)) && accumulator
            != ret ==> call_plan(call, ty, c, jets) == Err::<CallPlan, ErrorModel>(ErrorModel::FunctionNotFoldable(n@)),
{
}

/// `unwrap_left::<R>` with output type `T` takes one `Either<T, R>`: the
/// output is the left side; `unwrap_right::<L>` takes one `Either<L, T>`; and
/// `unwrap` takes one `Option<T>`. None of them fixes its output type.
pub proof fn law_unwrap_argument_sides(other: ResolvedType, ty: TypeModel)
    ensures
        expected_params(CallName::UnwrapLeft(other), ty) == seq![TypeModel::Either(Box::new(ty), Box::new(other@))],
        expected_params(CallName::UnwrapRight(other), ty) == seq![TypeModel::Either(Box::new(other@), Box::new(ty))],
        expected_params(CallName::Unwrap, ty) == seq![TypeModel::Option(Box::new(ty))],
        expected_output(CallName::UnwrapLeft(other)) is None,
        expected_output(CallName::UnwrapRight(other)) is None,
        expected_output(CallName::Unwrap) is None,
{
}

/// A parsed `unwrap_left::<R>` call with output type `T`, where `R` resolves
/// to `R'`, is checked against one argument of type `Either<T, R'>`; a parsed
/// `unwrap_right::<L>` against one of type `Either<L', T>`.
pub proof fn law_unwrap_call_plan(call: ParsedCall, ty: TypeModel, c: Ctx, jets: JetTable, t: AliasedType)
    requires
        failing_alias(t@, c.0) is None,
    ensures
        call.name == ParsedCallName::UnwrapLeft(t) ==> call_plan(call, ty, c, jets) == Ok::<CallPlan, ErrorModel>(
            (None, seq![TypeModel::Either(Box::new(ty), Box::new(resolve_aliases(t@, c.0)))], None, None),
        ),
        call.name == ParsedCallName::UnwrapRight(t) ==> call_plan(call, ty, c, jets) == Ok::<CallPlan, ErrorModel>(
            (None, seq![TypeModel::Either(Box::new(resolve_aliases(t@, c.0)), Box::new(ty))], None, None),
        ),
{
}

/// A function `fn(accumulator: A, context: C, counter: uN) -> Either<B, A>`
/// can drive a loop exactly when `N` is at most 16, and the loop's counter then
/// has `N` bits; a function whose body's right side is not its accumulator,
/// or that does not have three parameters, cannot.
pub proof fn law_loop_signature(
    accumulator: TypeModel,
    context: TypeModel,
    done: TypeModel,
    other: TypeModel,
    u: UIntType,
    g: Signature,
)
    ensures
        signature_loop_width((seq![accumulator, context, TypeModel::UInt(u)], TypeModel::Either(Box::new(done), Box::new(accumulator))))
            == if u.spec_bit_width() <= 16 {
            Some(u.spec_bit_width())
        } else {
            None::<nat>
        },
        other != accumulator ==> signature_loop_width(
            (seq![accumulator, context, TypeModel::UInt(u)], TypeModel::Either(Box::new(done), Box::new(other))),
        ) is None,
        !(g.0.len() == 3 && g.0[2] is UInt && g.1 is Either) ==> signature_loop_width(g) is None,
{
}

/// A loop over a function `fn(accumulator: A, context: C, counter: uN) ->
/// Either<B, A>` takes the initial accumulator and the context and returns
/// what the function's body returns.
pub proof fn law_for_while_call_plan(
    call: ParsedCall,
    ty: TypeModel,
    c: Ctx,
    jets: JetTable,
    n: FunctionName,
    accumulator: TypeModel,
    context: TypeModel,
    done: TypeModel,
    u: UIntType,
)
    requires
        call.name == ParsedCallName::ForWhile(n),
        (c.1)(n@) == SignatureLookup::Found(
            (seq![accumulator, context, TypeModel::UInt(u)], TypeModel::Either(Box::new(done), Box::new(accumulator))),
        ),
        u.spec_bit_width() <= 16,
    ensures
        call_plan(call, ty, c, jets) == Ok::<CallPlan, ErrorModel>(
            (
                None,
                seq![accumulator, context],
                None,
                Some(TypeModel::Either(Box::new(done), Box::new(accumulator))),
            ),
        ),
{
}

/// The signatures of the builtin calls with output type `T`: `is_none::<X>`
/// takes an `Option<X>` and returns a boolean, `assert!` takes a boolean and
/// returns unit, `dbg!` takes a `T`, `panic!` takes nothing; a custom
/// function takes its parameter types and returns its body's type.
pub proof fn law_builtin_signatures(x: ResolvedType, ty: TypeModel, n: FunctionName, ps: Vec<ResolvedType>, b: ResolvedType)
    ensures
        expected_params(CallName::IsNone(x), ty) == seq![TypeModel::Option(Box::new(x@))],
        expected_output(CallName::IsNone(x)) == Some(TypeModel::Boolean),
        expected_params(CallName::Assert, ty) == seq![TypeModel::Boolean],
        expected_output(CallName::Assert) == Some(TypeModel::Tuple(Seq::empty())),
        expected_params(CallName::Debug, ty) == seq![ty],
        expected_output(CallName::Debug) is None,
        expected_params(CallName::Panic, ty).len() == 0,
        expected_output(CallName::Panic) is None,
        expected_params(CallName::Custom(n, ps, b), ty) == ResolvedType::models(ps@),
        expected_output(CallName::Custom(n, ps, b)) == Some(b@),
{
}

} // verus!
