//! Parts of the abstract syntax tree of SimplicityHL programs, and the scope
//! of variables, parameters and witnesses in which a program is analyzed.
use vstd::prelude::*;

use crate::types::{AliasName, AliasedType, BuiltinAlias, ResolvedType, TypeModel, is_resolved};
use crate::analysis::CustomFunction;
use crate::witness::{NameMap, Parameters, Value, ValueModel, WitnessName, WitnessTypes};

verus! {

/// Position of a piece of source text: the range of its bytes.
#[derive(Clone, Copy, Debug, PartialEq, Eq, Structural, Hash)]
pub struct Span {
    pub start: usize,
    pub end: usize,
}

impl Span {
    /// The span of the bytes from `start` up to `end`.
    pub fn new(start: usize, end: usize) -> (r: Span)
        ensures
            r.start == start,
            r.end == end,
    {
        Span { start, end }
    }
}

/// Name of a variable.
#[derive(Debug, PartialEq, Eq, Hash)]
pub struct Identifier {
    name: String,
}

impl View for Identifier {
    type V = Seq<char>;

    closed spec fn view(&self) -> Seq<char> {
        self.name@
    }
}

impl Identifier {
    /// Create an identifier from a string, without checking its syntax.
    pub fn from_str_unchecked(s: &str) -> (r: Identifier)
        ensures
            r@ == s@,
    {
        Identifier { name: s.to_owned() }
    }

    /// The identifier as a string.
    pub fn as_inner(&self) -> (r: &str)
        ensures
            r@ == self@,
    {
        self.name.as_str()
    }

    /// A copy of the identifier.
    pub fn copy(&self) -> (r: Identifier)
        ensures
            r@ == self@,
    {
        Identifier { name: self.name.clone() }
    }

    /// Whether the two identifiers are equal.
    pub fn same_as(&self, other: &Identifier) -> (r: bool)
        ensures
            r == (self@ == other@),
    {
        self.name == other.name
    }
}

/// Name of a module.
#[derive(Debug, PartialEq, Eq, Hash)]
pub struct ModuleName {
    name: String,
}

impl View for ModuleName {
    type V = Seq<char>;

    closed spec fn view(&self) -> Seq<char> {
        self.name@
    }
}

impl ModuleName {
    /// Create a module name from a string, without checking its syntax.
    pub fn from_str_unchecked(s: &str) -> (r: ModuleName)
        ensures
            r@ == s@,
    {
        ModuleName { name: s.to_owned() }
    }

    /// The module name as a string.
    pub fn as_inner(&self) -> (r: &str)
        ensures
            r@ == self@,
    {
        self.name.as_str()
    }
}

/// Parameter of a function.
#[derive(Debug, PartialEq, Eq, Hash)]
pub struct FunctionParam {
    identifier: Identifier,
    ty: ResolvedType,
}

impl View for FunctionParam {
    type V = (Seq<char>, TypeModel);

    closed spec fn view(&self) -> (Seq<char>, TypeModel) {
        (self.identifier@, self.ty@)
    }
}

impl FunctionParam {
    /// The parameter with the given identifier and type.
    pub fn new(identifier: Identifier, ty: ResolvedType) -> (r: FunctionParam)
        ensures
            r@ == (identifier@, ty@),
    {
        FunctionParam { identifier, ty }
    }

    /// Access the identifier of the parameter.
    pub fn identifier(&self) -> (r: &Identifier)
        ensures
            r@ == self@.0,
    {
        &self.identifier
    }

    /// Access the type of the parameter.
    pub fn ty(&self) -> (r: &ResolvedType)
        ensures
            r@ == self@.1,
    {
        &self.ty
    }
}

/// Assignment of a value to a witness inside a module.
#[derive(Debug, PartialEq, Eq, Hash)]
pub struct ModuleAssignment {
    name: WitnessName,
    value: Value,
    span: Span,
}

impl View for ModuleAssignment {
    type V = (Seq<char>, ValueModel, Span);

    closed spec fn view(&self) -> (Seq<char>, ValueModel, Span) {
        (self.name@, self.value@, self.span)
    }
}

impl ModuleAssignment {
    /// The assignment of `value` to the witness `name`, written at `span`.
    pub fn new(name: WitnessName, value: Value, span: Span) -> (r: ModuleAssignment)
        ensures
            r@ == (name@, value@, span),
    {
        ModuleAssignment { name, value, span }
    }

    /// Access the assigned witness name.
    pub fn name(&self) -> (r: &WitnessName)
        ensures
            r@ == self@.0,
    {
        &self.name
    }

    /// Access the assigned witness value.
    pub fn value(&self) -> (r: &Value)
        ensures
            r@ == self@.1,
    {
        &self.value
    }

    /// Access the span of the assignment.
    pub fn span(&self) -> (r: &Span)
        ensures
            *r == self@.2,
    {
        &self.span
    }
}

/// A module: a named list of witness assignments.
#[derive(Debug, PartialEq, Eq, Hash)]
pub struct Module {
    name: ModuleName,
    assignments: Vec<ModuleAssignment>,
    span: Span,
}

impl Module {
    /// The name of the module.
    pub closed spec fn spec_name(&self) -> Seq<char> {
        self.name@
    }

    /// The assignments of the module, in their order.
    pub closed spec fn spec_assignments(&self) -> Seq<ModuleAssignment> {
        self.assignments@
    }

    /// Where the module is written.
    pub closed spec fn spec_span(&self) -> Span {
        self.span
    }

    /// The module `name` with the given assignments, written at `span`.
    pub fn new(name: ModuleName, assignments: Vec<ModuleAssignment>, span: Span) -> (r: Module)
        ensures
            r.spec_name() == name@,
            r.spec_assignments() == assignments@,
            r.spec_span() == span,
    {
        Module { name, assignments, span }
    }

    /// Access the name of the module.
    pub fn name(&self) -> (r: &ModuleName)
        ensures
            r@ == self.spec_name(),
    {
        &self.name
    }

    /// Access the assignments of the module.
    pub fn assignments(&self) -> (r: &[ModuleAssignment])
        ensures
            r@ == self.spec_assignments(),
    {
        self.assignments.as_slice()
    }

    /// Access the span of the module.
    pub fn span(&self) -> (r: &Span)
        ensures
            *r == self.spec_span(),
    {
        &self.span
    }
}

/// Item when analyzing modules.
#[derive(Debug, PartialEq, Eq, Hash)]
pub enum ModuleItem {
    Ignored,
    Module(Module),
}

/// The bindings of one scope, the later binding of a name hiding the earlier.
pub open spec fn frame_map(frame: Seq<(Identifier, ResolvedType)>) -> Map<Seq<char>, TypeModel>
    decreases frame.len(),
{
    if frame.len() == 0 {
        Map::empty()
    } else {
        frame_map(frame.drop_last()).insert(frame.last().0@, frame.last().1@)
    }
}

/// The type of a variable in a stack of scopes: the binding in the innermost
/// scope that binds the name.
pub open spec fn lookup(frames: Seq<Map<Seq<char>, TypeModel>>, name: Seq<char>) -> Option<TypeModel>
    decreases frames.len(),
{
    if frames.len() == 0 {
        None
    } else if frames.last().contains_key(name) {
        Some(frames.last()[name])
    } else {
        lookup(frames.drop_last(), name)
    }
}

/// The parameter map after declaring `name` with type `ty`, or `None` where
/// the name was declared before with another type.
pub open spec fn declare_parameter(
    parameters: Map<Seq<char>, TypeModel>,
    name: Seq<char>,
    ty: TypeModel,
) -> Option<Map<Seq<char>, TypeModel>> {
    if !parameters.contains_key(name) {
        Some(parameters.insert(name, ty))
    } else if parameters[name] == ty {
        Some(parameters)
    } else {
        None
    }
}

/// The witness map after declaring the witness `name` with type `ty`, or
/// `None` where that is refused: outside the main function, or for a name
/// that was declared before.
pub open spec fn declare_witness(
    in_main: bool,
    witnesses: Map<Seq<char>, TypeModel>,
    name: Seq<char>,
    ty: TypeModel,
) -> Option<Map<Seq<char>, TypeModel>> {
    if in_main && !witnesses.contains_key(name) {
        Some(witnesses.insert(name, ty))
    } else {
        None
    }
}

/// The value bound to `key` by the last entry that binds it, if any.
pub open spec fn last_binding<K, V>(entries: Seq<(K, V)>, key: K) -> Option<V>
    decreases entries.len(),
{
    if entries.len() == 0 {
        None
    } else if entries.last().0 == key {
        Some(entries.last().1)
    } else {
        last_binding(entries.drop_last(), key)
    }
}

pub(crate) proof fn lemma_last_binding_at<K, V>(entries: Seq<(K, V)>, j: int, key: K)
    requires
        0 <= j < entries.len(),
        entries[j].0 == key,
        forall|jj: int| j < jj < entries.len() ==> (#[trigger] entries[jj]).0 != key,
    ensures
        last_binding(entries, key) == Some(entries[j].1),
    decreases entries.len(),
{
    if j < entries.len() - 1 {
        let p = entries.drop_last();
        assert forall|jj: int| j < jj < p.len() implies (#[trigger] p[jj]).0 != key by {
            assert(p[jj] == entries[jj]);
        }
        assert(p[j] == entries[j]);
        assert(entries.last() == entries[entries.len() - 1]);
        lemma_last_binding_at(p, j, key);
    }
}

pub(crate) proof fn lemma_last_binding_none<K, V>(entries: Seq<(K, V)>, key: K)
    requires
        forall|jj: int| 0 <= jj < entries.len() ==> (#[trigger] entries[jj]).0 != key,
    ensures
        last_binding(entries, key) is None,
    decreases entries.len(),
{
    if entries.len() > 0 {
        let p = entries.drop_last();
        assert forall|jj: int| 0 <= jj < p.len() implies (#[trigger] p[jj]).0 != key by {
            assert(p[jj] == entries[jj]);
        }
        assert(entries.last() == entries[entries.len() - 1]);
        lemma_last_binding_none(p, key);
    }
}

/// A name qualified by the file that declares it.
pub type FileScopedAlias = (AliasName, usize);

/// Which alias declarations the files of a project can see: the declaration
/// to which each imported name resolves, and for each file the names that
/// may be used in it.
pub struct SymbolTable {
    resolved_roots: Vec<(FileScopedAlias, FileScopedAlias)>,
    local_scopes: Vec<Vec<AliasName>>,
}

impl SymbolTable {
    /// The imports, each a name in a file with the declaration it resolves to.
    pub closed spec fn roots(&self) -> Seq<((Seq<u8>, usize), (Seq<u8>, usize))> {
        self.resolved_roots@.map_values(
            |e: (FileScopedAlias, FileScopedAlias)| ((e.0.0@, e.0.1), (e.1.0@, e.1.1)),
        )
    }

    /// For each file, the names that may be used in it.
    pub closed spec fn scopes(&self) -> Seq<Seq<Seq<u8>>> {
        self.local_scopes@.map_values(|f: Vec<AliasName>| f@.map_values(|n: AliasName| n@))
    }

    /// The table with the given imports and file scopes.
    pub fn new(resolved_roots: Vec<(FileScopedAlias, FileScopedAlias)>, local_scopes: Vec<Vec<AliasName>>) -> (r: SymbolTable)
        ensures
            r.roots() == resolved_roots@.map_values(
                |e: (FileScopedAlias, FileScopedAlias)| ((e.0.0@, e.0.1), (e.1.0@, e.1.1)),
            ),
            r.scopes() == local_scopes@.map_values(|f: Vec<AliasName>| f@.map_values(|n: AliasName| n@)),
    {
        SymbolTable { resolved_roots, local_scopes }
    }

    /// The declaration that the name `key` resolves to: the import of the last
    /// entry for it, or the name itself where it is not imported.
    pub open spec fn spec_root_of(roots: Seq<((Seq<u8>, usize), (Seq<u8>, usize))>, key: (Seq<u8>, usize)) -> (Seq<u8>, usize) {
        match last_binding(roots, key) {
            Some(root) => root,
            None => key,
        }
    }

    /// The declaration that `name` in file `file_id` resolves to.
    fn root_of(&self, name: &AliasName, file_id: usize) -> (r: FileScopedAlias)
        ensures
            (r.0@, r.1) == Self::spec_root_of(self.roots(), (name@, file_id)),
    {
        let ghost key = (name@, file_id);
        let mut i: usize = self.resolved_roots.len();
        while i > 0
            invariant
                i <= self.resolved_roots.len(),
                key == (name@, file_id),
                forall|jj: int| i <= jj < self.roots().len() ==> (#[trigger] self.roots()[jj]).0 != key,
            decreases i,
        {
            let entry = &self.resolved_roots[i - 1];
            if entry.0.1 == file_id && entry.0.0.same_as(name) {
                proof {
                    assert(self.roots()[i - 1].0 == key);
                    lemma_last_binding_at(self.roots(), i - 1, key);
                }
                return (entry.1.0.copy(), entry.1.1);
            }
            proof {
                assert(self.roots()[i - 1].0 != key);
            }
            i = i - 1;
        }
        proof {
            lemma_last_binding_none(self.roots(), key);
        }
        (name.copy(), file_id)
    }

    /// Whether file `file_id` exists, and if so whether `name` may be used in it.
    fn visible(&self, name: &AliasName, file_id: usize) -> (r: Option<bool>)
        ensures
            file_id >= self.scopes().len() ==> r is None,
            file_id < self.scopes().len() ==> r == Some(self.scopes()[file_id as int].contains(name@)),
    {
        if file_id >= self.local_scopes.len() {
            return None;
        }
        let scope = &self.local_scopes[file_id];
        let ghost names = self.scopes()[file_id as int];
        proof {
            assert(names == scope@.map_values(|n: AliasName| n@));
        }
        let mut i: usize = 0;
        while i < scope.len()
            invariant
                i <= scope.len(),
                names == scope@.map_values(|n: AliasName| n@),
                forall|k: int| 0 <= k < i ==> names[k] != name@,
                file_id < self.scopes().len(),
                names == self.scopes()[file_id as int],
            decreases scope.len() - i,
        {
            if scope[i].same_as(name) {
                proof {
                    assert(names[i as int] == name@);
                }
                return Some(true);
            }
            i = i + 1;
        }
        proof {
            if names.contains(name@) {
                let k = choose|k: int| 0 <= k < names.len() && names[k] == name@;
                assert(k < i);
            }
        }
        Some(false)
    }
}

/// What looking up an alias in a scope finds.
pub enum AliasLookup {
    /// The type for which the alias stands.
    Found(TypeModel),
    /// No declaration of the alias is in the pool of declared aliases.
    Undefined,
    /// The current file is not in the symbol table.
    MissingFile,
    /// The alias is declared but may not be used in the current file.
    Private,
}

/// What looking up a function in a scope finds.
pub enum FunctionLookup {
    /// The declaration of the function.
    Found(CustomFunction),
    /// No declaration of the function is in the pool of declared functions.
    Undefined,
    /// The current file is not in the symbol table.
    MissingFile,
    /// The function is declared but may not be used in the current file.
    Private,
}

/// The leftmost alias in the type that cannot be resolved, if there is one.
pub open spec fn failing_alias(m: TypeModel, lookup: spec_fn(Seq<u8>) -> AliasLookup) -> Option<Seq<u8>>
    decreases m,
{
    match m {
        TypeModel::Alias(name) => if lookup(name) is Found {
            None
        } else {
            Some(name)
        },
        TypeModel::Tuple(es) => failing_alias_of(es, lookup),
        TypeModel::Array(e, _) => failing_alias(*e, lookup),
        TypeModel::List(e, _) => failing_alias(*e, lookup),
        TypeModel::Either(l, r) => if failing_alias(*l, lookup) is Some {
            failing_alias(*l, lookup)
        } else {
            failing_alias(*r, lookup)
        },
        TypeModel::Option(e) => failing_alias(*e, lookup),
        _ => None,
    }
}

/// The leftmost alias that cannot be resolved in a sequence of types.
pub open spec fn failing_alias_of(es: Seq<TypeModel>, lookup: spec_fn(Seq<u8>) -> AliasLookup) -> Option<Seq<u8>>
    decreases es,
{
    if es.len() == 0 {
        None
    } else if failing_alias_of(es.drop_last(), lookup) is Some {
        failing_alias_of(es.drop_last(), lookup)
    } else {
        failing_alias(es.last(), lookup)
    }
}

/// The type with every alias replaced by the type for which it stands.
pub open spec fn resolve_aliases(m: TypeModel, lookup: spec_fn(Seq<u8>) -> AliasLookup) -> TypeModel
    decreases m,
{
    match m {
        TypeModel::Alias(name) => match lookup(name) {
            AliasLookup::Found(t) => t,
            _ => m,
        },
        TypeModel::Builtin(b) => b.spec_resolve(),
        TypeModel::Tuple(es) => TypeModel::Tuple(resolve_aliases_of(es, lookup)),
        TypeModel::Array(e, n) => TypeModel::Array(Box::new(resolve_aliases(*e, lookup)), n),
        TypeModel::List(e, n) => TypeModel::List(Box::new(resolve_aliases(*e, lookup)), n),
        TypeModel::Either(l, r) => TypeModel::Either(
            Box::new(resolve_aliases(*l, lookup)),
            Box::new(resolve_aliases(*r, lookup)),
        ),
        TypeModel::Option(e) => TypeModel::Option(Box::new(resolve_aliases(*e, lookup))),
        _ => m,
    }
}

pub open spec fn resolve_aliases_of(es: Seq<TypeModel>, lookup: spec_fn(Seq<u8>) -> AliasLookup) -> Seq<TypeModel>
    decreases es,
{
    if es.len() == 0 {
        Seq::empty()
    } else {
        resolve_aliases_of(es.drop_last(), lookup).push(resolve_aliases(es.last(), lookup))
    }
}

proof fn lemma_resolve_aliases_of(es: Seq<TypeModel>, lookup: spec_fn(Seq<u8>) -> AliasLookup)
    ensures
        resolve_aliases_of(es, lookup).len() == es.len(),
        forall|i: int| 0 <= i < es.len() ==> #[trigger] resolve_aliases_of(es, lookup)[i] == resolve_aliases(es[i], lookup),
    decreases es.len(),
{
    if es.len() > 0 {
        lemma_resolve_aliases_of(es.drop_last(), lookup);
    }
}

pub(crate) proof fn lemma_failing_alias_prefix(es: Seq<TypeModel>, k: int, lookup: spec_fn(Seq<u8>) -> AliasLookup)
    requires
        0 <= k <= es.len(),
        failing_alias_of(es.take(k), lookup) is Some,
    ensures
        failing_alias_of(es, lookup) == failing_alias_of(es.take(k), lookup),
    decreases es.len(),
{
    if k < es.len() {
        assert(es.drop_last().take(k) =~= es.take(k));
        lemma_failing_alias_prefix(es.drop_last(), k, lookup);
    } else {
        assert(es.take(k) =~= es);
    }
}

/// The error that resolving reports for the alias `name` whose lookup gave `found`.
pub open spec fn alias_error(e: ScopeError, name: Seq<u8>, found: AliasLookup, file_id: usize) -> bool {
    match found {
        AliasLookup::Undefined => e matches ScopeError::UndefinedAlias(n) && n@ == name,
        AliasLookup::MissingFile => e == ScopeError::Internal(file_id),
        AliasLookup::Private => e matches ScopeError::PrivateItem(n) && n@ == name,
        AliasLookup::Found(_) => false,
    }
}

/// Error of declaring or looking up a name in a scope.
#[derive(Debug, PartialEq, Eq)]
pub enum ScopeError {
    /// No declaration of the alias is known.
    UndefinedAlias(AliasName),
    /// The current file is not in the symbol table.
    Internal(usize),
    /// The alias is declared in another file and not imported into the current one.
    PrivateItem(AliasName),
    /// The alias is declared twice in one file.
    RedefinedAlias(AliasName),
    /// No declaration of the function is known.
    FunctionUndefined(AliasName),
    /// The function is declared twice in one file.
    FunctionRedefined(AliasName),
    /// The parameter was declared with the first type and is declared again with the second.
    ExpressionTypeMismatch(ResolvedType, ResolvedType),
    /// A witness is declared outside the main function.
    WitnessOutsideMain,
    /// The witness was declared before.
    WitnessReused(WitnessName),
}

/// A scope error with its names and types as plain values.
pub enum ScopeErrorModel {
    UndefinedAlias(Seq<u8>),
    Internal(usize),
    PrivateItem(Seq<u8>),
    RedefinedAlias(Seq<u8>),
    FunctionUndefined(Seq<u8>),
    FunctionRedefined(Seq<u8>),
    ExpressionTypeMismatch(TypeModel, TypeModel),
    WitnessOutsideMain,
    WitnessReused(Seq<char>),
}

impl View for ScopeError {
    type V = ScopeErrorModel;

    open spec fn view(&self) -> ScopeErrorModel {
        match self {
            ScopeError::UndefinedAlias(n) => ScopeErrorModel::UndefinedAlias(n@),
            ScopeError::Internal(f) => ScopeErrorModel::Internal(*f),
            ScopeError::PrivateItem(n) => ScopeErrorModel::PrivateItem(n@),
            ScopeError::RedefinedAlias(n) => ScopeErrorModel::RedefinedAlias(n@),
            ScopeError::FunctionUndefined(n) => ScopeErrorModel::FunctionUndefined(n@),
            ScopeError::FunctionRedefined(n) => ScopeErrorModel::FunctionRedefined(n@),
            ScopeError::ExpressionTypeMismatch(a, b) => ScopeErrorModel::ExpressionTypeMismatch(a@, b@),
            ScopeError::WitnessOutsideMain => ScopeErrorModel::WitnessOutsideMain,
            ScopeError::WitnessReused(n) => ScopeErrorModel::WitnessReused(n@),
        }
    }
}

/// The error that looking up the alias `name` from `file_id` gives where the
/// lookup finds no usable declaration; see [`alias_error`].
pub open spec fn alias_error_model(name: Seq<u8>, found: AliasLookup, file_id: usize) -> ScopeErrorModel {
    match found {
        AliasLookup::MissingFile => ScopeErrorModel::Internal(file_id),
        AliasLookup::Private => ScopeErrorModel::PrivateItem(name),
        _ => ScopeErrorModel::UndefinedAlias(name),
    }
}

/// The scope in which a program is analyzed: a stack of variable scopes,
/// innermost last, and the parameters and witnesses declared so far.
pub struct Scope {
    file_id: usize,
    variables: Vec<Vec<(Identifier, ResolvedType)>>,
    aliases: Vec<(FileScopedAlias, ResolvedType)>,
    aliases_table: SymbolTable,
    functions: Vec<(FileScopedAlias, CustomFunction)>,
    functions_table: SymbolTable,
    parameters: Parameters,
    witnesses: WitnessTypes,
    is_main: bool,
}

impl Scope {
    /// The parameter and witness maps have no name twice.
    pub closed spec fn wf(&self) -> bool {
        self.parameters.wf() && self.witnesses.wf()
    }

    /// The variable scopes, innermost last.
    pub closed spec fn frames(&self) -> Seq<Map<Seq<char>, TypeModel>> {
        self.variables@.map_values(|f: Vec<(Identifier, ResolvedType)>| frame_map(f@))
    }

    /// The declared parameters with their types.
    pub closed spec fn parameter_map(&self) -> Map<Seq<char>, TypeModel> {
        self.parameters.map()
    }

    /// The declared witnesses with their types.
    pub closed spec fn witness_map(&self) -> Map<Seq<char>, TypeModel> {
        self.witnesses.map()
    }

    /// Whether the scope is inside the main function.
    pub closed spec fn in_main(&self) -> bool {
        self.is_main
    }

    /// The file whose items are in scope.
    pub closed spec fn spec_file_id(&self) -> usize {
        self.file_id
    }

    /// The declared aliases, each with the file that declares it and the type
    /// for which it stands, in the order of their declaration.
    pub closed spec fn alias_pool(&self) -> Seq<((Seq<u8>, usize), TypeModel)> {
        self.aliases@.map_values(|e: (FileScopedAlias, ResolvedType)| ((e.0.0@, e.0.1), e.1@))
    }

    /// The imports of the symbol table.
    pub closed spec fn table_roots(&self) -> Seq<((Seq<u8>, usize), (Seq<u8>, usize))> {
        self.aliases_table.roots()
    }

    /// The file scopes of the symbol table.
    pub closed spec fn table_scopes(&self) -> Seq<Seq<Seq<u8>>> {
        self.aliases_table.scopes()
    }

    /// Everything that alias lookups read besides the current file.
    pub open spec fn alias_state(&self) -> (Seq<((Seq<u8>, usize), TypeModel)>, Seq<((Seq<u8>, usize), (Seq<u8>, usize))>, Seq<Seq<Seq<u8>>>) {
        (self.alias_pool(), self.table_roots(), self.table_scopes())
    }

    /// The type of the alias declared as `key`, if it is declared.
    pub open spec fn alias_of(&self, key: (Seq<u8>, usize)) -> Option<TypeModel> {
        last_binding(self.alias_pool(), key)
    }

    /// What looking up the alias `name` from the current file finds: its
    /// declaration through the imports, checked for existence before
    /// visibility.
    pub open spec fn alias_lookup(&self, name: Seq<u8>) -> AliasLookup {
        let global = SymbolTable::spec_root_of(self.table_roots(), (name, self.spec_file_id()));
        match self.alias_of(global) {
            None => AliasLookup::Undefined,
            Some(t) => if self.spec_file_id() >= self.table_scopes().len() {
                AliasLookup::MissingFile
            } else if !self.table_scopes()[self.spec_file_id() as int].contains(name) {
                AliasLookup::Private
            } else {
                AliasLookup::Found(t)
            },
        }
    }

    /// The declared functions, each with the file that declares it, in the
    /// order of their declaration.
    pub closed spec fn function_pool(&self) -> Seq<((Seq<u8>, usize), CustomFunction)> {
        self.functions@.map_values(|e: (FileScopedAlias, CustomFunction)| ((e.0.0@, e.0.1), e.1))
    }

    /// The imports of the function symbol table.
    pub closed spec fn function_roots(&self) -> Seq<((Seq<u8>, usize), (Seq<u8>, usize))> {
        self.functions_table.roots()
    }

    /// The file scopes of the function symbol table.
    pub closed spec fn function_scopes(&self) -> Seq<Seq<Seq<u8>>> {
        self.functions_table.scopes()
    }

    /// Everything that function lookups read besides the current file.
    pub open spec fn function_state(&self) -> (Seq<((Seq<u8>, usize), CustomFunction)>, Seq<((Seq<u8>, usize), (Seq<u8>, usize))>, Seq<Seq<Seq<u8>>>) {
        (self.function_pool(), self.function_roots(), self.function_scopes())
    }

    /// The function declared as `key`, if it is declared.
    pub open spec fn function_of(&self, key: (Seq<u8>, usize)) -> Option<CustomFunction> {
        last_binding(self.function_pool(), key)
    }

    /// What looking up the function `name` from the current file finds, with
    /// the same priorities as an alias lookup.
    pub open spec fn function_lookup(&self, name: Seq<u8>) -> FunctionLookup {
        let global = SymbolTable::spec_root_of(self.function_roots(), (name, self.spec_file_id()));
        match self.function_of(global) {
            None => FunctionLookup::Undefined,
            Some(f) => if self.spec_file_id() >= self.function_scopes().len() {
                FunctionLookup::MissingFile
            } else if !self.function_scopes()[self.spec_file_id() as int].contains(name) {
                FunctionLookup::Private
            } else {
                FunctionLookup::Found(f)
            },
        }
    }

    /// [`Scope::alias_lookup`] as a function.
    pub open spec fn lookup_fn(&self) -> spec_fn(Seq<u8>) -> AliasLookup {
        |n: Seq<u8>| self.alias_lookup(n)
    }

    /// The empty scope of the file `file_id`, outside the main function,
    /// whose aliases and functions are visible as `aliases_table` and
    /// `functions_table` say.
    pub fn new(file_id: usize, aliases_table: SymbolTable, functions_table: SymbolTable) -> (r: Scope)
        ensures
            r.function_pool() == Seq::<((Seq<u8>, usize), CustomFunction)>::empty(),
            r.function_roots() == functions_table.roots(),
            r.function_scopes() == functions_table.scopes(),
            r.wf(),
            r.frames() == Seq::<Map<Seq<char>, TypeModel>>::empty(),
            r.parameter_map() == Map::<Seq<char>, TypeModel>::empty(),
            r.witness_map() == Map::<Seq<char>, TypeModel>::empty(),
            r.alias_pool() == Seq::<((Seq<u8>, usize), TypeModel)>::empty(),
            r.table_roots() == aliases_table.roots(),
            r.table_scopes() == aliases_table.scopes(),
            !r.in_main(),
            r.spec_file_id() == file_id,
    {
        let r = Scope {
            file_id,
            variables: Vec::new(),
            aliases: Vec::new(),
            aliases_table,
            functions: Vec::new(),
            functions_table,
            parameters: NameMap::new(),
            witnesses: NameMap::new(),
            is_main: false,
        };
        assert(r.frames() =~= Seq::<Map<Seq<char>, TypeModel>>::empty());
        assert(r.alias_pool() =~= Seq::<((Seq<u8>, usize), TypeModel)>::empty());
        assert(r.function_pool() =~= Seq::<((Seq<u8>, usize), CustomFunction)>::empty());
        r
    }

    /// Make `file_id` the current file.
    pub fn set_file_id(&mut self, file_id: usize)
        ensures
            final(self).spec_file_id() == file_id,
            final(self).wf() == old(self).wf(),
            final(self).frames() == old(self).frames(),
            final(self).parameter_map() == old(self).parameter_map(),
            final(self).witness_map() == old(self).witness_map(),
            final(self).alias_state() == old(self).alias_state(),
            final(self).function_state() == old(self).function_state(),
            final(self).in_main() == old(self).in_main(),
    {
        self.file_id = file_id;
    }

    /// The file whose items are in scope.
    pub fn file_id(&self) -> (r: usize)
        ensures
            r == self.spec_file_id(),
    {
        self.file_id
    }

    /// Check if the current scope is topmost.
    pub fn is_topmost(&self) -> (r: bool)
        ensures
            r == (self.frames().len() == 0),
    {
        self.variables.len() == 0
    }

    /// Push a new scope onto the stack.
    pub fn push_scope(&mut self)
        ensures
            final(self).frames() == old(self).frames().push(Map::<Seq<char>, TypeModel>::empty()),
            final(self).wf() == old(self).wf(),
            final(self).parameter_map() == old(self).parameter_map(),
            final(self).witness_map() == old(self).witness_map(),
            final(self).in_main() == old(self).in_main(),
            final(self).spec_file_id() == old(self).spec_file_id(),
            final(self).alias_state() == old(self).alias_state(),
            final(self).function_state() == old(self).function_state(),
    {
        let ghost before = self.variables@;
        let fresh: Vec<(Identifier, ResolvedType)> = Vec::new();
        let ghost g = fresh;
        self.variables.push(fresh);
        proof {
            assert(self.variables@ =~= before.push(g));
            assert(g@ =~= Seq::<(Identifier, ResolvedType)>::empty());
            assert(frame_map(Seq::<(Identifier, ResolvedType)>::empty()) == Map::<Seq<char>, TypeModel>::empty());
            assert(self.frames() =~= old(self).frames().push(Map::<Seq<char>, TypeModel>::empty()));
        }
    }

    /// Push the scope of the main function onto the stack.
    ///
    /// The current scope is not inside the main function and is topmost.
    pub fn push_main_scope(&mut self)
        requires
            !old(self).in_main(),
            old(self).frames().len() == 0,
        ensures
            final(self).frames() == seq![Map::<Seq<char>, TypeModel>::empty()],
            final(self).wf() == old(self).wf(),
            final(self).parameter_map() == old(self).parameter_map(),
            final(self).witness_map() == old(self).witness_map(),
            final(self).in_main(),
            final(self).spec_file_id() == old(self).spec_file_id(),
            final(self).alias_state() == old(self).alias_state(),
            final(self).function_state() == old(self).function_state(),
    {
        self.push_scope();
        self.is_main = true;
        proof {
            assert(old(self).frames() =~= Seq::<Map<Seq<char>, TypeModel>>::empty());
            assert(self.frames() =~= seq![Map::<Seq<char>, TypeModel>::empty()]);
        }
    }

    /// Pop the current scope from the stack, which is not empty.
    pub fn pop_scope(&mut self)
        requires
            old(self).frames().len() > 0,
        ensures
            final(self).frames() == old(self).frames().drop_last(),
            final(self).wf() == old(self).wf(),
            final(self).parameter_map() == old(self).parameter_map(),
            final(self).witness_map() == old(self).witness_map(),
            final(self).in_main() == old(self).in_main(),
            final(self).spec_file_id() == old(self).spec_file_id(),
            final(self).alias_state() == old(self).alias_state(),
            final(self).function_state() == old(self).function_state(),
    {
        let ghost before = self.variables@;
        let _ = self.variables.pop();
        proof {
            assert(self.variables@ =~= before.drop_last());
            assert(self.frames() =~= old(self).frames().drop_last());
        }
    }

    /// Pop the scope of the main function from the stack.
    ///
    /// The current scope is the main function's, nested in the topmost scope.
    pub fn pop_main_scope(&mut self)
        requires
            old(self).in_main(),
            old(self).frames().len() == 1,
        ensures
            final(self).frames() == Seq::<Map<Seq<char>, TypeModel>>::empty(),
            final(self).wf() == old(self).wf(),
            final(self).parameter_map() == old(self).parameter_map(),
            final(self).witness_map() == old(self).witness_map(),
            !final(self).in_main(),
            final(self).spec_file_id() == old(self).spec_file_id(),
            final(self).alias_state() == old(self).alias_state(),
            final(self).function_state() == old(self).function_state(),
    {
        self.pop_scope();
        self.is_main = false;
        proof {
            assert(self.frames() =~= Seq::<Map<Seq<char>, TypeModel>>::empty());
        }
    }

    /// Bind a variable in the current scope, which exists.
    pub fn insert_variable(&mut self, identifier: Identifier, ty: ResolvedType)
        requires
            old(self).frames().len() > 0,
        ensures
            final(self).frames() == old(self).frames().update(
                old(self).frames().len() - 1,
                old(self).frames().last().insert(identifier@, ty@),
            ),
            final(self).wf() == old(self).wf(),
            final(self).parameter_map() == old(self).parameter_map(),
            final(self).witness_map() == old(self).witness_map(),
            final(self).in_main() == old(self).in_main(),
            final(self).spec_file_id() == old(self).spec_file_id(),
            final(self).alias_state() == old(self).alias_state(),
            final(self).function_state() == old(self).function_state(),
    {
        let ghost before = self.variables@;
        let ghost id = identifier@;
        let ghost t = ty@;
        let mut frame = self.variables.pop().unwrap();
        let ghost f0 = frame@;
        frame.push((identifier, ty));
        proof {
            assert(frame@.drop_last() =~= f0);
            assert(frame_map(frame@) == frame_map(f0).insert(id, t));
        }
        self.variables.push(frame);
        proof {
            assert(self.variables@ =~= before.update(before.len() - 1, frame));
            assert(self.frames() =~= old(self).frames().update(
                old(self).frames().len() - 1,
                old(self).frames().last().insert(id, t),
            ));
        }
    }

    /// Get the type of the variable: its binding in the innermost scope that binds it.
    pub fn get_variable(&self, identifier: &Identifier) -> (r: Option<&ResolvedType>)
        ensures
            r matches Some(t) ==> lookup(self.frames(), identifier@) == Some(t@),
            r is None ==> lookup(self.frames(), identifier@) is None,
    {
        let ghost k = identifier@;
        let mut i: usize = self.variables.len();
        while i > 0
            invariant
                i <= self.variables.len(),
                forall|ii: int| i <= ii < self.variables@.len() ==> !(#[trigger] self.frames()[ii]).contains_key(k),
                k == identifier@,
            decreases i,
        {
            let frame = &self.variables[i - 1];
            let mut j: usize = frame.len();
            while j > 0
                invariant
                    j <= frame.len(),
                    forall|jj: int| j <= jj < frame@.len() ==> (#[trigger] frame@[jj]).0@ != k,
                    k == identifier@,
                    0 < i <= self.variables.len(),
                    *frame == self.variables@[i - 1],
                    forall|ii: int| i <= ii < self.variables@.len() ==> !(#[trigger] self.frames()[ii]).contains_key(k),
                decreases j,
            {
                if frame[j - 1].0.same_as(identifier) {
                    proof {
                        lemma_frame_latest(frame@, j - 1, k);
                        assert(self.frames()[i - 1] == frame_map(frame@));
                        lemma_lookup_at(self.frames(), i - 1, k);
                    }
                    return Some(&frame[j - 1].1);
                }
                j = j - 1;
            }
            proof {
                lemma_frame_absent(frame@, k);
                assert(self.frames()[i - 1] == frame_map(frame@));
            }
            i = i - 1;
        }
        proof {
            lemma_lookup_absent(self.frames(), k);
        }
        None
    }

    /// Declare a parameter.
    ///
    /// Declaring a parameter again with the same type changes nothing; with
    /// another type it is refused.
    pub fn insert_parameter(&mut self, name: WitnessName, ty: ResolvedType) -> (r: Result<(), ScopeError>)
        requires
            old(self).wf(),
        ensures
            final(self).wf(),
            declare_parameter(old(self).parameter_map(), name@, ty@) matches Some(m) ==> {
                &&& r is Ok
                &&& final(self).parameter_map() == m
            },
            declare_parameter(old(self).parameter_map(), name@, ty@) is None ==> {
                &&& r matches Err(ScopeError::ExpressionTypeMismatch(declared, given))
                &&& declared@ == old(self).parameter_map()[name@]
                &&& given@ == ty@
                &&& final(self).parameter_map() == old(self).parameter_map()
            },
            final(self).frames() == old(self).frames(),
            final(self).witness_map() == old(self).witness_map(),
            final(self).in_main() == old(self).in_main(),
            final(self).spec_file_id() == old(self).spec_file_id(),
            final(self).alias_state() == old(self).alias_state(),
            final(self).function_state() == old(self).function_state(),
    {
        match self.parameters.get(&name) {
            Some(declared) => {
                if declared.same_as(&ty) {
                    Ok(())
                } else {
                    Err(ScopeError::ExpressionTypeMismatch(declared.copy(), ty))
                }
            },
            None => {
                self.parameters.insert_new(name, ty);
                Ok(())
            },
        }
    }

    /// Declare a witness.
    ///
    /// Witnesses are declared inside the main function only, each name once.
    pub fn insert_witness(&mut self, name: WitnessName, ty: ResolvedType) -> (r: Result<(), ScopeError>)
        requires
            old(self).wf(),
        ensures
            final(self).wf(),
            declare_witness(old(self).in_main(), old(self).witness_map(), name@, ty@) matches Some(m) ==> {
                &&& r is Ok
                &&& final(self).witness_map() == m
            },
            !old(self).in_main() ==> r == Err::<(), ScopeError>(ScopeError::WitnessOutsideMain),
            old(self).in_main() && old(self).witness_map().contains_key(name@) ==> {
                &&& r matches Err(ScopeError::WitnessReused(n))
                &&& n@ == name@
            },
            r is Err ==> final(self).witness_map() == old(self).witness_map(),
            final(self).frames() == old(self).frames(),
            final(self).parameter_map() == old(self).parameter_map(),
            final(self).in_main() == old(self).in_main(),
            final(self).spec_file_id() == old(self).spec_file_id(),
            final(self).alias_state() == old(self).alias_state(),
            final(self).function_state() == old(self).function_state(),
    {
        if !self.is_main {
            return Err(ScopeError::WitnessOutsideMain);
        }
        match self.witnesses.get(&name) {
            Some(_) => Err(ScopeError::WitnessReused(name)),
            None => {
                self.witnesses.insert_new(name, ty);
                Ok(())
            },
        }
    }

    /// The type of the alias declared as `name` in file `file`, if it is declared.
    fn pool_get(&self, name: &AliasName, file: usize) -> (r: Option<&ResolvedType>)
        ensures
            r matches Some(t) ==> self.alias_of((name@, file)) == Some(t@),
            r is None ==> self.alias_of((name@, file)) is None,
    {
        let ghost key = (name@, file);
        let mut i: usize = self.aliases.len();
        while i > 0
            invariant
                i <= self.aliases.len(),
                key == (name@, file),
                forall|jj: int| i <= jj < self.alias_pool().len() ==> (#[trigger] self.alias_pool()[jj]).0 != key,
            decreases i,
        {
            let entry = &self.aliases[i - 1];
            if entry.0.1 == file && entry.0.0.same_as(name) {
                proof {
                    assert(self.alias_pool()[i - 1].0 == key);
                    lemma_last_binding_at(self.alias_pool(), i - 1, key);
                }
                return Some(&entry.1);
            }
            proof {
                assert(self.alias_pool()[i - 1].0 != key);
            }
            i = i - 1;
        }
        proof {
            lemma_last_binding_none(self.alias_pool(), key);
        }
        None
    }

    /// The type for which the alias `name` stands, looked up from the current file.
    ///
    /// The name is first resolved through the imports to its declaration. A
    /// name without a declaration is undefined; a declared one must be visible
    /// in the current file.
    pub fn get_alias(&self, name: &AliasName) -> (r: Result<ResolvedType, ScopeError>)
        ensures
            self.alias_lookup(name@) matches AliasLookup::Found(t) ==> (r matches Ok(u) && u@ == t),
            !(self.alias_lookup(name@) is Found) ==> (r matches Err(e) && alias_error(
                e,
                name@,
                self.alias_lookup(name@),
                self.spec_file_id(),
            )),
    {
        let root = self.aliases_table.root_of(name, self.file_id);
        match self.pool_get(&root.0, root.1) {
            None => Err(ScopeError::UndefinedAlias(name.copy())),
            Some(t) => match self.aliases_table.visible(name, self.file_id) {
                None => Err(ScopeError::Internal(self.file_id)),
                Some(false) => Err(ScopeError::PrivateItem(name.copy())),
                Some(true) => Ok(t.copy()),
            },
        }
    }

    /// Resolve a type with aliases to a type without aliases.
    ///
    /// Fails on the leftmost alias that cannot be looked up, with the error of
    /// its lookup.
    pub fn resolve(&self, ty: &AliasedType) -> (r: Result<ResolvedType, ScopeError>)
        ensures
            failing_alias(ty@, self.lookup_fn()) is None ==> (r matches Ok(t) && t@ == resolve_aliases(
                ty@,
                self.lookup_fn(),
            )),
            failing_alias(ty@, self.lookup_fn()) matches Some(a) ==> (r matches Err(e) && alias_error(
                e,
                a,
                self.alias_lookup(a),
                self.spec_file_id(),
            )),
        decreases ty,
    {
        let ghost lookup = self.lookup_fn();
        match ty {
            AliasedType::Alias(name) => {
                assert(lookup(name@) == self.alias_lookup(name@));
                self.get_alias(name)
            },
            AliasedType::Builtin(b) => Ok(b.resolve()),
            AliasedType::Boolean => Ok(ResolvedType::Boolean),
            AliasedType::UInt(u) => Ok(ResolvedType::UInt(*u)),
            AliasedType::Tuple(es) => {
                proof {
                    AliasedType::lemma_models(es@);
                }
                let ghost ms = AliasedType::models(es@);
                let mut out: Vec<ResolvedType> = Vec::new();
                let mut i: usize = 0;
                while i < es.len()
                    invariant
                        i <= es.len(),
                        lookup == self.lookup_fn(),
                        ms == AliasedType::models(es@),
                        ms.len() == es.len(),
                        forall|j: int| 0 <= j < es.len() ==> #[trigger] ms[j] == es@[j].model(),
                        failing_alias_of(ms.take(i as int), lookup) is None,
                        ResolvedType::models(out@) == resolve_aliases_of(ms.take(i as int), lookup),
                        *ty == AliasedType::Tuple(*es),
                    decreases es.len() - i,
                {
                    proof {
                        assert((*ty)->Tuple_0 == *es);
                        assert(decreases_to!(*ty => (*ty)->Tuple_0));
                        assert(decreases_to!(*es => es@));
                        assert(decreases_to!(es@ => es@[i as int]));
                        assert(decreases_to!(*ty => es@[i as int]));
                        assert(ms.take(i + 1).drop_last() =~= ms.take(i as int));
                    }
                    match self.resolve(&es[i]) {
                        Ok(t) => {
                            let ghost v0 = out@;
                            out.push(t);
                            proof {
                                assert(out@.drop_last() =~= v0);
                            }
                        },
                        Err(e) => {
                            proof {
                                assert(failing_alias_of(ms.take(i + 1), lookup) == failing_alias(ms[i as int], lookup));
                                lemma_failing_alias_prefix(ms, i + 1, lookup);
                            }
                            return Err(e);
                        },
                    }
                    i = i + 1;
                }
                proof {
                    assert(ms.take(es.len() as int) =~= ms);
                }
                Ok(ResolvedType::Tuple(out))
            },
            AliasedType::Array(e, n) => match self.resolve(e) {
                Ok(t) => Ok(ResolvedType::Array(Box::new(t), *n)),
                Err(a) => Err(a),
            },
            AliasedType::List(e, n) => match self.resolve(e) {
                Ok(t) => Ok(ResolvedType::List(Box::new(t), *n)),
                Err(a) => Err(a),
            },
            AliasedType::Either(l, r) => match self.resolve(l) {
                Ok(tl) => match self.resolve(r) {
                    Ok(tr) => Ok(ResolvedType::Either(Box::new(tl), Box::new(tr))),
                    Err(a) => Err(a),
                },
                Err(a) => Err(a),
            },
            AliasedType::Option(e) => match self.resolve(e) {
                Ok(t) => Ok(ResolvedType::Option(Box::new(t))),
                Err(a) => Err(a),
            },
        }
    }

    /// Declare the alias `name` in the current file as standing for `ty`,
    /// resolved.
    ///
    /// An alias may be declared once per file; the type must resolve.
    pub fn insert_alias(&mut self, name: AliasName, ty: AliasedType) -> (r: Result<(), ScopeError>)
        ensures
            old(self).alias_of((name@, old(self).spec_file_id())) is Some ==> {
                &&& r matches Err(ScopeError::RedefinedAlias(n)) && n@ == name@
                &&& final(self).alias_state() == old(self).alias_state()
            },
            old(self).alias_of((name@, old(self).spec_file_id())) is None ==> (failing_alias(ty@, old(self).lookup_fn())
                matches Some(a) ==> {
                &&& r matches Err(e) && alias_error(e, a, old(self).alias_lookup(a), old(self).spec_file_id())
                &&& final(self).alias_state() == old(self).alias_state()
            }),
            old(self).alias_of((name@, old(self).spec_file_id())) is None && failing_alias(ty@, old(self).lookup_fn())
                is None ==> {
                &&& r is Ok
                &&& final(self).alias_pool() == old(self).alias_pool().push(
                    ((name@, old(self).spec_file_id()), resolve_aliases(ty@, old(self).lookup_fn())),
                )
                &&& final(self).alias_of((name@, old(self).spec_file_id())) == Some(
                    resolve_aliases(ty@, old(self).lookup_fn()),
                )
                &&& final(self).table_roots() == old(self).table_roots()
                &&& final(self).table_scopes() == old(self).table_scopes()
            },
            final(self).wf() == old(self).wf(),
            final(self).frames() == old(self).frames(),
            final(self).parameter_map() == old(self).parameter_map(),
            final(self).witness_map() == old(self).witness_map(),
            final(self).in_main() == old(self).in_main(),
            final(self).spec_file_id() == old(self).spec_file_id(),
            final(self).function_state() == old(self).function_state(),
    {
        if self.pool_get(&name, self.file_id).is_some() {
            return Err(ScopeError::RedefinedAlias(name));
        }
        let t = match self.resolve(&ty) {
            Ok(t) => t,
            Err(e) => return Err(e),
        };
        let ghost before = self.aliases@;
        let ghost entry = ((name@, self.file_id), t@);
        let file = self.file_id;
        self.aliases.push(((name, file), t));
        proof {
            assert(self.alias_pool() =~= old(self).alias_pool().push(entry));
            assert(self.alias_pool().last() == entry);
        }
        Ok(())
    }

    /// The function declared as `name` in file `file`, if it is declared.
    fn function_pool_get(&self, name: &AliasName, file: usize) -> (r: Option<&CustomFunction>)
        ensures
            r matches Some(f) ==> self.function_of((name@, file)) == Some(*f),
            r is None ==> self.function_of((name@, file)) is None,
    {
        let ghost key = (name@, file);
        let mut i: usize = self.functions.len();
        while i > 0
            invariant
                i <= self.functions.len(),
                key == (name@, file),
                forall|jj: int| i <= jj < self.function_pool().len() ==> (#[trigger] self.function_pool()[jj]).0 != key,
            decreases i,
        {
            let entry = &self.functions[i - 1];
            if entry.0.1 == file && entry.0.0.same_as(name) {
                proof {
                    assert(self.function_pool()[i - 1].0 == key);
                    lemma_last_binding_at(self.function_pool(), i - 1, key);
                }
                return Some(&entry.1);
            }
            proof {
                assert(self.function_pool()[i - 1].0 != key);
            }
            i = i - 1;
        }
        proof {
            lemma_last_binding_none(self.function_pool(), key);
        }
        None
    }

    /// Declare the function `name` in the current file.
    ///
    /// A function may be declared once per file.
    pub fn insert_function(&mut self, name: AliasName, function: CustomFunction) -> (r: Result<(), ScopeError>)
        ensures
            old(self).function_of((name@, old(self).spec_file_id())) is Some ==> {
                &&& r matches Err(ScopeError::FunctionRedefined(n)) && n@ == name@
                &&& final(self).function_state() == old(self).function_state()
            },
            old(self).function_of((name@, old(self).spec_file_id())) is None ==> {
                &&& r is Ok
                &&& final(self).function_pool() == old(self).function_pool().push(
                    ((name@, old(self).spec_file_id()), function),
                )
                &&& final(self).function_roots() == old(self).function_roots()
                &&& final(self).function_scopes() == old(self).function_scopes()
            },
            final(self).wf() == old(self).wf(),
            final(self).frames() == old(self).frames(),
            final(self).parameter_map() == old(self).parameter_map(),
            final(self).witness_map() == old(self).witness_map(),
            final(self).alias_state() == old(self).alias_state(),
            final(self).in_main() == old(self).in_main(),
            final(self).spec_file_id() == old(self).spec_file_id(),
    {
        if self.function_pool_get(&name, self.file_id).is_some() {
            return Err(ScopeError::FunctionRedefined(name));
        }
        let ghost entry = ((name@, self.file_id), function);
        let file = self.file_id;
        self.functions.push(((name, file), function));
        proof {
            assert(self.function_pool() =~= old(self).function_pool().push(entry));
        }
        Ok(())
    }

    /// The function `name`, looked up from the current file with the same
    /// priorities as an alias: undefined before missing file before private.
    pub fn get_function(&self, name: &AliasName) -> (r: Result<&CustomFunction, ScopeError>)
        ensures
            self.function_lookup(name@) matches FunctionLookup::Found(f) ==> (r matches Ok(g) && *g == f),
            self.function_lookup(name@) is Undefined ==> (r matches Err(ScopeError::FunctionUndefined(n)) && n@ == name@),
            self.function_lookup(name@) is MissingFile ==> r == Err::<&CustomFunction, ScopeError>(ScopeError::Internal(self.spec_file_id())),
            self.function_lookup(name@) is Private ==> (r matches Err(ScopeError::PrivateItem(n)) && n@ == name@),
    {
        let root = self.functions_table.root_of(name, self.file_id);
        match self.function_pool_get(&root.0, root.1) {
            None => Err(ScopeError::FunctionUndefined(name.copy())),
            Some(f) => match self.functions_table.visible(name, self.file_id) {
                None => Err(ScopeError::Internal(self.file_id)),
                Some(false) => Err(ScopeError::PrivateItem(name.copy())),
                Some(true) => Ok(f),
            },
        }
    }

    /// Consume the scope and return the declared parameters and witnesses.
    pub fn destruct(self) -> (r: (Parameters, WitnessTypes))
        requires
            self.wf(),
        ensures
            r.0.wf() && r.1.wf(),
            r.0.map() == self.parameter_map(),
            r.1.map() == self.witness_map(),
    {
        (self.parameters, self.witnesses)
    }
}

proof fn lemma_frame_latest(frame: Seq<(Identifier, ResolvedType)>, j: int, k: Seq<char>)
    requires
        0 <= j < frame.len(),
        frame[j].0@ == k,
        forall|jj: int| j < jj < frame.len() ==> (#[trigger] frame[jj]).0@ != k,
    ensures
        frame_map(frame).contains_key(k),
        frame_map(frame)[k] == frame[j].1@,
    decreases frame.len(),
{
    if j < frame.len() - 1 {
        let p = frame.drop_last();
        assert forall|jj: int| j < jj < p.len() implies (#[trigger] p[jj]).0@ != k by {
            assert(p[jj] == frame[jj]);
        }
        assert(p[j] == frame[j]);
        lemma_frame_latest(p, j, k);
        assert(frame.last() == frame[frame.len() - 1]);
    }
}

proof fn lemma_frame_absent(frame: Seq<(Identifier, ResolvedType)>, k: Seq<char>)
    requires
        forall|jj: int| 0 <= jj < frame.len() ==> (#[trigger] frame[jj]).0@ != k,
    ensures
        !frame_map(frame).contains_key(k),
    decreases frame.len(),
{
    if frame.len() > 0 {
        let p = frame.drop_last();
        assert forall|jj: int| 0 <= jj < p.len() implies (#[trigger] p[jj]).0@ != k by {
            assert(p[jj] == frame[jj]);
        }
        lemma_frame_absent(p, k);
        assert(frame.last() == frame[frame.len() - 1]);
    }
}

proof fn lemma_lookup_at(frames: Seq<Map<Seq<char>, TypeModel>>, i: int, k: Seq<char>)
    requires
        0 <= i < frames.len(),
        frames[i].contains_key(k),
        forall|ii: int| i < ii < frames.len() ==> !(#[trigger] frames[ii]).contains_key(k),
    ensures
        lookup(frames, k) == Some(frames[i][k]),
    decreases frames.len(),
{
    if i < frames.len() - 1 {
        let p = frames.drop_last();
        assert forall|ii: int| i < ii < p.len() implies !(#[trigger] p[ii]).contains_key(k) by {
            assert(p[ii] == frames[ii]);
        }
        assert(p[i] == frames[i]);
        assert(!frames[frames.len() - 1].contains_key(k));
        lemma_lookup_at(p, i, k);
    }
}

proof fn lemma_lookup_absent(frames: Seq<Map<Seq<char>, TypeModel>>, k: Seq<char>)
    requires
        forall|ii: int| 0 <= ii < frames.len() ==> !(#[trigger] frames[ii]).contains_key(k),
    ensures
        lookup(frames, k) is None,
    decreases frames.len(),
{
    if frames.len() > 0 {
        let p = frames.drop_last();
        assert forall|ii: int| 0 <= ii < p.len() implies !(#[trigger] p[ii]).contains_key(k) by {
            assert(p[ii] == frames[ii]);
        }
        assert(!frames[frames.len() - 1].contains_key(k));
        lemma_lookup_absent(p, k);
    }
}

/// A variable bound in the current scope has the type it was bound with.
pub proof fn law_variable_after_binding(
    frames: Seq<Map<Seq<char>, TypeModel>>,
    name: Seq<char>,
    ty: TypeModel,
)
    requires
        frames.len() > 0,
    ensures
        lookup(frames.update(frames.len() - 1, frames.last().insert(name, ty)), name) == Some(ty),
{
}

/// Binding a variable leaves the types of the other variables unchanged.
pub proof fn law_binding_leaves_others(
    frames: Seq<Map<Seq<char>, TypeModel>>,
    name: Seq<char>,
    ty: TypeModel,
    other: Seq<char>,
)
    requires
        frames.len() > 0,
        other != name,
    ensures
        lookup(frames.update(frames.len() - 1, frames.last().insert(name, ty)), other) == lookup(frames, other),
{
    let g = frames.update(frames.len() - 1, frames.last().insert(name, ty));
    assert(g.drop_last() =~= frames.drop_last());
}

/// Pushing a scope and popping it again leaves the variables as they were;
/// an empty inner scope hides nothing.
pub proof fn law_push_then_pop(frames: Seq<Map<Seq<char>, TypeModel>>, name: Seq<char>)
    ensures
        frames.push(Map::<Seq<char>, TypeModel>::empty()).drop_last() == frames,
        lookup(frames.push(Map::<Seq<char>, TypeModel>::empty()), name) == lookup(frames, name),
{
    assert(frames.push(Map::<Seq<char>, TypeModel>::empty()).drop_last() =~= frames);
}

/// A binding in an inner scope is forgotten when that scope is popped.
pub proof fn law_inner_binding_forgotten(
    frames: Seq<Map<Seq<char>, TypeModel>>,
    inner: Map<Seq<char>, TypeModel>,
    name: Seq<char>,
    ty: TypeModel,
)
    ensures
        lookup(frames.push(inner.insert(name, ty)), name) == Some(ty),
        frames.push(inner.insert(name, ty)).drop_last() == frames,
{
    assert(frames.push(inner.insert(name, ty)).drop_last() =~= frames);
}

/// Declaring the same parameter twice with the same type is the same as declaring it once.
pub proof fn law_parameter_redeclared(parameters: Map<Seq<char>, TypeModel>, name: Seq<char>, ty: TypeModel)
    ensures
        declare_parameter(parameters, name, ty) matches Some(m) ==> declare_parameter(m, name, ty) == Some(m),
{
}

/// A witness declared once cannot be declared again.
pub proof fn law_witness_declared_once(witnesses: Map<Seq<char>, TypeModel>, name: Seq<char>, ty: TypeModel, other: TypeModel)
    ensures
        declare_witness(true, witnesses, name, ty) matches Some(m) ==> declare_witness(true, m, name, other) is None,
{
}

/// A resolved type holds no alias, neither user-defined nor builtin.
pub proof fn law_resolved_type_is_alias_free(t: ResolvedType)
    ensures
        is_resolved(t@),
    decreases t,
{
    match t {
        ResolvedType::Tuple(es) => {
            ResolvedType::lemma_models(es@);
            assert forall|i: int| 0 <= i < ResolvedType::models(es@).len() implies is_resolved(
                #[trigger] ResolvedType::models(es@)[i],
            ) by {
                assert(decreases_to!(t => t->Tuple_0));
                assert(decreases_to!(es => es@));
                assert(decreases_to!(es@ => es@[i]));
                law_resolved_type_is_alias_free(es@[i]);
            }
        },
        ResolvedType::Array(e, _) => law_resolved_type_is_alias_free(*e),
        ResolvedType::List(e, _) => law_resolved_type_is_alias_free(*e),
        ResolvedType::Either(l, r) => {
            law_resolved_type_is_alias_free(*l);
            law_resolved_type_is_alias_free(*r);
        },
        ResolvedType::Option(e) => law_resolved_type_is_alias_free(*e),
        _ => {},
    }
}

proof fn lemma_builtin_resolved(b: BuiltinAlias)
    ensures
        is_resolved(b.spec_resolve()),
{
    reveal_with_fuel(is_resolved, 4);
    match b {
        BuiltinAlias::Ctx8 => {
            let inner = crate::types::model_pair(TypeModel::UInt(crate::types::UIntType::U64), TypeModel::UInt(crate::types::UIntType::U256));
            assert(is_resolved(inner));
        },
        BuiltinAlias::Gej => {
            let inner = crate::types::model_pair(TypeModel::UInt(crate::types::UIntType::U256), TypeModel::UInt(crate::types::UIntType::U256));
            assert(is_resolved(inner));
        },
        BuiltinAlias::Asset1 | BuiltinAlias::Amount1 | BuiltinAlias::Nonce | BuiltinAlias::TokenAmount1 => {
            let inner = crate::types::model_pair(TypeModel::UInt(crate::types::UIntType::U1), TypeModel::UInt(crate::types::UIntType::U256));
            assert(is_resolved(inner));
        },
        _ => {},
    }
}

/// Where every alias that a lookup finds stands for a type without aliases,
/// resolving a type whose aliases can all be looked up leaves no alias in it.
pub proof fn law_resolve_removes_aliases(m: TypeModel, lookup: spec_fn(Seq<u8>) -> AliasLookup)
    requires
        forall|n: Seq<u8>| #[trigger] lookup(n) matches AliasLookup::Found(t) ==> is_resolved(t),
        failing_alias(m, lookup) is None,
    ensures
        is_resolved(resolve_aliases(m, lookup)),
    decreases m,
{
    match m {
        TypeModel::Alias(name) => {
            assert(lookup(name) is Found);
        },
        TypeModel::Builtin(b) => lemma_builtin_resolved(b),
        TypeModel::Tuple(es) => {
            lemma_resolve_aliases_of(es, lookup);
            assert forall|i: int| 0 <= i < resolve_aliases_of(es, lookup).len() implies is_resolved(
                #[trigger] resolve_aliases_of(es, lookup)[i],
            ) by {
                lemma_failing_alias_of_none(es, i, lookup);
                law_resolve_removes_aliases(es[i], lookup);
            }
        },
        TypeModel::Array(e, _) => law_resolve_removes_aliases(*e, lookup),
        TypeModel::List(e, _) => law_resolve_removes_aliases(*e, lookup),
        TypeModel::Either(l, r) => {
            law_resolve_removes_aliases(*l, lookup);
            law_resolve_removes_aliases(*r, lookup);
        },
        TypeModel::Option(e) => law_resolve_removes_aliases(*e, lookup),
        _ => {},
    }
}

proof fn lemma_failing_alias_of_none(es: Seq<TypeModel>, i: int, lookup: spec_fn(Seq<u8>) -> AliasLookup)
    requires
        failing_alias_of(es, lookup) is None,
        0 <= i < es.len(),
    ensures
        failing_alias(es[i], lookup) is None,
    decreases es.len(),
{
    if i < es.len() - 1 {
        let p = es.drop_last();
        assert(p[i] == es[i]);
        lemma_failing_alias_of_none(p, i, lookup);
    }
}

/// Every alias that a scope finds stands for a type without aliases.
pub proof fn law_scope_aliases_resolved(scope: Scope, key: (Seq<u8>, usize))
    ensures
        scope.alias_of(key) matches Some(t) ==> is_resolved(t),
{
    lemma_pool_resolved(scope, key);
}

proof fn lemma_pool_resolved(scope: Scope, key: (Seq<u8>, usize))
    ensures
        scope.alias_of(key) matches Some(t) ==> is_resolved(t),
{
    let pool = scope.alias_pool();
    if let Some(t) = scope.alias_of(key) {
        lemma_last_binding_in(pool, key);
        let j = choose|j: int| 0 <= j < pool.len() && pool[j].0 == key && pool[j].1 == t;
        lemma_pool_entry_resolved(scope, j);
    }
}

proof fn lemma_pool_entry_resolved(scope: Scope, j: int)
    requires
        0 <= j < scope.alias_pool().len(),
    ensures
        is_resolved(scope.alias_pool()[j].1),
{
    law_resolved_type_is_alias_free(scope.aliases@[j].1);
}

proof fn lemma_last_binding_in<K, V>(entries: Seq<(K, V)>, key: K)
    ensures
        last_binding(entries, key) matches Some(v) ==> exists|j: int|
            0 <= j < entries.len() && entries[j].0 == key && entries[j].1 == v,
    decreases entries.len(),
{
    if entries.len() > 0 {
        let p = entries.drop_last();
        lemma_last_binding_in(p, key);
        if entries.last().0 != key {
            if let Some(v) = last_binding(p, key) {
                let j = choose|j: int| 0 <= j < p.len() && p[j].0 == key && p[j].1 == v;
                assert(entries[j] == p[j]);
            }
        } else {
            assert(entries[entries.len() - 1] == entries.last());
        }
    }
}

/// Looking up an alias from a file finds it only where the file may use
/// the name: an alias declared elsewhere and not imported does not leak.
pub proof fn law_alias_found_only_where_visible(scope: Scope, name: Seq<u8>)
    ensures
        scope.alias_lookup(name) is Found ==> {
            &&& scope.spec_file_id() < scope.table_scopes().len()
            &&& scope.table_scopes()[scope.spec_file_id() as int].contains(name)
        },
{
}

/// Declarations of one name in two files do not conflict: declaring it in one
/// file leaves its declaration in any other file as it was.
pub proof fn law_alias_files_independent(
    pool: Seq<((Seq<u8>, usize), TypeModel)>,
    name: Seq<u8>,
    file: usize,
    other_file: usize,
    ty: TypeModel,
)
    requires
        file != other_file,
    ensures
        last_binding(pool.push(((name, file), ty)), (name, other_file)) == last_binding(pool, (name, other_file)),
        last_binding(pool.push(((name, file), ty)), (name, file)) == Some(ty),
{
    assert(pool.push(((name, file), ty)).drop_last() =~= pool);
}

} // verus!
