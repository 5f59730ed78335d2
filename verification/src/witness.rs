//! Witness and parameter maps, and their consistency with a program's declarations.
use vstd::prelude::*;
use vstd::string::StringSliceAdditionalSpecFns;

use crate::parse::{parse_aliased_type, valid_type};
use crate::text::type_text;
use crate::types::{AliasName, ResolvedType, TypeModel, first_alias, resolve_builtins};

verus! {

/// Name of a witness or of a parameter.
#[derive(Debug, PartialEq, Eq, Hash)]
pub struct WitnessName {
    name: String,
}

impl View for WitnessName {
    type V = Seq<char>;

    closed spec fn view(&self) -> Seq<char> {
        self.name@
    }
}

impl WitnessName {
    /// Create a name from a string, without checking that it is an identifier.
    pub fn from_str_unchecked(s: &str) -> (r: WitnessName)
        ensures
            r@ == s@,
    {
        WitnessName { name: s.to_owned() }
    }

    /// The name as a string.
    pub fn as_inner(&self) -> (r: &str)
        ensures
            r@ == self@,
    {
        self.name.as_str()
    }

    /// A copy of the name.
    pub fn copy(&self) -> (r: WitnessName)
        ensures
            r@ == self@,
    {
        WitnessName { name: self.name.clone() }
    }

    /// Whether the two names are equal.
    pub fn same_as(&self, other: &WitnessName) -> (r: bool)
        ensures
            r == (self@ == other@),
    {
        self.name == other.name
    }
}

/// A value of a SimplicityHL type: the type and the bits of the value in
/// Simplicity's encoding.
#[derive(Debug, PartialEq, Eq, Hash)]
pub struct Value {
    ty: ResolvedType,
    bits: Vec<bool>,
}

/// Model of a [`Value`]: its type and its bits.
pub struct ValueModel {
    pub ty: TypeModel,
    pub bits: Seq<bool>,
}

impl View for Value {
    type V = ValueModel;

    closed spec fn view(&self) -> ValueModel {
        ValueModel { ty: self.ty@, bits: self.bits@ }
    }
}

impl Value {
    /// Create the value of the given type with the given bits.
    pub fn new(ty: ResolvedType, bits: Vec<bool>) -> (r: Value)
        ensures
            r@.ty == ty@,
            r@.bits == bits@,
    {
        Value { ty, bits }
    }

    /// The type of the value.
    pub fn ty(&self) -> (r: &ResolvedType)
        ensures
            r@ == self@.ty,
    {
        &self.ty
    }

    /// The bits of the value.
    pub fn bits(&self) -> (r: &[bool])
        ensures
            r@ == self@.bits,
    {
        self.bits.as_slice()
    }

    /// Whether the value is of the given type.
    pub fn is_of_type(&self, ty: &ResolvedType) -> (r: bool)
        ensures
            r == (self@.ty == ty@),
    {
        self.ty.same_as(ty)
    }
}

/// The names of the entries are pairwise distinct.
pub open spec fn distinct_names<V>(entries: Seq<(WitnessName, V)>) -> bool {
    forall|i: int, j: int|
        0 <= i < entries.len() && 0 <= j < entries.len() && i != j ==> #[trigger] entries[i].0@
            != #[trigger] entries[j].0@
}

/// The map that the entries describe.
pub open spec fn entries_map<V: View>(entries: Seq<(WitnessName, V)>) -> Map<Seq<char>, V::V>
    decreases entries.len(),
{
    if entries.len() == 0 {
        Map::empty()
    } else {
        entries_map(entries.drop_last()).insert(entries.last().0@, entries.last().1@)
    }
}

pub proof fn lemma_entries_map<V: View>(entries: Seq<(WitnessName, V)>)
    requires
        distinct_names(entries),
    ensures
        forall|k: Seq<char>| #[trigger] entries_map(entries).contains_key(k) <==> exists|i: int|
            0 <= i < entries.len() && entries[i].0@ == k,
        forall|i: int| 0 <= i < entries.len() ==> #[trigger] entries_map(entries)[entries[i].0@] == entries[i].1@,
    decreases entries.len(),
{
    if entries.len() > 0 {
        let p = entries.drop_last();
        assert(distinct_names(p)) by {
            assert forall|i: int, j: int|
                0 <= i < p.len() && 0 <= j < p.len() && i != j implies #[trigger] p[i].0@ != #[trigger] p[j].0@ by {
                assert(p[i] == entries[i] && p[j] == entries[j]);
            }
        }
        lemma_entries_map(p);
        let last = entries.len() - 1;
        let kl = entries[last].0@;
        assert forall|k: Seq<char>| #[trigger] entries_map(entries).contains_key(k) <==> exists|i: int|
            0 <= i < entries.len() && entries[i].0@ == k by {
            if entries_map(entries).contains_key(k) {
                if k == kl {
                    assert(entries[last].0@ == k);
                } else {
                    assert(entries_map(p).contains_key(k));
                    let i = choose|i: int| 0 <= i < p.len() && p[i].0@ == k;
                    assert(entries[i] == p[i]);
                }
            }
            if exists|i: int| 0 <= i < entries.len() && entries[i].0@ == k {
                let i = choose|i: int| 0 <= i < entries.len() && entries[i].0@ == k;
                if i < last {
                    assert(p[i] == entries[i]);
                    assert(entries_map(p).contains_key(k));
                }
            }
        }
        assert forall|i: int| 0 <= i < entries.len() implies #[trigger] entries_map(entries)[entries[i].0@]
            == entries[i].1@ by {
            if i < last {
                assert(p[i] == entries[i]);
                assert(entries[i].0@ != entries[last].0@);
                assert(entries_map(p)[p[i].0@] == p[i].1@);
            }
        }
    }
}

/// Map from names to values of type `V`.
#[derive(Debug, PartialEq, Eq)]
pub struct NameMap<V> {
    entries: Vec<(WitnessName, V)>,
}

impl<V: View> NameMap<V> {
    /// The entries are a map: no name occurs twice.
    pub closed spec fn wf(&self) -> bool {
        distinct_names(self.entries@)
    }

    pub closed spec fn map(&self) -> Map<Seq<char>, V::V> {
        entries_map(self.entries@)
    }

    /// The entries in their order.
    pub closed spec fn entries_view(&self) -> Seq<(WitnessName, V)> {
        self.entries@
    }

    /// The empty map.
    pub fn new() -> (r: NameMap<V>)
        ensures
            r.wf(),
            r.map() == Map::<Seq<char>, V::V>::empty(),
    {
        NameMap { entries: Vec::new() }
    }

    /// The map of the given entries, whose names are pairwise distinct.
    pub fn from_entries(entries: Vec<(WitnessName, V)>) -> (r: NameMap<V>)
        requires
            distinct_names(entries@),
        ensures
            r.wf(),
            r.map() == entries_map(entries@),
    {
        NameMap { entries }
    }

    /// Number of entries.
    pub fn len(&self) -> (r: usize)
        requires
            self.wf(),
        ensures
            r == self.map().len(),
    {
        proof {
            self.lemma_len();
        }
        self.entries.len()
    }

    proof fn lemma_len(&self)
        requires
            self.wf(),
        ensures
            self.map().len() == self.entries@.len(),
            self.map().dom().finite(),
        decreases self.entries@.len(),
    {
        lemma_len_of(self.entries@);
    }

    /// The entries, each name with its value.
    pub fn entries(&self) -> (r: &[(WitnessName, V)])
        ensures
            r@ == self.entries_view(),
            entries_map(r@) == self.map(),
            self.wf() ==> distinct_names(r@),
    {
        self.entries.as_slice()
    }

    /// Add an entry for a name that the map does not hold yet.
    pub fn insert_new(&mut self, name: WitnessName, value: V)
        requires
            old(self).wf(),
            !old(self).map().contains_key(name@),
        ensures
            final(self).wf(),
            final(self).map() == old(self).map().insert(name@, value@),
    {
        proof {
            lemma_entries_map(self.entries@);
        }
        let ghost n = name@;
        let ghost before = self.entries@;
        self.entries.push((name, value));
        proof {
            assert(self.entries@.drop_last() =~= before);
            assert forall|i: int, j: int|
                0 <= i < self.entries@.len() && 0 <= j < self.entries@.len() && i != j implies
                #[trigger] self.entries@[i].0@ != #[trigger] self.entries@[j].0@ by {
                if i < before.len() && j < before.len() {
                    assert(self.entries@[i] == before[i] && self.entries@[j] == before[j]);
                } else if i < before.len() {
                    assert(self.entries@[i] == before[i]);
                    assert(entries_map(before).contains_key(before[i].0@));
                } else {
                    assert(self.entries@[j] == before[j]);
                    assert(entries_map(before).contains_key(before[j].0@));
                }
            }
        }
    }

    /// The value assigned to the given name.
    pub fn get(&self, name: &WitnessName) -> (r: Option<&V>)
        requires
            self.wf(),
        ensures
            r matches Some(v) ==> self.map().contains_key(name@) && self.map()[name@] == v@,
            r is None ==> !self.map().contains_key(name@),
    {
        proof {
            lemma_entries_map(self.entries@);
        }
        let mut i: usize = 0;
        while i < self.entries.len()
            invariant
                i <= self.entries.len(),
                distinct_names(self.entries@),
                forall|j: int| 0 <= j < i ==> self.entries@[j].0@ != name@,
            decreases self.entries.len() - i,
        {
            if self.entries[i].0.same_as(name) {
                proof {
                    lemma_entries_map(self.entries@);
                }
                return Some(&self.entries[i].1);
            }
            i = i + 1;
        }
        proof {
            lemma_entries_map(self.entries@);
        }
        None
    }
}

proof fn lemma_len_of<V: View>(entries: Seq<(WitnessName, V)>)
    requires
        distinct_names(entries),
    ensures
        entries_map(entries).len() == entries.len(),
        entries_map(entries).dom().finite(),
    decreases entries.len(),
{
    if entries.len() > 0 {
        let p = entries.drop_last();
        assert(distinct_names(p)) by {
            assert forall|i: int, j: int|
                0 <= i < p.len() && 0 <= j < p.len() && i != j implies #[trigger] p[i].0@ != #[trigger] p[j].0@ by {
                assert(p[i] == entries[i] && p[j] == entries[j]);
            }
        }
        lemma_len_of(p);
        lemma_entries_map(p);
        let k = entries.last().0@;
        if entries_map(p).contains_key(k) {
            let i = choose|i: int| 0 <= i < p.len() && p[i].0@ == k;
            assert(entries[i] == p[i]);
        }
    }
}

/// Map of witness types.
pub type WitnessTypes = NameMap<ResolvedType>;

/// Map of parameter types.
///
/// A parameter is a named variable that resolves to a value of a given type.
pub type Parameters = NameMap<ResolvedType>;

/// Map of witness values.
pub type WitnessValues = NameMap<Value>;

/// Map of arguments: the values of parameters.
pub type Arguments = NameMap<Value>;

/// Inconsistency between assigned values and declared types.
#[derive(Debug, PartialEq, Eq)]
pub enum ConsistencyError {
    /// The witness was declared with the first type but assigned a value of the second.
    WitnessTypeMismatch(WitnessName, ResolvedType, ResolvedType),
    /// The parameter has no argument.
    ArgumentMissing(WitnessName),
    /// The parameter was declared with the first type but its argument is of the second.
    ArgumentTypeMismatch(WitnessName, ResolvedType, ResolvedType),
}

impl NameMap<Value> {
    /// Check if the witness values are consistent with the declared witness types.
    ///
    /// Values of witnesses that are declared are type checked; values of other
    /// witnesses are skipped, and declared witnesses without a value are allowed.
    pub fn is_consistent(&self, witness_types: &NameMap<ResolvedType>) -> (r: Result<(), ConsistencyError>)
        requires
            self.wf(),
            witness_types.wf(),
        ensures
            r is Ok <==> forall|k: Seq<char>|
                self.map().contains_key(k) && #[trigger] witness_types.map().contains_key(k)
                    ==> self.map()[k].ty == witness_types.map()[k],
            r matches Err(e) ==> (e matches ConsistencyError::WitnessTypeMismatch(n, declared, assigned) && {
                &&& self.map().contains_key(n@) && witness_types.map().contains_key(n@)
                &&& declared@ == witness_types.map()[n@]
                &&& assigned@ == self.map()[n@].ty
                &&& declared@ != assigned@
            }),
    {
        proof {
            lemma_entries_map(self.entries@);
        }
        let mut i: usize = 0;
        while i < self.entries.len()
            invariant
                i <= self.entries.len(),
                self.wf(),
                witness_types.wf(),
                forall|j: int| 0 <= j < i && #[trigger] witness_types.map().contains_key(self.entries@[j].0@)
                    ==> self.entries@[j].1@.ty == witness_types.map()[self.entries@[j].0@],
            decreases self.entries.len() - i,
        {
            let name = &self.entries[i].0;
            let value = &self.entries[i].1;
            match witness_types.get(name) {
                None => {},
                Some(declared) => {
                    proof {
                        lemma_entries_map(self.entries@);
                    }
                    if !value.is_of_type(declared) {
                        proof {
                            lemma_entries_map(self.entries@);
                            assert(self.map().contains_key(name@));
                        }
                        return Err(
                            ConsistencyError::WitnessTypeMismatch(
                                name.copy(),
                                declared.copy(),
                                value.ty().copy(),
                            ),
                        );
                    }
                },
            }
            i = i + 1;
        }
        proof {
            lemma_entries_map(self.entries@);
            assert forall|k: Seq<char>|
                self.map().contains_key(k) && #[trigger] witness_types.map().contains_key(k) implies self.map()[k].ty
                == witness_types.map()[k] by {
                let j = choose|j: int| 0 <= j < self.entries@.len() && self.entries@[j].0@ == k;
                assert(witness_types.map().contains_key(self.entries@[j].0@));
            }
        }
        Ok(())
    }

    /// Check if the arguments are consistent with the given parameters.
    ///
    /// Each parameter must be supplied with an argument of its type. Arguments
    /// without a corresponding parameter are ignored.
    pub fn is_consistent_with_parameters(&self, parameters: &NameMap<ResolvedType>) -> (r: Result<(), ConsistencyError>)
        requires
            self.wf(),
            parameters.wf(),
        ensures
            r is Ok <==> forall|k: Seq<char>| #[trigger] parameters.map().contains_key(k)
                ==> self.map().contains_key(k) && self.map()[k].ty == parameters.map()[k],
            r matches Err(e) ==> match e {
                ConsistencyError::ArgumentMissing(n) => parameters.map().contains_key(n@)
                    && !self.map().contains_key(n@),
                ConsistencyError::ArgumentTypeMismatch(n, declared, assigned) => {
                    &&& parameters.map().contains_key(n@) && self.map().contains_key(n@)
                    &&& declared@ == parameters.map()[n@]
                    &&& assigned@ == self.map()[n@].ty
                    &&& declared@ != assigned@
                },
                _ => false,
            },
    {
        proof {
            lemma_entries_map(parameters.entries@);
        }
        let mut i: usize = 0;
        while i < parameters.entries.len()
            invariant
                i <= parameters.entries.len(),
                self.wf(),
                parameters.wf(),
                forall|j: int| 0 <= j < i ==> #[trigger] self.map().contains_key(parameters.entries@[j].0@)
                    && self.map()[parameters.entries@[j].0@].ty == parameters.entries@[j].1@,
            decreases parameters.entries.len() - i,
        {
            let name = &parameters.entries[i].0;
            let parameter_ty = &parameters.entries[i].1;
            match self.get(name) {
                None => {
                    proof {
                        lemma_entries_map(parameters.entries@);
                        assert(parameters.map().contains_key(name@));
                    }
                    return Err(ConsistencyError::ArgumentMissing(name.copy()));
                },
                Some(argument) => {
                    proof {
                        lemma_entries_map(parameters.entries@);
                        assert(parameters.map().contains_key(name@));
                    }
                    if !argument.is_of_type(parameter_ty) {
                        return Err(
                            ConsistencyError::ArgumentTypeMismatch(
                                name.copy(),
                                parameter_ty.copy(),
                                argument.ty().copy(),
                            ),
                        );
                    }
                    proof {
                        assert(self.map().contains_key(parameters.entries@[i as int].0@));
                        assert(self.map()[parameters.entries@[i as int].0@].ty == parameters.entries@[i as int].1@);
                        assert forall|j: int| 0 <= j < i + 1 implies #[trigger] self.map().contains_key(
                            parameters.entries@[j].0@,
                        ) && self.map()[parameters.entries@[j].0@].ty == parameters.entries@[j].1@ by {
                            if j == i {
                                assert(parameters.entries@[j] == parameters.entries@[i as int]);
                            }
                        }
                    }
                },
            }
            i = i + 1;
        }
        proof {
            lemma_entries_map(parameters.entries@);
            assert forall|k: Seq<char>| #[trigger] parameters.map().contains_key(k) implies self.map().contains_key(k)
                && self.map()[k].ty == parameters.map()[k] by {
                let j = choose|j: int| 0 <= j < parameters.entries@.len() && parameters.entries@[j].0@ == k;
                assert(self.map().contains_key(parameters.entries@[j].0@));
            }
        }
        Ok(())
    }
}

/// Error of reading a resolved type from text.
#[derive(Debug, PartialEq, Eq)]
pub enum TypeReadError {
    /// The text is not the canonical text of a type.
    Syntax,
    /// The type refers to an alias that is not builtin.
    UndefinedAlias(AliasName),
}

impl ResolvedType {
    /// Read a type from its canonical text and resolve its builtin aliases.
    pub fn parse_from_str(s: &str) -> (r: Result<ResolvedType, TypeReadError>)
        ensures
            r matches Ok(t) ==> exists|m: TypeModel| {
                &&& valid_type(m) && type_text(m) == s.spec_bytes()
                &&& first_alias(m) is None
                &&& t@ == resolve_builtins(m)
            },
            r matches Err(TypeReadError::UndefinedAlias(name)) ==> exists|m: TypeModel| {
                &&& valid_type(m) && type_text(m) == s.spec_bytes()
                &&& first_alias(m) == Some(name@)
            },
            r matches Err(TypeReadError::Syntax) ==> forall|m: TypeModel|
                valid_type(m) ==> type_text(m) != s.spec_bytes(),
    {
        match parse_aliased_type(s.as_bytes()) {
            None => Err(TypeReadError::Syntax),
            Some(aliased) => match aliased.resolve_builtin() {
                Ok(t) => Ok(t),
                Err(name) => Err(TypeReadError::UndefinedAlias(name)),
            },
        }
    }
}

} // verus!
