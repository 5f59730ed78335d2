//! High-level signatures of jets.
use vstd::prelude::*;

use crate::types::{AliasedType, TypeModel, UIntType, is_list_bound};

verus! {

/// Describes the arity and layout of a jet's source type in SimplicityHL.
///
/// For the standard cases, the input type is assumed to be a balanced binary
/// product of equal-width integer components, and each component's [`UIntType`]
/// is derived from the total source bit width divided by the divisor.
///
/// `Custom` lists the argument types explicitly.
#[derive(Debug, PartialEq, Eq, Hash)]
pub enum SourceJetClassification {
    /// Jet takes a single argument.
    Unary,
    /// Jet takes two arguments of equal width.
    Binary,
    /// Jet takes three arguments of equal width.
    Ternary,
    /// Jet takes four arguments of equal width.
    Quaternary,
    /// Jet takes an arbitrary list of explicitly typed arguments.
    Custom(Vec<AliasedType>),
}

/// Model of a [`SourceJetClassification`].
pub enum SourceModel {
    Unary,
    Binary,
    Ternary,
    Quaternary,
    Custom(Seq<TypeModel>),
}

impl SourceModel {
    /// Number of individual arguments the jet expects.
    pub open spec fn divisor(self) -> nat {
        match self {
            SourceModel::Unary => 1,
            SourceModel::Binary => 2,
            SourceModel::Ternary => 3,
            SourceModel::Quaternary => 4,
            SourceModel::Custom(types) => types.len(),
        }
    }
}

impl View for SourceJetClassification {
    type V = SourceModel;

    open spec fn view(&self) -> SourceModel {
        match self {
            SourceJetClassification::Unary => SourceModel::Unary,
            SourceJetClassification::Binary => SourceModel::Binary,
            SourceJetClassification::Ternary => SourceModel::Ternary,
            SourceJetClassification::Quaternary => SourceModel::Quaternary,
            SourceJetClassification::Custom(types) => SourceModel::Custom(
                AliasedType::models(types@),
            ),
        }
    }
}

impl SourceJetClassification {
    /// Returns the number of individual arguments the jet expects.
    ///
    /// For `Custom`, this is the length of the explicit type list.
    pub fn divisor(&self) -> (r: usize)
        ensures
            r == self@.divisor(),
    {
        match self {
            SourceJetClassification::Unary => 1,
            SourceJetClassification::Binary => 2,
            SourceJetClassification::Ternary => 3,
            SourceJetClassification::Quaternary => 4,
            SourceJetClassification::Custom(types) => {
                proof {
                    AliasedType::lemma_models(types@);
                }
                types.len()
            },
        }
    }
}

/// Describes the layout of a jet's output (target) type in SimplicityHL.
///
/// `Unary` is a single integer whose type is derived from the target bit width;
/// `Custom` gives the output type explicitly.
#[derive(Debug, PartialEq, Eq, Hash)]
pub enum TargetJetClassification {
    /// Jet returns a single integer value.
    Unary,
    /// Jet returns an explicitly specified type.
    Custom(AliasedType),
}

/// Model of a [`TargetJetClassification`].
pub enum TargetModel {
    Unary,
    Custom(TypeModel),
}

impl View for TargetJetClassification {
    type V = TargetModel;

    open spec fn view(&self) -> TargetModel {
        match self {
            TargetJetClassification::Unary => TargetModel::Unary,
            TargetJetClassification::Custom(ty) => TargetModel::Custom(ty@),
        }
    }
}

/// The tuple type of the given element types.
pub fn tuple(elements: Vec<AliasedType>) -> (r: AliasedType)
    ensures
        r@ == TypeModel::Tuple(AliasedType::models(elements@)),
{
    AliasedType::Tuple(elements)
}

/// The array type of the given element type and size.
pub fn array(element: AliasedType, size: usize) -> (r: AliasedType)
    ensures
        r@ == TypeModel::Array(Box::new(element@), size as nat),
{
    AliasedType::Array(Box::new(element), size)
}

/// The list type of the given element type and bound.
///
/// The bound must be a power of two of at least two.
pub fn list(element: AliasedType, bound: usize) -> (r: AliasedType)
    requires
        is_list_bound(bound as nat),
    ensures
        r@ == TypeModel::List(Box::new(element@), bound as nat),
{
    AliasedType::List(Box::new(element), bound)
}

/// The boolean type.
pub fn bool() -> (r: AliasedType)
    ensures
        r@ == TypeModel::Boolean,
{
    AliasedType::Boolean
}

/// The sum type of the given left and right types.
pub fn either(left: AliasedType, right: AliasedType) -> (r: AliasedType)
    ensures
        r@ == TypeModel::Either(Box::new(left@), Box::new(right@)),
{
    AliasedType::Either(Box::new(left), Box::new(right))
}

/// The option type of the given inner type.
pub fn option(inner: AliasedType) -> (r: AliasedType)
    ensures
        r@ == TypeModel::Option(Box::new(inner@)),
{
    AliasedType::Option(Box::new(inner))
}

/// The unit type.
pub fn unit() -> (r: AliasedType)
    ensures
        r@ == TypeModel::Tuple(Seq::empty()),
{
    let r = AliasedType::Tuple(Vec::new());
    proof {
        assert(AliasedType::models(Seq::<AliasedType>::empty()) =~= Seq::<TypeModel>::empty());
    }
    r
}

/// Width of each argument of a standard classification, given the width of the
/// whole source type.
pub open spec fn component_width(class: SourceModel, source_bit_width: nat) -> nat {
    source_bit_width / class.divisor()
}

/// The argument types can be derived: the classification is custom, or each
/// argument has no bits, or its width is that of an integer type.
pub open spec fn source_type_defined(class: SourceModel, source_bit_width: nat) -> bool {
    class is Custom || component_width(class, source_bit_width) == 0
        || UIntType::spec_from_bit_width(component_width(class, source_bit_width)) is Some
}

/// High-level argument types of a jet.
///
/// `Custom` gives them explicitly; otherwise the jet takes `divisor` integers of
/// equal width, or no argument at all if that width is zero.
pub open spec fn spec_source_type(class: SourceModel, source_bit_width: nat) -> Seq<TypeModel> {
    match class {
        SourceModel::Custom(types) => types,
        _ => {
            let w = component_width(class, source_bit_width);
            if w == 0 {
                Seq::empty()
            } else {
                Seq::new(
                    class.divisor(),
                    |i: int| TypeModel::UInt(UIntType::spec_from_bit_width(w)->0),
                )
            }
        },
    }
}

/// Target type can be derived: the classification is custom, or the target has no
/// bits, or its width is that of an integer type.
pub open spec fn target_type_defined(class: TargetModel, target_bit_width: nat) -> bool {
    class is Custom || target_bit_width == 0 || UIntType::spec_from_bit_width(target_bit_width) is Some
}

/// High-level output type of a jet.
///
/// `Custom` gives it explicitly; otherwise it is the unit type for a target of no
/// bits and the integer type of the target's width else.
pub open spec fn spec_target_type(class: TargetModel, target_bit_width: nat) -> TypeModel {
    match class {
        TargetModel::Custom(ty) => ty,
        TargetModel::Unary => if target_bit_width == 0 {
            TypeModel::Tuple(Seq::empty())
        } else {
            TypeModel::UInt(UIntType::spec_from_bit_width(target_bit_width)->0)
        },
    }
}

/// Whether the argument types of a jet of this classification and source
/// width can be derived; see [`source_type_defined`].
pub fn source_type_is_defined(class: &SourceJetClassification, source_bit_width: usize) -> (r: bool)
    ensures
        r == source_type_defined(class@, source_bit_width as nat),
{
    if let SourceJetClassification::Custom(_) = class {
        return true;
    }
    let w = source_bit_width / class.divisor();
    w == 0 || UIntType::from_bit_width(w).is_some()
}

/// Whether the output type of a jet of this classification and target width
/// can be derived; see [`target_type_defined`].
pub fn target_type_is_defined(class: &TargetJetClassification, target_bit_width: usize) -> (r: bool)
    ensures
        r == target_type_defined(class@, target_bit_width as nat),
{
    if let TargetJetClassification::Custom(_) = class {
        return true;
    }
    target_bit_width == 0 || UIntType::from_bit_width(target_bit_width).is_some()
}

/// Derive the high-level argument types of a jet from its source classification
/// and the bit width of its Simplicity source type.
pub fn source_type(class: SourceJetClassification, source_bit_width: usize) -> (r: Vec<AliasedType>)
    requires
        source_type_defined(class@, source_bit_width as nat),
    ensures
        AliasedType::models(r@) == spec_source_type(class@, source_bit_width as nat),
{
    let ghost c = class@;
    if let SourceJetClassification::Custom(custom_type) = class {
        return custom_type;
    }
    let divisor = class.divisor();
    let component_bit_width = source_bit_width / divisor;
    if component_bit_width == 0 {
        let r: Vec<AliasedType> = Vec::new();
        proof {
            assert(AliasedType::models(r@) =~= spec_source_type(c, source_bit_width as nat));
        }
        return r;
    }
    let num_type = UIntType::from_bit_width(component_bit_width).unwrap();
    let mut r: Vec<AliasedType> = Vec::new();
    let mut i: usize = 0;
    while i < divisor
        invariant
            i <= divisor,
            divisor == c.divisor(),
            r.len() == i,
            forall|j: int| 0 <= j < i ==> #[trigger] r@[j] == AliasedType::UInt(num_type),
        decreases divisor - i,
    {
        r.push(AliasedType::UInt(num_type));
        i = i + 1;
    }
    proof {
        AliasedType::lemma_models(r@);
        assert(AliasedType::models(r@) =~= spec_source_type(c, source_bit_width as nat));
    }
    r
}

/// Derive the high-level output type of a jet from its target classification and
/// the bit width of its Simplicity target type.
pub fn target_type(class: TargetJetClassification, target_bit_width: usize) -> (r: AliasedType)
    requires
        target_type_defined(class@, target_bit_width as nat),
    ensures
        r@ == spec_target_type(class@, target_bit_width as nat),
{
    if let TargetJetClassification::Custom(custom_type) = class {
        return custom_type;
    }
    if target_bit_width == 0 {
        return unit();
    }
    let num_type = UIntType::from_bit_width(target_bit_width).unwrap();
    AliasedType::UInt(num_type)
}

/// The type is the integer type of width `w`.
pub open spec fn is_uint_of_width(m: TypeModel, w: nat) -> bool {
    m matches TypeModel::UInt(u) && u.spec_bit_width() == w
}

/// A jet whose source classification is standard takes one argument per
/// component: one for `Unary`, two for `Binary`, three for `Ternary`, four
/// for `Quaternary`, each an integer whose width is the source width divided
/// by that number; it takes none where that width is zero. A custom
/// classification gives its argument types itself.
pub proof fn law_source_type_components(class: SourceModel, source_bit_width: nat)
    requires
        source_type_defined(class, source_bit_width),
    ensures
        class matches SourceModel::Custom(types) ==> spec_source_type(class, source_bit_width) == types,
        class is Unary && source_bit_width > 0 ==> spec_source_type(class, source_bit_width).len() == 1,
        class is Binary && source_bit_width >= 2 ==> spec_source_type(class, source_bit_width).len() == 2,
        class is Ternary && source_bit_width >= 3 ==> spec_source_type(class, source_bit_width).len() == 3,
        class is Quaternary && source_bit_width >= 4 ==> spec_source_type(class, source_bit_width).len() == 4,
        class is Unary ==> forall|i: int| 0 <= i < spec_source_type(class, source_bit_width).len() ==> is_uint_of_width(#[trigger] spec_source_type(class, source_bit_width)[i], source_bit_width),
        class is Binary ==> forall|i: int| 0 <= i < spec_source_type(class, source_bit_width).len() ==> is_uint_of_width(#[trigger] spec_source_type(class, source_bit_width)[i], source_bit_width / 2),
        class is Ternary ==> forall|i: int| 0 <= i < spec_source_type(class, source_bit_width).len() ==> is_uint_of_width(#[trigger] spec_source_type(class, source_bit_width)[i], source_bit_width / 3),
        class is Quaternary ==> forall|i: int| 0 <= i < spec_source_type(class, source_bit_width).len() ==> is_uint_of_width(#[trigger] spec_source_type(class, source_bit_width)[i], source_bit_width / 4),
        !(class is Custom) && source_bit_width < class.divisor() ==> spec_source_type(class, source_bit_width).len() == 0,
{
}

/// The output type of a jet whose target classification is `Unary` is the
/// unit type for a target of no bits, and else the integer type of the
/// target's width, never a boolean; a custom classification gives it itself.
pub proof fn law_target_type_width(class: TargetModel, target_bit_width: nat)
    requires
        target_type_defined(class, target_bit_width),
    ensures
        class matches TargetModel::Custom(t) ==> spec_target_type(class, target_bit_width) == t,
        class is Unary && target_bit_width == 0 ==> spec_target_type(class, target_bit_width) == TypeModel::Tuple(Seq::empty()),
        class is Unary && target_bit_width > 0 ==> is_uint_of_width(
            spec_target_type(class, target_bit_width),
            target_bit_width,
        ),
{
}

} // verus!
