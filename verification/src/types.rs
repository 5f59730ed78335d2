use vstd::prelude::*;

verus! {

/// Unsigned integer types of SimplicityHL.
#[derive(Clone, Copy, Debug, PartialEq, Eq, Hash, Structural)]
pub enum UIntType {
    U1,
    U2,
    U4,
    U8,
    U16,
    U32,
    U64,
    U128,
    U256,
}

impl UIntType {
    /// Number of bits of a value of this type.
    pub open spec fn spec_bit_width(self) -> nat {
        match self {
            UIntType::U1 => 1,
            UIntType::U2 => 2,
            UIntType::U4 => 4,
            UIntType::U8 => 8,
            UIntType::U16 => 16,
            UIntType::U32 => 32,
            UIntType::U64 => 64,
            UIntType::U128 => 128,
            UIntType::U256 => 256,
        }
    }

    /// The integer type of the given bit width, if there is one.
    pub open spec fn spec_from_bit_width(width: nat) -> Option<UIntType> {
        if width == 1 {
            Some(UIntType::U1)
        } else if width == 2 {
            Some(UIntType::U2)
        } else if width == 4 {
            Some(UIntType::U4)
        } else if width == 8 {
            Some(UIntType::U8)
        } else if width == 16 {
            Some(UIntType::U16)
        } else if width == 32 {
            Some(UIntType::U32)
        } else if width == 64 {
            Some(UIntType::U64)
        } else if width == 128 {
            Some(UIntType::U128)
        } else if width == 256 {
            Some(UIntType::U256)
        } else {
            None
        }
    }

    /// Return the bit width of the integer type.
    pub fn bit_width(&self) -> (r: usize)
        ensures
            r == self.spec_bit_width(),
    {
        match self {
            UIntType::U1 => 1,
            UIntType::U2 => 2,
            UIntType::U4 => 4,
            UIntType::U8 => 8,
            UIntType::U16 => 16,
            UIntType::U32 => 32,
            UIntType::U64 => 64,
            UIntType::U128 => 128,
            UIntType::U256 => 256,
        }
    }

    /// Return the integer type of the given bit width.
    ///
    /// There is such a type exactly for the powers of two from 1 to 256.
    pub fn from_bit_width(width: usize) -> (r: Option<UIntType>)
        ensures
            r == Self::spec_from_bit_width(width as nat),
            r matches Some(u) ==> u.spec_bit_width() == width,
    {
        if width == 1 {
            Some(UIntType::U1)
        } else if width == 2 {
            Some(UIntType::U2)
        } else if width == 4 {
            Some(UIntType::U4)
        } else if width == 8 {
            Some(UIntType::U8)
        } else if width == 16 {
            Some(UIntType::U16)
        } else if width == 32 {
            Some(UIntType::U32)
        } else if width == 64 {
            Some(UIntType::U64)
        } else if width == 128 {
            Some(UIntType::U128)
        } else if width == 256 {
            Some(UIntType::U256)
        } else {
            None
        }
    }

    /// The name of the type in the canonical text form, as ASCII bytes.
    pub open spec fn spec_name(self) -> Seq<u8> {
        match self {
            UIntType::U1 => seq![117u8, 49u8],
            UIntType::U2 => seq![117u8, 50u8],
            UIntType::U4 => seq![117u8, 52u8],
            UIntType::U8 => seq![117u8, 56u8],
            UIntType::U16 => seq![117u8, 49u8, 54u8],
            UIntType::U32 => seq![117u8, 51u8, 50u8],
            UIntType::U64 => seq![117u8, 54u8, 52u8],
            UIntType::U128 => seq![117u8, 49u8, 50u8, 56u8],
            UIntType::U256 => seq![117u8, 50u8, 53u8, 54u8],
        }
    }

    /// Return the name of the type in the canonical text form.
    pub fn name(&self) -> (r: Vec<u8>)
        ensures
            r@ == self.spec_name(),
    {
        match self {
            UIntType::U1 => vec![117u8, 49u8],
            UIntType::U2 => vec![117u8, 50u8],
            UIntType::U4 => vec![117u8, 52u8],
            UIntType::U8 => vec![117u8, 56u8],
            UIntType::U16 => vec![117u8, 49u8, 54u8],
            UIntType::U32 => vec![117u8, 51u8, 50u8],
            UIntType::U64 => vec![117u8, 54u8, 52u8],
            UIntType::U128 => vec![117u8, 49u8, 50u8, 56u8],
            UIntType::U256 => vec![117u8, 50u8, 53u8, 54u8],
        }
    }
}

/// Builtin type aliases of SimplicityHL.
///
/// Each alias stands for a fixed structural type, see [`BuiltinAlias::spec_resolve`].
#[derive(Clone, Copy, Debug, PartialEq, Eq, Hash, Structural)]
pub enum BuiltinAlias {
    Ctx8,
    Pubkey,
    Message64,
    Message,
    Signature,
    Scalar,
    Fe,
    Gej,
    Ge,
    Point,
    Height,
    Time,
    Distance,
    Duration,
    Lock,
    Outpoint,
    Confidential1,
    ExplicitAsset,
    Asset1,
    ExplicitAmount,
    Amount1,
    ExplicitNonce,
    Nonce,
    TokenAmount1,
}

impl BuiltinAlias {
    /// The name of the type in the canonical text form, as ASCII bytes.
    pub open spec fn spec_name(self) -> Seq<u8> {
        match self {
            BuiltinAlias::Ctx8 => seq![67u8, 116u8, 120u8, 56u8],
            BuiltinAlias::Pubkey => seq![80u8, 117u8, 98u8, 107u8, 101u8, 121u8],
            BuiltinAlias::Message64 => seq![77u8, 101u8, 115u8, 115u8, 97u8, 103u8, 101u8, 54u8, 52u8],
            BuiltinAlias::Message => seq![77u8, 101u8, 115u8, 115u8, 97u8, 103u8, 101u8],
            BuiltinAlias::Signature => seq![83u8, 105u8, 103u8, 110u8, 97u8, 116u8, 117u8, 114u8, 101u8],
            BuiltinAlias::Scalar => seq![83u8, 99u8, 97u8, 108u8, 97u8, 114u8],
            BuiltinAlias::Fe => seq![70u8, 101u8],
            BuiltinAlias::Gej => seq![71u8, 101u8, 106u8],
            BuiltinAlias::Ge => seq![71u8, 101u8],
            BuiltinAlias::Point => seq![80u8, 111u8, 105u8, 110u8, 116u8],
            BuiltinAlias::Height => seq![72u8, 101u8, 105u8, 103u8, 104u8, 116u8],
            BuiltinAlias::Time => seq![84u8, 105u8, 109u8, 101u8],
            BuiltinAlias::Distance => seq![68u8, 105u8, 115u8, 116u8, 97u8, 110u8, 99u8, 101u8],
            BuiltinAlias::Duration => seq![68u8, 117u8, 114u8, 97u8, 116u8, 105u8, 111u8, 110u8],
            BuiltinAlias::Lock => seq![76u8, 111u8, 99u8, 107u8],
            BuiltinAlias::Outpoint => seq![79u8, 117u8, 116u8, 112u8, 111u8, 105u8, 110u8, 116u8],
            BuiltinAlias::Confidential1 => seq![67u8, 111u8, 110u8, 102u8, 105u8, 100u8, 101u8, 110u8, 116u8, 105u8, 97u8, 108u8, 49u8],
            BuiltinAlias::ExplicitAsset => seq![69u8, 120u8, 112u8, 108u8, 105u8, 99u8, 105u8, 116u8, 65u8, 115u8, 115u8, 101u8, 116u8],
            BuiltinAlias::Asset1 => seq![65u8, 115u8, 115u8, 101u8, 116u8, 49u8],
            BuiltinAlias::ExplicitAmount => seq![69u8, 120u8, 112u8, 108u8, 105u8, 99u8, 105u8, 116u8, 65u8, 109u8, 111u8, 117u8, 110u8, 116u8],
            BuiltinAlias::Amount1 => seq![65u8, 109u8, 111u8, 117u8, 110u8, 116u8, 49u8],
            BuiltinAlias::ExplicitNonce => seq![69u8, 120u8, 112u8, 108u8, 105u8, 99u8, 105u8, 116u8, 78u8, 111u8, 110u8, 99u8, 101u8],
            BuiltinAlias::Nonce => seq![78u8, 111u8, 110u8, 99u8, 101u8],
            BuiltinAlias::TokenAmount1 => seq![84u8, 111u8, 107u8, 101u8, 110u8, 65u8, 109u8, 111u8, 117u8, 110u8, 116u8, 49u8],
        }
    }

    /// Return the name of the type in the canonical text form.
    pub fn name(&self) -> (r: Vec<u8>)
        ensures
            r@ == self.spec_name(),
    {
        match self {
            BuiltinAlias::Ctx8 => vec![67u8, 116u8, 120u8, 56u8],
            BuiltinAlias::Pubkey => vec![80u8, 117u8, 98u8, 107u8, 101u8, 121u8],
            BuiltinAlias::Message64 => vec![77u8, 101u8, 115u8, 115u8, 97u8, 103u8, 101u8, 54u8, 52u8],
            BuiltinAlias::Message => vec![77u8, 101u8, 115u8, 115u8, 97u8, 103u8, 101u8],
            BuiltinAlias::Signature => vec![83u8, 105u8, 103u8, 110u8, 97u8, 116u8, 117u8, 114u8, 101u8],
            BuiltinAlias::Scalar => vec![83u8, 99u8, 97u8, 108u8, 97u8, 114u8],
            BuiltinAlias::Fe => vec![70u8, 101u8],
            BuiltinAlias::Gej => vec![71u8, 101u8, 106u8],
            BuiltinAlias::Ge => vec![71u8, 101u8],
            BuiltinAlias::Point => vec![80u8, 111u8, 105u8, 110u8, 116u8],
            BuiltinAlias::Height => vec![72u8, 101u8, 105u8, 103u8, 104u8, 116u8],
            BuiltinAlias::Time => vec![84u8, 105u8, 109u8, 101u8],
            BuiltinAlias::Distance => vec![68u8, 105u8, 115u8, 116u8, 97u8, 110u8, 99u8, 101u8],
            BuiltinAlias::Duration => vec![68u8, 117u8, 114u8, 97u8, 116u8, 105u8, 111u8, 110u8],
            BuiltinAlias::Lock => vec![76u8, 111u8, 99u8, 107u8],
            BuiltinAlias::Outpoint => vec![79u8, 117u8, 116u8, 112u8, 111u8, 105u8, 110u8, 116u8],
            BuiltinAlias::Confidential1 => vec![67u8, 111u8, 110u8, 102u8, 105u8, 100u8, 101u8, 110u8, 116u8, 105u8, 97u8, 108u8, 49u8],
            BuiltinAlias::ExplicitAsset => vec![69u8, 120u8, 112u8, 108u8, 105u8, 99u8, 105u8, 116u8, 65u8, 115u8, 115u8, 101u8, 116u8],
            BuiltinAlias::Asset1 => vec![65u8, 115u8, 115u8, 101u8, 116u8, 49u8],
            BuiltinAlias::ExplicitAmount => vec![69u8, 120u8, 112u8, 108u8, 105u8, 99u8, 105u8, 116u8, 65u8, 109u8, 111u8, 117u8, 110u8, 116u8],
            BuiltinAlias::Amount1 => vec![65u8, 109u8, 111u8, 117u8, 110u8, 116u8, 49u8],
            BuiltinAlias::ExplicitNonce => vec![69u8, 120u8, 112u8, 108u8, 105u8, 99u8, 105u8, 116u8, 78u8, 111u8, 110u8, 99u8, 101u8],
            BuiltinAlias::Nonce => vec![78u8, 111u8, 110u8, 99u8, 101u8],
            BuiltinAlias::TokenAmount1 => vec![84u8, 111u8, 107u8, 101u8, 110u8, 65u8, 109u8, 111u8, 117u8, 110u8, 116u8, 49u8],
        }
    }

    /// The structural type for which the alias stands.
    pub open spec fn spec_resolve(self) -> TypeModel {
        match self {
            BuiltinAlias::Ctx8 => model_pair(model_list(TypeModel::UInt(UIntType::U8), 64), model_pair(TypeModel::UInt(UIntType::U64), TypeModel::UInt(UIntType::U256))),
            BuiltinAlias::Pubkey => TypeModel::UInt(UIntType::U256),
            BuiltinAlias::Message64 => model_array(TypeModel::UInt(UIntType::U8), 64),
            BuiltinAlias::Message => TypeModel::UInt(UIntType::U256),
            BuiltinAlias::Signature => model_array(TypeModel::UInt(UIntType::U8), 64),
            BuiltinAlias::Scalar => TypeModel::UInt(UIntType::U256),
            BuiltinAlias::Fe => TypeModel::UInt(UIntType::U256),
            BuiltinAlias::Gej => model_pair(model_pair(TypeModel::UInt(UIntType::U256), TypeModel::UInt(UIntType::U256)), TypeModel::UInt(UIntType::U256)),
            BuiltinAlias::Ge => model_pair(TypeModel::UInt(UIntType::U256), TypeModel::UInt(UIntType::U256)),
            BuiltinAlias::Point => model_pair(TypeModel::UInt(UIntType::U1), TypeModel::UInt(UIntType::U256)),
            BuiltinAlias::Height => TypeModel::UInt(UIntType::U32),
            BuiltinAlias::Time => TypeModel::UInt(UIntType::U32),
            BuiltinAlias::Distance => TypeModel::UInt(UIntType::U16),
            BuiltinAlias::Duration => TypeModel::UInt(UIntType::U16),
            BuiltinAlias::Lock => TypeModel::UInt(UIntType::U32),
            BuiltinAlias::Outpoint => model_pair(TypeModel::UInt(UIntType::U256), TypeModel::UInt(UIntType::U32)),
            BuiltinAlias::Confidential1 => model_pair(TypeModel::UInt(UIntType::U1), TypeModel::UInt(UIntType::U256)),
            BuiltinAlias::ExplicitAsset => TypeModel::UInt(UIntType::U256),
            BuiltinAlias::Asset1 => model_either(model_pair(TypeModel::UInt(UIntType::U1), TypeModel::UInt(UIntType::U256)), TypeModel::UInt(UIntType::U256)),
            BuiltinAlias::ExplicitAmount => TypeModel::UInt(UIntType::U64),
            BuiltinAlias::Amount1 => model_either(model_pair(TypeModel::UInt(UIntType::U1), TypeModel::UInt(UIntType::U256)), TypeModel::UInt(UIntType::U64)),
            BuiltinAlias::ExplicitNonce => TypeModel::UInt(UIntType::U256),
            BuiltinAlias::Nonce => model_either(model_pair(TypeModel::UInt(UIntType::U1), TypeModel::UInt(UIntType::U256)), TypeModel::UInt(UIntType::U256)),
            BuiltinAlias::TokenAmount1 => model_either(model_pair(TypeModel::UInt(UIntType::U1), TypeModel::UInt(UIntType::U256)), TypeModel::UInt(UIntType::U64)),
        }
    }

    /// Return the structural type for which the alias stands.
    pub fn resolve(&self) -> (r: ResolvedType)
        ensures
            r@ == self.spec_resolve(),
    {
        proof {
            reveal_with_fuel(is_list_bound, 7);
        }
        match self {
            BuiltinAlias::Ctx8 => ResolvedType::pair(ResolvedType::list_of(ResolvedType::UInt(UIntType::U8), 64), ResolvedType::pair(ResolvedType::UInt(UIntType::U64), ResolvedType::UInt(UIntType::U256))),
            BuiltinAlias::Pubkey => ResolvedType::UInt(UIntType::U256),
            BuiltinAlias::Message64 => ResolvedType::array_of(ResolvedType::UInt(UIntType::U8), 64),
            BuiltinAlias::Message => ResolvedType::UInt(UIntType::U256),
            BuiltinAlias::Signature => ResolvedType::array_of(ResolvedType::UInt(UIntType::U8), 64),
            BuiltinAlias::Scalar => ResolvedType::UInt(UIntType::U256),
            BuiltinAlias::Fe => ResolvedType::UInt(UIntType::U256),
            BuiltinAlias::Gej => ResolvedType::pair(ResolvedType::pair(ResolvedType::UInt(UIntType::U256), ResolvedType::UInt(UIntType::U256)), ResolvedType::UInt(UIntType::U256)),
            BuiltinAlias::Ge => ResolvedType::pair(ResolvedType::UInt(UIntType::U256), ResolvedType::UInt(UIntType::U256)),
            BuiltinAlias::Point => ResolvedType::pair(ResolvedType::UInt(UIntType::U1), ResolvedType::UInt(UIntType::U256)),
            BuiltinAlias::Height => ResolvedType::UInt(UIntType::U32),
            BuiltinAlias::Time => ResolvedType::UInt(UIntType::U32),
            BuiltinAlias::Distance => ResolvedType::UInt(UIntType::U16),
            BuiltinAlias::Duration => ResolvedType::UInt(UIntType::U16),
            BuiltinAlias::Lock => ResolvedType::UInt(UIntType::U32),
            BuiltinAlias::Outpoint => ResolvedType::pair(ResolvedType::UInt(UIntType::U256), ResolvedType::UInt(UIntType::U32)),
            BuiltinAlias::Confidential1 => ResolvedType::pair(ResolvedType::UInt(UIntType::U1), ResolvedType::UInt(UIntType::U256)),
            BuiltinAlias::ExplicitAsset => ResolvedType::UInt(UIntType::U256),
            BuiltinAlias::Asset1 => ResolvedType::either_of(ResolvedType::pair(ResolvedType::UInt(UIntType::U1), ResolvedType::UInt(UIntType::U256)), ResolvedType::UInt(UIntType::U256)),
            BuiltinAlias::ExplicitAmount => ResolvedType::UInt(UIntType::U64),
            BuiltinAlias::Amount1 => ResolvedType::either_of(ResolvedType::pair(ResolvedType::UInt(UIntType::U1), ResolvedType::UInt(UIntType::U256)), ResolvedType::UInt(UIntType::U64)),
            BuiltinAlias::ExplicitNonce => ResolvedType::UInt(UIntType::U256),
            BuiltinAlias::Nonce => ResolvedType::either_of(ResolvedType::pair(ResolvedType::UInt(UIntType::U1), ResolvedType::UInt(UIntType::U256)), ResolvedType::UInt(UIntType::U256)),
            BuiltinAlias::TokenAmount1 => ResolvedType::either_of(ResolvedType::pair(ResolvedType::UInt(UIntType::U1), ResolvedType::UInt(UIntType::U256)), ResolvedType::UInt(UIntType::U64)),
        }
    }
}

/// Mathematical model of SimplicityHL types, with or without aliases.
///
/// Both [`AliasedType`] and [`ResolvedType`] are viewed as a `TypeModel`;
/// a resolved type never contains the variants `Alias` or `Builtin`.
pub enum TypeModel {
    Alias(Seq<u8>),
    Builtin(BuiltinAlias),
    Boolean,
    UInt(UIntType),
    Tuple(Seq<TypeModel>),
    Array(Box<TypeModel>, nat),
    List(Box<TypeModel>, nat),
    Either(Box<TypeModel>, Box<TypeModel>),
    Option(Box<TypeModel>),
}

pub open spec fn model_pair(a: TypeModel, b: TypeModel) -> TypeModel {
    TypeModel::Tuple(seq![a, b])
}

pub open spec fn model_list(element: TypeModel, bound: nat) -> TypeModel {
    TypeModel::List(Box::new(element), bound)
}

pub open spec fn model_array(element: TypeModel, size: nat) -> TypeModel {
    TypeModel::Array(Box::new(element), size)
}

pub open spec fn model_either(left: TypeModel, right: TypeModel) -> TypeModel {
    TypeModel::Either(Box::new(left), Box::new(right))
}

/// A valid bound of a list type: a power of two that is at least two.
pub open spec fn is_list_bound(bound: nat) -> bool
    decreases bound,
{
    if bound < 2 {
        false
    } else if bound == 2 {
        true
    } else {
        bound % 2 == 0 && is_list_bound(bound / 2)
    }
}

/// The model contains no aliases, neither user-defined nor builtin.
pub open spec fn is_resolved(m: TypeModel) -> bool
    decreases m,
{
    match m {
        TypeModel::Alias(_) => false,
        TypeModel::Builtin(_) => false,
        TypeModel::Boolean => true,
        TypeModel::UInt(_) => true,
        TypeModel::Tuple(es) => forall|i: int| 0 <= i < es.len() ==> is_resolved(#[trigger] es[i]),
        TypeModel::Array(e, _) => is_resolved(*e),
        TypeModel::List(e, _) => is_resolved(*e),
        TypeModel::Either(l, r) => is_resolved(*l) && is_resolved(*r),
        TypeModel::Option(e) => is_resolved(*e),
    }
}

/// Name of a user-defined type alias, as ASCII bytes.
#[derive(Clone, Debug, PartialEq, Eq, Hash)]
pub struct AliasName {
    bytes: Vec<u8>,
}

impl View for AliasName {
    type V = Seq<u8>;

    closed spec fn view(&self) -> Seq<u8> {
        self.bytes@
    }
}

impl AliasName {
    /// Create an alias name from its bytes.
    pub fn new(bytes: Vec<u8>) -> (r: AliasName)
        ensures
            r@ == bytes@,
    {
        AliasName { bytes }
    }

    /// Access the bytes of the name.
    pub fn as_bytes(&self) -> (r: &[u8])
        ensures
            r@ == self@,
    {
        self.bytes.as_slice()
    }

    /// A copy of the name.
    pub fn copy(&self) -> (r: AliasName)
        ensures
            r@ == self@,
    {
        AliasName { bytes: self.bytes.clone() }
    }

    /// Whether the two names are equal.
    pub fn same_as(&self, other: &AliasName) -> (r: bool)
        ensures
            r == (self@ == other@),
    {
        if self.bytes.len() != other.bytes.len() {
            return false;
        }
        let mut i: usize = 0;
        while i < self.bytes.len()
            invariant
                self.bytes.len() == other.bytes.len(),
                i <= self.bytes.len(),
                forall|k: int| 0 <= k < i ==> self.bytes@[k] == other.bytes@[k],
            decreases self.bytes.len() - i,
        {
            if self.bytes[i] != other.bytes[i] {
                return false;
            }
            i = i + 1;
        }
        assert(self.bytes@ =~= other.bytes@);
        true
    }
}

/// A SimplicityHL type that may refer to type aliases.
#[derive(Debug, PartialEq, Eq, Hash)]
pub enum AliasedType {
    /// User-defined type alias.
    Alias(AliasName),
    /// Builtin type alias.
    Builtin(BuiltinAlias),
    /// Boolean type.
    Boolean,
    /// Unsigned integer type.
    UInt(UIntType),
    /// Tuple of the given element types; the empty tuple is the unit type.
    Tuple(Vec<AliasedType>),
    /// Array of the given element type and size.
    Array(Box<AliasedType>, usize),
    /// List of the given element type with fewer elements than the given bound.
    List(Box<AliasedType>, usize),
    /// Sum of a left and a right type.
    Either(Box<AliasedType>, Box<AliasedType>),
    /// Optional value of the given type.
    Option(Box<AliasedType>),
}

impl AliasedType {
    pub open spec fn model(self) -> TypeModel
        decreases self,
    {
        match self {
            AliasedType::Alias(name) => TypeModel::Alias(name@),
            AliasedType::Builtin(b) => TypeModel::Builtin(b),
            AliasedType::Boolean => TypeModel::Boolean,
            AliasedType::UInt(u) => TypeModel::UInt(u),
            AliasedType::Tuple(es) => TypeModel::Tuple(Self::models(es@)),
            AliasedType::Array(e, n) => TypeModel::Array(Box::new(e.model()), n as nat),
            AliasedType::List(e, n) => TypeModel::List(Box::new(e.model()), n as nat),
            AliasedType::Either(l, r) => TypeModel::Either(Box::new(l.model()), Box::new(r.model())),
            AliasedType::Option(e) => TypeModel::Option(Box::new(e.model())),
        }
    }

    pub open spec fn models(s: Seq<AliasedType>) -> Seq<TypeModel>
        decreases s,
    {
        if s.len() == 0 {
            Seq::empty()
        } else {
            Self::models(s.drop_last()).push(s.last().model())
        }
    }

    /// The models of a sequence of types, element by element.
    pub proof fn lemma_models(s: Seq<AliasedType>)
        ensures
            Self::models(s).len() == s.len(),
            forall|i: int| 0 <= i < s.len() ==> #[trigger] Self::models(s)[i] == s[i].model(),
        decreases s.len(),
    {
        if s.len() > 0 {
            Self::lemma_models(s.drop_last());
        }
    }
}

impl View for AliasedType {
    type V = TypeModel;

    open spec fn view(&self) -> TypeModel {
        self.model()
    }
}

/// A SimplicityHL type without any aliases.
#[derive(Debug, PartialEq, Eq, Hash)]
pub enum ResolvedType {
    /// Boolean type.
    Boolean,
    /// Unsigned integer type.
    UInt(UIntType),
    /// Tuple of the given element types; the empty tuple is the unit type.
    Tuple(Vec<ResolvedType>),
    /// Array of the given element type and size.
    Array(Box<ResolvedType>, usize),
    /// List of the given element type with fewer elements than the given bound.
    List(Box<ResolvedType>, usize),
    /// Sum of a left and a right type.
    Either(Box<ResolvedType>, Box<ResolvedType>),
    /// Optional value of the given type.
    Option(Box<ResolvedType>),
}

impl ResolvedType {
    pub open spec fn model(self) -> TypeModel
        decreases self,
    {
        match self {
            ResolvedType::Boolean => TypeModel::Boolean,
            ResolvedType::UInt(u) => TypeModel::UInt(u),
            ResolvedType::Tuple(es) => TypeModel::Tuple(Self::models(es@)),
            ResolvedType::Array(e, n) => TypeModel::Array(Box::new(e.model()), n as nat),
            ResolvedType::List(e, n) => TypeModel::List(Box::new(e.model()), n as nat),
            ResolvedType::Either(l, r) => TypeModel::Either(Box::new(l.model()), Box::new(r.model())),
            ResolvedType::Option(e) => TypeModel::Option(Box::new(e.model())),
        }
    }

    pub open spec fn models(s: Seq<ResolvedType>) -> Seq<TypeModel>
        decreases s,
    {
        if s.len() == 0 {
            Seq::empty()
        } else {
            Self::models(s.drop_last()).push(s.last().model())
        }
    }

    /// The models of a sequence of types, element by element.
    pub proof fn lemma_models(s: Seq<ResolvedType>)
        ensures
            Self::models(s).len() == s.len(),
            forall|i: int| 0 <= i < s.len() ==> #[trigger] Self::models(s)[i] == s[i].model(),
        decreases s.len(),
    {
        if s.len() > 0 {
            Self::lemma_models(s.drop_last());
        }
    }

    /// The pair of two types.
    pub fn pair(a: ResolvedType, b: ResolvedType) -> (r: ResolvedType)
        ensures
            r@ == model_pair(a@, b@),
    {
        let ghost (ma, mb) = (a@, b@);
        let mut v: Vec<ResolvedType> = Vec::new();
        v.push(a);
        v.push(b);
        proof {
            Self::lemma_models(v@);
            assert(Self::models(v@) =~= seq![ma, mb]);
        }
        ResolvedType::Tuple(v)
    }

    /// The list type of the given element type and bound.
    pub fn list_of(element: ResolvedType, bound: usize) -> (r: ResolvedType)
        requires
            is_list_bound(bound as nat),
        ensures
            r@ == model_list(element@, bound as nat),
    {
        ResolvedType::List(Box::new(element), bound)
    }

    /// The array type of the given element type and size.
    pub fn array_of(element: ResolvedType, size: usize) -> (r: ResolvedType)
        ensures
            r@ == model_array(element@, size as nat),
    {
        ResolvedType::Array(Box::new(element), size)
    }

    /// The sum type of the given left and right types.
    pub fn either_of(left: ResolvedType, right: ResolvedType) -> (r: ResolvedType)
        ensures
            r@ == model_either(left@, right@),
    {
        ResolvedType::Either(Box::new(left), Box::new(right))
    }
}

impl View for ResolvedType {
    type V = TypeModel;

    open spec fn view(&self) -> TypeModel {
        self.model()
    }
}


/// The leftmost user-defined alias in the type, if there is one.
pub open spec fn first_alias(m: TypeModel) -> Option<Seq<u8>>
    decreases m,
{
    match m {
        TypeModel::Alias(name) => Some(name),
        TypeModel::Builtin(_) => None,
        TypeModel::Boolean => None,
        TypeModel::UInt(_) => None,
        TypeModel::Tuple(es) => first_alias_of(es),
        TypeModel::Array(e, _) => first_alias(*e),
        TypeModel::List(e, _) => first_alias(*e),
        TypeModel::Either(l, r) => if first_alias(*l) is Some {
            first_alias(*l)
        } else {
            first_alias(*r)
        },
        TypeModel::Option(e) => first_alias(*e),
    }
}

/// The leftmost user-defined alias in a sequence of types, if there is one.
pub open spec fn first_alias_of(es: Seq<TypeModel>) -> Option<Seq<u8>>
    decreases es,
{
    if es.len() == 0 {
        None
    } else if first_alias_of(es.drop_last()) is Some {
        first_alias_of(es.drop_last())
    } else {
        first_alias(es.last())
    }
}

/// The type with every builtin alias replaced by the type for which it stands.
pub open spec fn resolve_builtins(m: TypeModel) -> TypeModel
    decreases m,
{
    match m {
        TypeModel::Builtin(b) => b.spec_resolve(),
        TypeModel::Tuple(es) => TypeModel::Tuple(resolve_builtins_of(es)),
        TypeModel::Array(e, n) => TypeModel::Array(Box::new(resolve_builtins(*e)), n),
        TypeModel::List(e, n) => TypeModel::List(Box::new(resolve_builtins(*e)), n),
        TypeModel::Either(l, r) => TypeModel::Either(
            Box::new(resolve_builtins(*l)),
            Box::new(resolve_builtins(*r)),
        ),
        TypeModel::Option(e) => TypeModel::Option(Box::new(resolve_builtins(*e))),
        _ => m,
    }
}

pub open spec fn resolve_builtins_of(es: Seq<TypeModel>) -> Seq<TypeModel>
    decreases es,
{
    if es.len() == 0 {
        Seq::empty()
    } else {
        resolve_builtins_of(es.drop_last()).push(resolve_builtins(es.last()))
    }
}

pub proof fn lemma_resolve_builtins_of(es: Seq<TypeModel>)
    ensures
        resolve_builtins_of(es).len() == es.len(),
        forall|i: int| 0 <= i < es.len() ==> #[trigger] resolve_builtins_of(es)[i] == resolve_builtins(es[i]),
    decreases es.len(),
{
    if es.len() > 0 {
        lemma_resolve_builtins_of(es.drop_last());
    }
}

impl AliasedType {
    /// Resolve the builtin aliases of the type.
    ///
    /// Fails with the leftmost user-defined alias if the type has one.
    pub fn resolve_builtin(&self) -> (r: Result<ResolvedType, AliasName>)
        ensures
            first_alias(self@) is None ==> (r matches Ok(t) && t@ == resolve_builtins(self@)),
            first_alias(self@) matches Some(name) ==> (r matches Err(n) && n@ == name),
        decreases self,
    {
        match self {
            AliasedType::Alias(name) => Err(AliasName::new(name.bytes.clone())),
            AliasedType::Builtin(b) => Ok(b.resolve()),
            AliasedType::Boolean => Ok(ResolvedType::Boolean),
            AliasedType::UInt(u) => Ok(ResolvedType::UInt(*u)),
            AliasedType::Tuple(es) => {
                proof {
                    AliasedType::lemma_models(es@);
                }
                let ghost ms = AliasedType::models(es@);
                let mut out: Vec<ResolvedType> = Vec::new();
                let mut i: usize = 0;
                while i < es.len()
                    invariant
                        i <= es.len(),
                        ms == AliasedType::models(es@),
                        ms.len() == es.len(),
                        forall|j: int| 0 <= j < es.len() ==> #[trigger] ms[j] == es@[j].model(),
                        first_alias_of(ms.take(i as int)) is None,
                        ResolvedType::models(out@) == resolve_builtins_of(ms.take(i as int)),
                        *self == AliasedType::Tuple(*es),
                    decreases es.len() - i,
                {
                    proof {
                        assert((*self)->Tuple_0 == *es);
                        assert(decreases_to!(*self => (*self)->Tuple_0));
                        assert(decreases_to!(*es => es@));
                        assert(decreases_to!(es@ => es@[i as int]));
                        assert(decreases_to!(*self => es@[i as int]));
                        assert(ms.take(i + 1).drop_last() =~= ms.take(i as int));
                    }
                    match es[i].resolve_builtin() {
                        Ok(t) => {
                            let ghost v0 = out@;
                            out.push(t);
                            proof {
                                assert(out@.drop_last() =~= v0);
                            }
                        },
                        Err(n) => {
                            proof {
                                assert(first_alias_of(ms.take(i + 1)) == first_alias(ms[i as int]));
                                lemma_first_alias_prefix(ms, i + 1);
                            }
                            return Err(n);
                        },
                    }
                    i = i + 1;
                }
                proof {
                    assert(ms.take(es.len() as int) =~= ms);
                }
                Ok(ResolvedType::Tuple(out))
            },
            AliasedType::Array(e, n) => match e.resolve_builtin() {
                Ok(t) => Ok(ResolvedType::Array(Box::new(t), *n)),
                Err(a) => Err(a),
            },
            AliasedType::List(e, n) => match e.resolve_builtin() {
                Ok(t) => Ok(ResolvedType::List(Box::new(t), *n)),
                Err(a) => Err(a),
            },
            AliasedType::Either(l, r) => match l.resolve_builtin() {
                Ok(tl) => match r.resolve_builtin() {
                    Ok(tr) => Ok(ResolvedType::Either(Box::new(tl), Box::new(tr))),
                    Err(a) => Err(a),
                },
                Err(a) => Err(a),
            },
            AliasedType::Option(e) => match e.resolve_builtin() {
                Ok(t) => Ok(ResolvedType::Option(Box::new(t))),
                Err(a) => Err(a),
            },
        }
    }
}

/// The leftmost alias of a prefix is the leftmost alias of the whole sequence.
pub proof fn lemma_first_alias_prefix(es: Seq<TypeModel>, k: int)
    requires
        0 <= k <= es.len(),
        first_alias_of(es.take(k)) is Some,
    ensures
        first_alias_of(es) == first_alias_of(es.take(k)),
    decreases es.len(),
{
    if k < es.len() {
        assert(es.drop_last().take(k) =~= es.take(k));
        lemma_first_alias_prefix(es.drop_last(), k);
    } else {
        assert(es.take(k) =~= es);
    }
}


impl ResolvedType {
    /// Whether the two types are the same type.
    pub fn same_as(&self, other: &ResolvedType) -> (r: bool)
        ensures
            r == (self@ == other@),
        decreases self,
    {
        match (self, other) {
            (ResolvedType::Boolean, ResolvedType::Boolean) => true,
            (ResolvedType::UInt(a), ResolvedType::UInt(b)) => *a == *b,
            (ResolvedType::Tuple(a), ResolvedType::Tuple(b)) => {
                proof {
                    ResolvedType::lemma_models(a@);
                    ResolvedType::lemma_models(b@);
                }
                if a.len() != b.len() {
                    proof {
                        assert(ResolvedType::models(a@).len() != ResolvedType::models(b@).len());
                    }
                    return false;
                }
                let mut i: usize = 0;
                while i < a.len()
                    invariant
                        i <= a.len(),
                        a.len() == b.len(),
                        ResolvedType::models(a@).len() == a.len(),
                        ResolvedType::models(b@).len() == b.len(),
                        forall|j: int| 0 <= j < a.len() ==> #[trigger] ResolvedType::models(a@)[j] == a@[j].model(),
                        forall|j: int| 0 <= j < b.len() ==> #[trigger] ResolvedType::models(b@)[j] == b@[j].model(),
                        forall|j: int| 0 <= j < i ==> a@[j].model() == b@[j].model(),
                        *self == ResolvedType::Tuple(*a),
                        *other == ResolvedType::Tuple(*b),
                    decreases a.len() - i,
                {
                    proof {
                        assert((*self)->Tuple_0 == *a);
                        assert(decreases_to!(*self => (*self)->Tuple_0));
                        assert(decreases_to!(*a => a@));
                        assert(decreases_to!(a@ => a@[i as int]));
                        assert(decreases_to!(*self => a@[i as int]));
                    }
                    if !a[i].same_as(&b[i]) {
                        proof {
                            assert(ResolvedType::models(a@)[i as int] != ResolvedType::models(b@)[i as int]);
                            assert(self@ == TypeModel::Tuple(ResolvedType::models(a@)));
                            assert(other@ == TypeModel::Tuple(ResolvedType::models(b@)));
                            assert(ResolvedType::models(a@) != ResolvedType::models(b@));
                        }
                        return false;
                    }
                    i = i + 1;
                }
                proof {
                    assert(ResolvedType::models(a@) =~= ResolvedType::models(b@));
                }
                true
            },
            (ResolvedType::Array(a, n), ResolvedType::Array(b, m)) => *n == *m && a.same_as(b),
            (ResolvedType::List(a, n), ResolvedType::List(b, m)) => *n == *m && a.same_as(b),
            (ResolvedType::Either(a, c), ResolvedType::Either(b, d)) => a.same_as(b) && c.same_as(d),
            (ResolvedType::Option(a), ResolvedType::Option(b)) => a.same_as(b),
            _ => false,
        }
    }

    /// A copy of the type.
    pub fn copy(&self) -> (r: ResolvedType)
        ensures
            r@ == self@,
        decreases self,
    {
        match self {
            ResolvedType::Boolean => ResolvedType::Boolean,
            ResolvedType::UInt(u) => ResolvedType::UInt(*u),
            ResolvedType::Tuple(es) => {
                proof {
                    ResolvedType::lemma_models(es@);
                }
                let mut out: Vec<ResolvedType> = Vec::new();
                let mut i: usize = 0;
                while i < es.len()
                    invariant
                        i <= es.len(),
                        ResolvedType::models(es@).len() == es.len(),
                        forall|j: int| 0 <= j < es.len() ==> #[trigger] ResolvedType::models(es@)[j] == es@[j].model(),
                        ResolvedType::models(out@) == ResolvedType::models(es@).take(i as int),
                        *self == ResolvedType::Tuple(*es),
                    decreases es.len() - i,
                {
                    proof {
                        assert((*self)->Tuple_0 == *es);
                        assert(decreases_to!(*self => (*self)->Tuple_0));
                        assert(decreases_to!(*es => es@));
                        assert(decreases_to!(es@ => es@[i as int]));
                        assert(decreases_to!(*self => es@[i as int]));
                    }
                    let c = es[i].copy();
                    let ghost v0 = out@;
                    out.push(c);
                    proof {
                        assert(out@.drop_last() =~= v0);
                        assert(ResolvedType::models(out@) =~= ResolvedType::models(es@).take(i + 1));
                    }
                    i = i + 1;
                }
                proof {
                    assert(ResolvedType::models(es@).take(es.len() as int) =~= ResolvedType::models(es@));
                }
                ResolvedType::Tuple(out)
            },
            ResolvedType::Array(e, n) => ResolvedType::Array(Box::new(e.copy()), *n),
            ResolvedType::List(e, n) => ResolvedType::List(Box::new(e.copy()), *n),
            ResolvedType::Either(l, r) => ResolvedType::Either(Box::new(l.copy()), Box::new(r.copy())),
            ResolvedType::Option(e) => ResolvedType::Option(Box::new(e.copy())),
        }
    }
}

} // verus!

verus! {

impl AliasedType {
    /// A copy of the type.
    pub fn copy(&self) -> (r: AliasedType)
        ensures
            r@ == self@,
        decreases self,
    {
        match self {
            AliasedType::Alias(name) => AliasedType::Alias(name.copy()),
            AliasedType::Builtin(b) => AliasedType::Builtin(*b),
            AliasedType::Boolean => AliasedType::Boolean,
            AliasedType::UInt(u) => AliasedType::UInt(*u),
            AliasedType::Tuple(es) => {
                proof {
                    AliasedType::lemma_models(es@);
                }
                let mut out: Vec<AliasedType> = Vec::new();
                let mut i: usize = 0;
                while i < es.len()
                    invariant
                        i <= es.len(),
                        AliasedType::models(es@).len() == es.len(),
                        forall|j: int| 0 <= j < es.len() ==> #[trigger] AliasedType::models(es@)[j] == es@[j].model(),
                        AliasedType::models(out@) == AliasedType::models(es@).take(i as int),
                        *self == AliasedType::Tuple(*es),
                    decreases es.len() - i,
                {
                    proof {
                        assert((*self)->Tuple_0 == *es);
                        assert(decreases_to!(*self => (*self)->Tuple_0));
                        assert(decreases_to!(*es => es@));
                        assert(decreases_to!(es@ => es@[i as int]));
                        assert(decreases_to!(*self => es@[i as int]));
                    }
                    let c = es[i].copy();
                    let ghost v0 = out@;
                    out.push(c);
                    proof {
                        assert(out@.drop_last() =~= v0);
                        assert(AliasedType::models(out@) =~= AliasedType::models(es@).take(i + 1));
                    }
                    i = i + 1;
                }
                proof {
                    assert(AliasedType::models(es@).take(es.len() as int) =~= AliasedType::models(es@));
                }
                AliasedType::Tuple(out)
            },
            AliasedType::Array(e, n) => AliasedType::Array(Box::new(e.copy()), *n),
            AliasedType::List(e, n) => AliasedType::List(Box::new(e.copy()), *n),
            AliasedType::Either(l, r) => AliasedType::Either(Box::new(l.copy()), Box::new(r.copy())),
            AliasedType::Option(e) => AliasedType::Option(Box::new(e.copy())),
        }
    }
}

} // verus!
