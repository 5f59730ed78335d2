//! High-level signatures of the Core jets of Simplicity.
use vstd::prelude::*;

use crate::jet::{array, bool, either, list, option, tuple, unit};
use crate::parse::valid_type;
use crate::types::{
    AliasedType, BuiltinAlias, TypeModel, UIntType, first_alias, first_alias_of, is_list_bound,
    model_array, model_either, model_list,
};

verus! {

/// The Core jet family of Simplicity.
#[derive(Clone, Copy, PartialEq, Eq, PartialOrd, Ord, Debug, Hash)]
pub enum Core {
    Add16,
    Add32,
    Add64,
    Add8,
    All16,
    All32,
    All64,
    All8,
    And1,
    And16,
    And32,
    And64,
    And8,
    Bip0340Verify,
    Ch1,
    Ch16,
    Ch32,
    Ch64,
    Ch8,
    CheckSigVerify,
    Complement1,
    Complement16,
    Complement32,
    Complement64,
    Complement8,
    Decompress,
    Decrement16,
    Decrement32,
    Decrement64,
    Decrement8,
    DivMod128_64,
    DivMod16,
    DivMod32,
    DivMod64,
    DivMod8,
    Divide16,
    Divide32,
    Divide64,
    Divide8,
    Divides16,
    Divides32,
    Divides64,
    Divides8,
    Eq1,
    Eq16,
    Eq256,
    Eq32,
    Eq64,
    Eq8,
    FeAdd,
    FeInvert,
    FeIsOdd,
    FeIsZero,
    FeMultiply,
    FeMultiplyBeta,
    FeNegate,
    FeNormalize,
    FeSquare,
    FeSquareRoot,
    FullAdd16,
    FullAdd32,
    FullAdd64,
    FullAdd8,
    FullDecrement16,
    FullDecrement32,
    FullDecrement64,
    FullDecrement8,
    FullIncrement16,
    FullIncrement32,
    FullIncrement64,
    FullIncrement8,
    FullLeftShift16_1,
    FullLeftShift16_2,
    FullLeftShift16_4,
    FullLeftShift16_8,
    FullLeftShift32_1,
    FullLeftShift32_16,
    FullLeftShift32_2,
    FullLeftShift32_4,
    FullLeftShift32_8,
    FullLeftShift64_1,
    FullLeftShift64_16,
    FullLeftShift64_2,
    FullLeftShift64_32,
    FullLeftShift64_4,
    FullLeftShift64_8,
    FullLeftShift8_1,
    FullLeftShift8_2,
    FullLeftShift8_4,
    FullMultiply16,
    FullMultiply32,
    FullMultiply64,
    FullMultiply8,
    FullRightShift16_1,
    FullRightShift16_2,
    FullRightShift16_4,
    FullRightShift16_8,
    FullRightShift32_1,
    FullRightShift32_16,
    FullRightShift32_2,
    FullRightShift32_4,
    FullRightShift32_8,
    FullRightShift64_1,
    FullRightShift64_16,
    FullRightShift64_2,
    FullRightShift64_32,
    FullRightShift64_4,
    FullRightShift64_8,
    FullRightShift8_1,
    FullRightShift8_2,
    FullRightShift8_4,
    FullSubtract16,
    FullSubtract32,
    FullSubtract64,
    FullSubtract8,
    GeIsOnCurve,
    GeNegate,
    GejAdd,
    GejDouble,
    GejEquiv,
    GejGeAdd,
    GejGeAddEx,
    GejGeEquiv,
    GejInfinity,
    GejIsInfinity,
    GejIsOnCurve,
    GejNegate,
    GejNormalize,
    GejRescale,
    GejXEquiv,
    GejYIsOdd,
    Generate,
    HashToCurve,
    High1,
    High16,
    High32,
    High64,
    High8,
    Increment16,
    Increment32,
    Increment64,
    Increment8,
    IsOne16,
    IsOne32,
    IsOne64,
    IsOne8,
    IsZero16,
    IsZero32,
    IsZero64,
    IsZero8,
    Le16,
    Le32,
    Le64,
    Le8,
    LeftExtend16_32,
    LeftExtend16_64,
    LeftExtend1_16,
    LeftExtend1_32,
    LeftExtend1_64,
    LeftExtend1_8,
    LeftExtend32_64,
    LeftExtend8_16,
    LeftExtend8_32,
    LeftExtend8_64,
    LeftPadHigh16_32,
    LeftPadHigh16_64,
    LeftPadHigh1_16,
    LeftPadHigh1_32,
    LeftPadHigh1_64,
    LeftPadHigh1_8,
    LeftPadHigh32_64,
    LeftPadHigh8_16,
    LeftPadHigh8_32,
    LeftPadHigh8_64,
    LeftPadLow16_32,
    LeftPadLow16_64,
    LeftPadLow1_16,
    LeftPadLow1_32,
    LeftPadLow1_64,
    LeftPadLow1_8,
    LeftPadLow32_64,
    LeftPadLow8_16,
    LeftPadLow8_32,
    LeftPadLow8_64,
    LeftRotate16,
    LeftRotate32,
    LeftRotate64,
    LeftRotate8,
    LeftShift16,
    LeftShift32,
    LeftShift64,
    LeftShift8,
    LeftShiftWith16,
    LeftShiftWith32,
    LeftShiftWith64,
    LeftShiftWith8,
    Leftmost16_1,
    Leftmost16_2,
    Leftmost16_4,
    Leftmost16_8,
    Leftmost32_1,
    Leftmost32_16,
    Leftmost32_2,
    Leftmost32_4,
    Leftmost32_8,
    Leftmost64_1,
    Leftmost64_16,
    Leftmost64_2,
    Leftmost64_32,
    Leftmost64_4,
    Leftmost64_8,
    Leftmost8_1,
    Leftmost8_2,
    Leftmost8_4,
    LinearCombination1,
    LinearVerify1,
    Low1,
    Low16,
    Low32,
    Low64,
    Low8,
    Lt16,
    Lt32,
    Lt64,
    Lt8,
    Maj1,
    Maj16,
    Maj32,
    Maj64,
    Maj8,
    Max16,
    Max32,
    Max64,
    Max8,
    Median16,
    Median32,
    Median64,
    Median8,
    Min16,
    Min32,
    Min64,
    Min8,
    Modulo16,
    Modulo32,
    Modulo64,
    Modulo8,
    Multiply16,
    Multiply32,
    Multiply64,
    Multiply8,
    Negate16,
    Negate32,
    Negate64,
    Negate8,
    One16,
    One32,
    One64,
    One8,
    Or1,
    Or16,
    Or32,
    Or64,
    Or8,
    ParseLock,
    ParseSequence,
    PointVerify1,
    RightExtend16_32,
    RightExtend16_64,
    RightExtend32_64,
    RightExtend8_16,
    RightExtend8_32,
    RightExtend8_64,
    RightPadHigh16_32,
    RightPadHigh16_64,
    RightPadHigh1_16,
    RightPadHigh1_32,
    RightPadHigh1_64,
    RightPadHigh1_8,
    RightPadHigh32_64,
    RightPadHigh8_16,
    RightPadHigh8_32,
    RightPadHigh8_64,
    RightPadLow16_32,
    RightPadLow16_64,
    RightPadLow1_16,
    RightPadLow1_32,
    RightPadLow1_64,
    RightPadLow1_8,
    RightPadLow32_64,
    RightPadLow8_16,
    RightPadLow8_32,
    RightPadLow8_64,
    RightRotate16,
    RightRotate32,
    RightRotate64,
    RightRotate8,
    RightShift16,
    RightShift32,
    RightShift64,
    RightShift8,
    RightShiftWith16,
    RightShiftWith32,
    RightShiftWith64,
    RightShiftWith8,
    Rightmost16_1,
    Rightmost16_2,
    Rightmost16_4,
    Rightmost16_8,
    Rightmost32_1,
    Rightmost32_16,
    Rightmost32_2,
    Rightmost32_4,
    Rightmost32_8,
    Rightmost64_1,
    Rightmost64_16,
    Rightmost64_2,
    Rightmost64_32,
    Rightmost64_4,
    Rightmost64_8,
    Rightmost8_1,
    Rightmost8_2,
    Rightmost8_4,
    ScalarAdd,
    ScalarInvert,
    ScalarIsZero,
    ScalarMultiply,
    ScalarMultiplyLambda,
    ScalarNegate,
    ScalarNormalize,
    ScalarSquare,
    Scale,
    Sha256Block,
    Sha256Ctx8Add1,
    Sha256Ctx8Add128,
    Sha256Ctx8Add16,
    Sha256Ctx8Add2,
    Sha256Ctx8Add256,
    Sha256Ctx8Add32,
    Sha256Ctx8Add4,
    Sha256Ctx8Add512,
    Sha256Ctx8Add64,
    Sha256Ctx8Add8,
    Sha256Ctx8AddBuffer511,
    Sha256Ctx8Finalize,
    Sha256Ctx8Init,
    Sha256Iv,
    Some1,
    Some16,
    Some32,
    Some64,
    Some8,
    Subtract16,
    Subtract32,
    Subtract64,
    Subtract8,
    Swu,
    TapdataInit,
    Verify,
    Xor1,
    Xor16,
    Xor32,
    Xor64,
    Xor8,
    XorXor1,
    XorXor16,
    XorXor32,
    XorXor64,
    XorXor8,
}


impl Core {
    /// Whether the jet may not be named directly in SimplicityHL source.
    ///
    /// `verify` and `check_sig_verify` are reached through `assert!` and signature
    /// checks instead.
    pub fn is_disabled(&self) -> (r: bool)
        ensures
            r == (*self == Core::CheckSigVerify || *self == Core::Verify),
    {
        match self {
            Core::CheckSigVerify | Core::Verify => true,
            _ => false,
        }
    }
}

fn uint(u: UIntType) -> (r: AliasedType)
    ensures
        r@ == TypeModel::UInt(u),
{
    AliasedType::UInt(u)
}

fn builtin(b: BuiltinAlias) -> (r: AliasedType)
    ensures
        r@ == TypeModel::Builtin(b),
{
    AliasedType::Builtin(b)
}

fn tuple2(a: AliasedType, b: AliasedType) -> (r: AliasedType)
    ensures
        r@ == TypeModel::Tuple(seq![a@, b@]),
{
    let v = args2(a, b);
    tuple(v)
}

fn args0() -> (r: Vec<AliasedType>)
    ensures
        AliasedType::models(r@) == Seq::<TypeModel>::empty(),
{
    let r: Vec<AliasedType> = Vec::new();
    assert(AliasedType::models(r@) =~= Seq::<TypeModel>::empty());
    r
}

fn args1(a: AliasedType) -> (r: Vec<AliasedType>)
    ensures
        AliasedType::models(r@) == seq![a@],
{
    let ghost m = seq![a@];
    let mut r: Vec<AliasedType> = Vec::new();
    r.push(a);
    proof {
        AliasedType::lemma_models(r@);
        assert(AliasedType::models(r@) =~= m);
    }
    r
}

fn args2(a: AliasedType, b: AliasedType) -> (r: Vec<AliasedType>)
    ensures
        AliasedType::models(r@) == seq![a@, b@],
{
    let ghost m = seq![a@, b@];
    let mut r: Vec<AliasedType> = Vec::new();
    r.push(a);
    r.push(b);
    proof {
        AliasedType::lemma_models(r@);
        assert(AliasedType::models(r@) =~= m);
    }
    r
}

fn args3(a: AliasedType, b: AliasedType, c: AliasedType) -> (r: Vec<AliasedType>)
    ensures
        AliasedType::models(r@) == seq![a@, b@, c@],
{
    let ghost m = seq![a@, b@, c@];
    let mut r: Vec<AliasedType> = Vec::new();
    r.push(a);
    r.push(b);
    r.push(c);
    proof {
        AliasedType::lemma_models(r@);
        assert(AliasedType::models(r@) =~= m);
    }
    r
}

fn args4(a: AliasedType, b: AliasedType, c: AliasedType, d: AliasedType) -> (r: Vec<AliasedType>)
    ensures
        AliasedType::models(r@) == seq![a@, b@, c@, d@],
{
    let ghost m = seq![a@, b@, c@, d@];
    let mut r: Vec<AliasedType> = Vec::new();
    r.push(a);
    r.push(b);
    r.push(c);
    r.push(d);
    proof {
        AliasedType::lemma_models(r@);
        assert(AliasedType::models(r@) =~= m);
    }
    r
}

/// High-level argument types of a Core jet.
pub open spec fn spec_source_type(jet: Core) -> Seq<TypeModel> {
    match jet {
        Core::Low1 | Core::Low8 | Core::Low16 | Core::Low32 | Core::Low64 | Core::High1 | Core::High8 | Core::High16 | Core::High32 | Core::High64 => Seq::empty(),
        Core::Verify => seq![TypeModel::Boolean],
        Core::Complement1 | Core::Some1 | Core::LeftPadLow1_8 | Core::LeftPadLow1_16 | Core::LeftPadLow1_32 | Core::LeftPadLow1_64 | Core::LeftPadHigh1_8 | Core::LeftPadHigh1_16 | Core::LeftPadHigh1_32 | Core::LeftPadHigh1_64 | Core::LeftExtend1_8 | Core::LeftExtend1_16 | Core::LeftExtend1_32 | Core::LeftExtend1_64 | Core::RightPadLow1_8 | Core::RightPadLow1_16 | Core::RightPadLow1_32 | Core::RightPadLow1_64 | Core::RightPadHigh1_8 | Core::RightPadHigh1_16 | Core::RightPadHigh1_32 | Core::RightPadHigh1_64 => seq![TypeModel::UInt(UIntType::U1)],
        Core::Complement8 | Core::Some8 | Core::All8 | Core::Leftmost8_1 | Core::Leftmost8_2 | Core::Leftmost8_4 | Core::Rightmost8_1 | Core::Rightmost8_2 | Core::Rightmost8_4 | Core::LeftPadLow8_16 | Core::LeftPadLow8_32 | Core::LeftPadLow8_64 | Core::LeftPadHigh8_16 | Core::LeftPadHigh8_32 | Core::LeftPadHigh8_64 | Core::LeftExtend8_16 | Core::LeftExtend8_32 | Core::LeftExtend8_64 | Core::RightPadLow8_16 | Core::RightPadLow8_32 | Core::RightPadLow8_64 | Core::RightPadHigh8_16 | Core::RightPadHigh8_32 | Core::RightPadHigh8_64 | Core::RightExtend8_16 | Core::RightExtend8_32 | Core::RightExtend8_64 => seq![TypeModel::UInt(UIntType::U8)],
        Core::Complement16 | Core::Some16 | Core::All16 | Core::Leftmost16_1 | Core::Leftmost16_2 | Core::Leftmost16_4 | Core::Leftmost16_8 | Core::Rightmost16_1 | Core::Rightmost16_2 | Core::Rightmost16_4 | Core::Rightmost16_8 | Core::LeftPadLow16_32 | Core::LeftPadLow16_64 | Core::LeftPadHigh16_32 | Core::LeftPadHigh16_64 | Core::LeftExtend16_32 | Core::LeftExtend16_64 | Core::RightPadLow16_32 | Core::RightPadLow16_64 | Core::RightPadHigh16_32 | Core::RightPadHigh16_64 | Core::RightExtend16_32 | Core::RightExtend16_64 => seq![TypeModel::UInt(UIntType::U16)],
        Core::Complement32 | Core::Some32 | Core::All32 | Core::Leftmost32_1 | Core::Leftmost32_2 | Core::Leftmost32_4 | Core::Leftmost32_8 | Core::Leftmost32_16 | Core::Rightmost32_1 | Core::Rightmost32_2 | Core::Rightmost32_4 | Core::Rightmost32_8 | Core::Rightmost32_16 | Core::LeftPadLow32_64 | Core::LeftPadHigh32_64 | Core::LeftExtend32_64 | Core::RightPadLow32_64 | Core::RightPadHigh32_64 | Core::RightExtend32_64 => seq![TypeModel::UInt(UIntType::U32)],
        Core::Complement64 | Core::Some64 | Core::All64 | Core::Leftmost64_1 | Core::Leftmost64_2 | Core::Leftmost64_4 | Core::Leftmost64_8 | Core::Leftmost64_16 | Core::Leftmost64_32 | Core::Rightmost64_1 | Core::Rightmost64_2 | Core::Rightmost64_4 | Core::Rightmost64_8 | Core::Rightmost64_16 | Core::Rightmost64_32 => seq![TypeModel::UInt(UIntType::U64)],
        Core::And1 | Core::Or1 | Core::Xor1 | Core::Eq1 => seq![TypeModel::UInt(UIntType::U1), TypeModel::UInt(UIntType::U1)],
        Core::And8 | Core::Or8 | Core::Xor8 | Core::Eq8 => seq![TypeModel::UInt(UIntType::U8), TypeModel::UInt(UIntType::U8)],
        Core::And16 | Core::Or16 | Core::Xor16 | Core::Eq16 => seq![TypeModel::UInt(UIntType::U16), TypeModel::UInt(UIntType::U16)],
        Core::And32 | Core::Or32 | Core::Xor32 | Core::Eq32 => seq![TypeModel::UInt(UIntType::U32), TypeModel::UInt(UIntType::U32)],
        Core::And64 | Core::Or64 | Core::Xor64 | Core::Eq64 => seq![TypeModel::UInt(UIntType::U64), TypeModel::UInt(UIntType::U64)],
        Core::Eq256 => seq![TypeModel::UInt(UIntType::U256), TypeModel::UInt(UIntType::U256)],
        Core::Maj1 | Core::XorXor1 | Core::Ch1 => seq![TypeModel::UInt(UIntType::U1), TypeModel::UInt(UIntType::U1), TypeModel::UInt(UIntType::U1)],
        Core::Maj8 | Core::XorXor8 | Core::Ch8 => seq![TypeModel::UInt(UIntType::U8), TypeModel::UInt(UIntType::U8), TypeModel::UInt(UIntType::U8)],
        Core::Maj16 | Core::XorXor16 | Core::Ch16 => seq![TypeModel::UInt(UIntType::U16), TypeModel::Tuple(seq![TypeModel::UInt(UIntType::U16), TypeModel::UInt(UIntType::U16)])],
        Core::Maj32 | Core::XorXor32 | Core::Ch32 => seq![TypeModel::UInt(UIntType::U32), TypeModel::Tuple(seq![TypeModel::UInt(UIntType::U32), TypeModel::UInt(UIntType::U32)])],
        Core::Maj64 | Core::XorXor64 | Core::Ch64 => seq![TypeModel::UInt(UIntType::U64), TypeModel::Tuple(seq![TypeModel::UInt(UIntType::U64), TypeModel::UInt(UIntType::U64)])],
        Core::FullLeftShift8_1 => seq![TypeModel::UInt(UIntType::U8), TypeModel::UInt(UIntType::U1)],
        Core::FullLeftShift8_2 => seq![TypeModel::UInt(UIntType::U8), TypeModel::UInt(UIntType::U2)],
        Core::FullLeftShift8_4 => seq![TypeModel::UInt(UIntType::U8), TypeModel::UInt(UIntType::U4)],
        Core::FullLeftShift16_1 => seq![TypeModel::UInt(UIntType::U16), TypeModel::UInt(UIntType::U1)],
        Core::FullLeftShift16_2 => seq![TypeModel::UInt(UIntType::U16), TypeModel::UInt(UIntType::U2)],
        Core::FullLeftShift16_4 => seq![TypeModel::UInt(UIntType::U16), TypeModel::UInt(UIntType::U4)],
        Core::FullLeftShift16_8 => seq![TypeModel::UInt(UIntType::U16), TypeModel::UInt(UIntType::U8)],
        Core::FullLeftShift32_1 => seq![TypeModel::UInt(UIntType::U32), TypeModel::UInt(UIntType::U1)],
        Core::FullLeftShift32_2 => seq![TypeModel::UInt(UIntType::U32), TypeModel::UInt(UIntType::U2)],
        Core::FullLeftShift32_4 => seq![TypeModel::UInt(UIntType::U32), TypeModel::UInt(UIntType::U4)],
        Core::FullLeftShift32_8 => seq![TypeModel::UInt(UIntType::U32), TypeModel::UInt(UIntType::U8)],
        Core::FullLeftShift32_16 => seq![TypeModel::UInt(UIntType::U32), TypeModel::UInt(UIntType::U16)],
        Core::FullLeftShift64_1 => seq![TypeModel::UInt(UIntType::U64), TypeModel::UInt(UIntType::U1)],
        Core::FullLeftShift64_2 => seq![TypeModel::UInt(UIntType::U64), TypeModel::UInt(UIntType::U2)],
        Core::FullLeftShift64_4 => seq![TypeModel::UInt(UIntType::U64), TypeModel::UInt(UIntType::U4)],
        Core::FullLeftShift64_8 => seq![TypeModel::UInt(UIntType::U64), TypeModel::UInt(UIntType::U8)],
        Core::FullLeftShift64_16 => seq![TypeModel::UInt(UIntType::U64), TypeModel::UInt(UIntType::U16)],
        Core::FullLeftShift64_32 => seq![TypeModel::UInt(UIntType::U64), TypeModel::UInt(UIntType::U32)],
        Core::FullRightShift8_1 => seq![TypeModel::UInt(UIntType::U1), TypeModel::UInt(UIntType::U8)],
        Core::FullRightShift8_2 => seq![TypeModel::UInt(UIntType::U2), TypeModel::UInt(UIntType::U8)],
        Core::FullRightShift8_4 => seq![TypeModel::UInt(UIntType::U4), TypeModel::UInt(UIntType::U8)],
        Core::FullRightShift16_1 => seq![TypeModel::UInt(UIntType::U1), TypeModel::UInt(UIntType::U16)],
        Core::FullRightShift16_2 => seq![TypeModel::UInt(UIntType::U2), TypeModel::UInt(UIntType::U16)],
        Core::FullRightShift16_4 => seq![TypeModel::UInt(UIntType::U4), TypeModel::UInt(UIntType::U16)],
        Core::FullRightShift16_8 => seq![TypeModel::UInt(UIntType::U8), TypeModel::UInt(UIntType::U16)],
        Core::FullRightShift32_1 => seq![TypeModel::UInt(UIntType::U1), TypeModel::UInt(UIntType::U32)],
        Core::FullRightShift32_2 => seq![TypeModel::UInt(UIntType::U2), TypeModel::UInt(UIntType::U32)],
        Core::FullRightShift32_4 => seq![TypeModel::UInt(UIntType::U4), TypeModel::UInt(UIntType::U32)],
        Core::FullRightShift32_8 => seq![TypeModel::UInt(UIntType::U8), TypeModel::UInt(UIntType::U32)],
        Core::FullRightShift32_16 => seq![TypeModel::UInt(UIntType::U16), TypeModel::UInt(UIntType::U32)],
        Core::FullRightShift64_1 => seq![TypeModel::UInt(UIntType::U1), TypeModel::UInt(UIntType::U64)],
        Core::FullRightShift64_2 => seq![TypeModel::UInt(UIntType::U2), TypeModel::UInt(UIntType::U64)],
        Core::FullRightShift64_4 => seq![TypeModel::UInt(UIntType::U4), TypeModel::UInt(UIntType::U64)],
        Core::FullRightShift64_8 => seq![TypeModel::UInt(UIntType::U8), TypeModel::UInt(UIntType::U64)],
        Core::FullRightShift64_16 => seq![TypeModel::UInt(UIntType::U16), TypeModel::UInt(UIntType::U64)],
        Core::FullRightShift64_32 => seq![TypeModel::UInt(UIntType::U32), TypeModel::UInt(UIntType::U64)],
        Core::LeftShiftWith8 | Core::RightShiftWith8 => seq![TypeModel::UInt(UIntType::U1), TypeModel::UInt(UIntType::U4), TypeModel::UInt(UIntType::U8)],
        Core::LeftShiftWith16 | Core::RightShiftWith16 => seq![TypeModel::UInt(UIntType::U1), TypeModel::UInt(UIntType::U4), TypeModel::UInt(UIntType::U16)],
        Core::LeftShiftWith32 | Core::RightShiftWith32 => seq![TypeModel::UInt(UIntType::U1), TypeModel::UInt(UIntType::U8), TypeModel::UInt(UIntType::U32)],
        Core::LeftShiftWith64 | Core::RightShiftWith64 => seq![TypeModel::UInt(UIntType::U1), TypeModel::UInt(UIntType::U8), TypeModel::UInt(UIntType::U64)],
        Core::LeftShift8 | Core::RightShift8 | Core::LeftRotate8 | Core::RightRotate8 => seq![TypeModel::UInt(UIntType::U4), TypeModel::UInt(UIntType::U8)],
        Core::LeftShift16 | Core::RightShift16 | Core::LeftRotate16 | Core::RightRotate16 => seq![TypeModel::UInt(UIntType::U4), TypeModel::UInt(UIntType::U16)],
        Core::LeftShift32 | Core::RightShift32 | Core::LeftRotate32 | Core::RightRotate32 => seq![TypeModel::UInt(UIntType::U8), TypeModel::UInt(UIntType::U32)],
        Core::LeftShift64 | Core::RightShift64 | Core::LeftRotate64 | Core::RightRotate64 => seq![TypeModel::UInt(UIntType::U8), TypeModel::UInt(UIntType::U64)],
        Core::One8 | Core::One16 | Core::One32 | Core::One64 => Seq::empty(),
        Core::Increment8 | Core::Negate8 | Core::Decrement8 | Core::IsZero8 | Core::IsOne8 => seq![TypeModel::UInt(UIntType::U8)],
        Core::Increment16 | Core::Negate16 | Core::Decrement16 | Core::IsZero16 | Core::IsOne16 => seq![TypeModel::UInt(UIntType::U16)],
        Core::Increment32 | Core::Negate32 | Core::Decrement32 | Core::IsZero32 | Core::IsOne32 => seq![TypeModel::UInt(UIntType::U32)],
        Core::Increment64 | Core::Negate64 | Core::Decrement64 | Core::IsZero64 | Core::IsOne64 => seq![TypeModel::UInt(UIntType::U64)],
        Core::Add8 | Core::Subtract8 | Core::Multiply8 | Core::Le8 | Core::Lt8 | Core::Min8 | Core::Max8 | Core::DivMod8 | Core::Divide8 | Core::Modulo8 | Core::Divides8 => seq![TypeModel::UInt(UIntType::U8), TypeModel::UInt(UIntType::U8)],
        Core::Add16 | Core::Subtract16 | Core::Multiply16 | Core::Le16 | Core::Lt16 | Core::Min16 | Core::Max16 | Core::DivMod16 | Core::Divide16 | Core::Modulo16 | Core::Divides16 => seq![TypeModel::UInt(UIntType::U16), TypeModel::UInt(UIntType::U16)],
        Core::Add32 | Core::Subtract32 | Core::Multiply32 | Core::Le32 | Core::Lt32 | Core::Min32 | Core::Max32 | Core::DivMod32 | Core::Divide32 | Core::Modulo32 | Core::Divides32 => seq![TypeModel::UInt(UIntType::U32), TypeModel::UInt(UIntType::U32)],
        Core::Add64 | Core::Subtract64 | Core::Multiply64 | Core::Le64 | Core::Lt64 | Core::Min64 | Core::Max64 | Core::DivMod64 | Core::Divide64 | Core::Modulo64 | Core::Divides64 => seq![TypeModel::UInt(UIntType::U64), TypeModel::UInt(UIntType::U64)],
        Core::DivMod128_64 => seq![TypeModel::UInt(UIntType::U128), TypeModel::UInt(UIntType::U64)],
        Core::FullAdd8 | Core::FullSubtract8 => seq![TypeModel::Boolean, TypeModel::UInt(UIntType::U8), TypeModel::UInt(UIntType::U8)],
        Core::FullAdd16 | Core::FullSubtract16 => seq![TypeModel::Boolean, TypeModel::UInt(UIntType::U16), TypeModel::UInt(UIntType::U16)],
        Core::FullAdd32 | Core::FullSubtract32 => seq![TypeModel::Boolean, TypeModel::UInt(UIntType::U32), TypeModel::UInt(UIntType::U32)],
        Core::FullAdd64 | Core::FullSubtract64 => seq![TypeModel::Boolean, TypeModel::UInt(UIntType::U64), TypeModel::UInt(UIntType::U64)],
        Core::FullIncrement8 | Core::FullDecrement8 => seq![TypeModel::Boolean, TypeModel::UInt(UIntType::U8)],
        Core::FullIncrement16 | Core::FullDecrement16 => seq![TypeModel::Boolean, TypeModel::UInt(UIntType::U16)],
        Core::FullIncrement32 | Core::FullDecrement32 => seq![TypeModel::Boolean, TypeModel::UInt(UIntType::U32)],
        Core::FullIncrement64 | Core::FullDecrement64 => seq![TypeModel::Boolean, TypeModel::UInt(UIntType::U64)],
        Core::FullMultiply8 => seq![TypeModel::UInt(UIntType::U8), TypeModel::UInt(UIntType::U8), TypeModel::UInt(UIntType::U8), TypeModel::UInt(UIntType::U8)],
        Core::FullMultiply16 => seq![TypeModel::UInt(UIntType::U16), TypeModel::UInt(UIntType::U16), TypeModel::UInt(UIntType::U16), TypeModel::UInt(UIntType::U16)],
        Core::FullMultiply32 => seq![TypeModel::UInt(UIntType::U32), TypeModel::UInt(UIntType::U32), TypeModel::UInt(UIntType::U32), TypeModel::UInt(UIntType::U32)],
        Core::FullMultiply64 => seq![TypeModel::UInt(UIntType::U64), TypeModel::UInt(UIntType::U64), TypeModel::UInt(UIntType::U64), TypeModel::UInt(UIntType::U64)],
        Core::Median8 => seq![TypeModel::UInt(UIntType::U8), TypeModel::UInt(UIntType::U8), TypeModel::UInt(UIntType::U8)],
        Core::Median16 => seq![TypeModel::UInt(UIntType::U16), TypeModel::UInt(UIntType::U16), TypeModel::UInt(UIntType::U16)],
        Core::Median32 => seq![TypeModel::UInt(UIntType::U32), TypeModel::UInt(UIntType::U32), TypeModel::UInt(UIntType::U32)],
        Core::Median64 => seq![TypeModel::UInt(UIntType::U64), TypeModel::UInt(UIntType::U64), TypeModel::UInt(UIntType::U64)],
        Core::Sha256Iv | Core::Sha256Ctx8Init => Seq::empty(),
        Core::Sha256Block => seq![TypeModel::UInt(UIntType::U256), TypeModel::UInt(UIntType::U256), TypeModel::UInt(UIntType::U256)],
        Core::Sha256Ctx8Add1 => seq![TypeModel::Builtin(BuiltinAlias::Ctx8), TypeModel::UInt(UIntType::U8)],
        Core::Sha256Ctx8Add2 => seq![TypeModel::Builtin(BuiltinAlias::Ctx8), TypeModel::UInt(UIntType::U16)],
        Core::Sha256Ctx8Add4 => seq![TypeModel::Builtin(BuiltinAlias::Ctx8), TypeModel::UInt(UIntType::U32)],
        Core::Sha256Ctx8Add8 => seq![TypeModel::Builtin(BuiltinAlias::Ctx8), TypeModel::UInt(UIntType::U64)],
        Core::Sha256Ctx8Add16 => seq![TypeModel::Builtin(BuiltinAlias::Ctx8), TypeModel::UInt(UIntType::U128)],
        Core::Sha256Ctx8Add32 => seq![TypeModel::Builtin(BuiltinAlias::Ctx8), TypeModel::UInt(UIntType::U256)],
        Core::Sha256Ctx8Add64 => seq![TypeModel::Builtin(BuiltinAlias::Ctx8), model_array(TypeModel::UInt(UIntType::U8), 64)],
        Core::Sha256Ctx8Add128 => seq![TypeModel::Builtin(BuiltinAlias::Ctx8), model_array(TypeModel::UInt(UIntType::U8), 128)],
        Core::Sha256Ctx8Add256 => seq![TypeModel::Builtin(BuiltinAlias::Ctx8), model_array(TypeModel::UInt(UIntType::U8), 256)],
        Core::Sha256Ctx8Add512 => seq![TypeModel::Builtin(BuiltinAlias::Ctx8), model_array(TypeModel::UInt(UIntType::U8), 512)],
        Core::Sha256Ctx8AddBuffer511 => seq![TypeModel::Builtin(BuiltinAlias::Ctx8), model_list(TypeModel::UInt(UIntType::U8), 512)],
        Core::Sha256Ctx8Finalize => seq![TypeModel::Builtin(BuiltinAlias::Ctx8)],
        Core::PointVerify1 => seq![TypeModel::Tuple(seq![TypeModel::Tuple(seq![TypeModel::Builtin(BuiltinAlias::Scalar), TypeModel::Builtin(BuiltinAlias::Point)]), TypeModel::Builtin(BuiltinAlias::Scalar)]), TypeModel::Builtin(BuiltinAlias::Point)],
        Core::Decompress => seq![TypeModel::Builtin(BuiltinAlias::Point)],
        Core::LinearVerify1 => seq![TypeModel::Tuple(seq![TypeModel::Tuple(seq![TypeModel::Builtin(BuiltinAlias::Scalar), TypeModel::Builtin(BuiltinAlias::Ge)]), TypeModel::Builtin(BuiltinAlias::Scalar)]), TypeModel::Builtin(BuiltinAlias::Ge)],
        Core::LinearCombination1 => seq![TypeModel::Tuple(seq![TypeModel::Builtin(BuiltinAlias::Scalar), TypeModel::Builtin(BuiltinAlias::Gej)]), TypeModel::Builtin(BuiltinAlias::Scalar)],
        Core::Scale => seq![TypeModel::Builtin(BuiltinAlias::Scalar), TypeModel::Builtin(BuiltinAlias::Gej)],
        Core::Generate => seq![TypeModel::Builtin(BuiltinAlias::Scalar)],
        Core::GejInfinity => Seq::empty(),
        Core::GejNormalize | Core::GejNegate | Core::GejDouble | Core::GejIsInfinity | Core::GejYIsOdd | Core::GejIsOnCurve => seq![TypeModel::Builtin(BuiltinAlias::Gej)],
        Core::GeNegate | Core::GeIsOnCurve => seq![TypeModel::Builtin(BuiltinAlias::Ge)],
        Core::GejAdd | Core::GejEquiv => seq![TypeModel::Builtin(BuiltinAlias::Gej), TypeModel::Builtin(BuiltinAlias::Gej)],
        Core::GejGeAddEx | Core::GejGeAdd | Core::GejGeEquiv => seq![TypeModel::Builtin(BuiltinAlias::Gej), TypeModel::Builtin(BuiltinAlias::Ge)],
        Core::GejRescale => seq![TypeModel::Builtin(BuiltinAlias::Gej), TypeModel::Builtin(BuiltinAlias::Fe)],
        Core::GejXEquiv => seq![TypeModel::Builtin(BuiltinAlias::Fe), TypeModel::Builtin(BuiltinAlias::Gej)],
        Core::ScalarAdd | Core::ScalarMultiply => seq![TypeModel::Builtin(BuiltinAlias::Scalar), TypeModel::Builtin(BuiltinAlias::Scalar)],
        Core::ScalarNormalize | Core::ScalarNegate | Core::ScalarSquare | Core::ScalarInvert | Core::ScalarMultiplyLambda | Core::ScalarIsZero => seq![TypeModel::Builtin(BuiltinAlias::Scalar)],
        Core::FeNormalize | Core::FeNegate | Core::FeSquare | Core::FeMultiplyBeta | Core::FeInvert | Core::FeSquareRoot | Core::FeIsZero | Core::FeIsOdd | Core::Swu => seq![TypeModel::Builtin(BuiltinAlias::Fe)],
        Core::FeAdd | Core::FeMultiply => seq![TypeModel::Builtin(BuiltinAlias::Fe), TypeModel::Builtin(BuiltinAlias::Fe)],
        Core::HashToCurve => seq![TypeModel::UInt(UIntType::U256)],
        Core::CheckSigVerify => seq![TypeModel::Tuple(seq![TypeModel::Builtin(BuiltinAlias::Pubkey), TypeModel::Builtin(BuiltinAlias::Message64)]), TypeModel::Builtin(BuiltinAlias::Signature)],
        Core::Bip0340Verify => seq![TypeModel::Tuple(seq![TypeModel::Builtin(BuiltinAlias::Pubkey), TypeModel::Builtin(BuiltinAlias::Message)]), TypeModel::Builtin(BuiltinAlias::Signature)],
        Core::TapdataInit => Seq::empty(),
        Core::ParseLock | Core::ParseSequence => seq![TypeModel::UInt(UIntType::U32)],
    }
}

/// Return the high-level argument types of a Core jet.
pub fn source_type(jet: Core) -> (r: Vec<AliasedType>)
    ensures
        AliasedType::models(r@) == spec_source_type(jet),
{
    proof {
        reveal_with_fuel(is_list_bound, 10);
    }
    match jet {
        Core::Low1 | Core::Low8 | Core::Low16 | Core::Low32 | Core::Low64 | Core::High1 | Core::High8 | Core::High16 | Core::High32 | Core::High64 => args0(),
        Core::Verify => args1(bool()),
        Core::Complement1 | Core::Some1 | Core::LeftPadLow1_8 | Core::LeftPadLow1_16 | Core::LeftPadLow1_32 | Core::LeftPadLow1_64 | Core::LeftPadHigh1_8 | Core::LeftPadHigh1_16 | Core::LeftPadHigh1_32 | Core::LeftPadHigh1_64 | Core::LeftExtend1_8 | Core::LeftExtend1_16 | Core::LeftExtend1_32 | Core::LeftExtend1_64 | Core::RightPadLow1_8 | Core::RightPadLow1_16 | Core::RightPadLow1_32 | Core::RightPadLow1_64 | Core::RightPadHigh1_8 | Core::RightPadHigh1_16 | Core::RightPadHigh1_32 | Core::RightPadHigh1_64 => args1(uint(UIntType::U1)),
        Core::Complement8 | Core::Some8 | Core::All8 | Core::Leftmost8_1 | Core::Leftmost8_2 | Core::Leftmost8_4 | Core::Rightmost8_1 | Core::Rightmost8_2 | Core::Rightmost8_4 | Core::LeftPadLow8_16 | Core::LeftPadLow8_32 | Core::LeftPadLow8_64 | Core::LeftPadHigh8_16 | Core::LeftPadHigh8_32 | Core::LeftPadHigh8_64 | Core::LeftExtend8_16 | Core::LeftExtend8_32 | Core::LeftExtend8_64 | Core::RightPadLow8_16 | Core::RightPadLow8_32 | Core::RightPadLow8_64 | Core::RightPadHigh8_16 | Core::RightPadHigh8_32 | Core::RightPadHigh8_64 | Core::RightExtend8_16 | Core::RightExtend8_32 | Core::RightExtend8_64 => args1(uint(UIntType::U8)),
        Core::Complement16 | Core::Some16 | Core::All16 | Core::Leftmost16_1 | Core::Leftmost16_2 | Core::Leftmost16_4 | Core::Leftmost16_8 | Core::Rightmost16_1 | Core::Rightmost16_2 | Core::Rightmost16_4 | Core::Rightmost16_8 | Core::LeftPadLow16_32 | Core::LeftPadLow16_64 | Core::LeftPadHigh16_32 | Core::LeftPadHigh16_64 | Core::LeftExtend16_32 | Core::LeftExtend16_64 | Core::RightPadLow16_32 | Core::RightPadLow16_64 | Core::RightPadHigh16_32 | Core::RightPadHigh16_64 | Core::RightExtend16_32 | Core::RightExtend16_64 => args1(uint(UIntType::U16)),
        Core::Complement32 | Core::Some32 | Core::All32 | Core::Leftmost32_1 | Core::Leftmost32_2 | Core::Leftmost32_4 | Core::Leftmost32_8 | Core::Leftmost32_16 | Core::Rightmost32_1 | Core::Rightmost32_2 | Core::Rightmost32_4 | Core::Rightmost32_8 | Core::Rightmost32_16 | Core::LeftPadLow32_64 | Core::LeftPadHigh32_64 | Core::LeftExtend32_64 | Core::RightPadLow32_64 | Core::RightPadHigh32_64 | Core::RightExtend32_64 => args1(uint(UIntType::U32)),
        Core::Complement64 | Core::Some64 | Core::All64 | Core::Leftmost64_1 | Core::Leftmost64_2 | Core::Leftmost64_4 | Core::Leftmost64_8 | Core::Leftmost64_16 | Core::Leftmost64_32 | Core::Rightmost64_1 | Core::Rightmost64_2 | Core::Rightmost64_4 | Core::Rightmost64_8 | Core::Rightmost64_16 | Core::Rightmost64_32 => args1(uint(UIntType::U64)),
        Core::And1 | Core::Or1 | Core::Xor1 | Core::Eq1 => args2(uint(UIntType::U1), uint(UIntType::U1)),
        Core::And8 | Core::Or8 | Core::Xor8 | Core::Eq8 => args2(uint(UIntType::U8), uint(UIntType::U8)),
        Core::And16 | Core::Or16 | Core::Xor16 | Core::Eq16 => args2(uint(UIntType::U16), uint(UIntType::U16)),
        Core::And32 | Core::Or32 | Core::Xor32 | Core::Eq32 => args2(uint(UIntType::U32), uint(UIntType::U32)),
        Core::And64 | Core::Or64 | Core::Xor64 | Core::Eq64 => args2(uint(UIntType::U64), uint(UIntType::U64)),
        Core::Eq256 => args2(uint(UIntType::U256), uint(UIntType::U256)),
        Core::Maj1 | Core::XorXor1 | Core::Ch1 => args3(uint(UIntType::U1), uint(UIntType::U1), uint(UIntType::U1)),
        Core::Maj8 | Core::XorXor8 | Core::Ch8 => args3(uint(UIntType::U8), uint(UIntType::U8), uint(UIntType::U8)),
        Core::Maj16 | Core::XorXor16 | Core::Ch16 => args2(uint(UIntType::U16), tuple2(uint(UIntType::U16), uint(UIntType::U16))),
        Core::Maj32 | Core::XorXor32 | Core::Ch32 => args2(uint(UIntType::U32), tuple2(uint(UIntType::U32), uint(UIntType::U32))),
        Core::Maj64 | Core::XorXor64 | Core::Ch64 => args2(uint(UIntType::U64), tuple2(uint(UIntType::U64), uint(UIntType::U64))),
        Core::FullLeftShift8_1 => args2(uint(UIntType::U8), uint(UIntType::U1)),
        Core::FullLeftShift8_2 => args2(uint(UIntType::U8), uint(UIntType::U2)),
        Core::FullLeftShift8_4 => args2(uint(UIntType::U8), uint(UIntType::U4)),
        Core::FullLeftShift16_1 => args2(uint(UIntType::U16), uint(UIntType::U1)),
        Core::FullLeftShift16_2 => args2(uint(UIntType::U16), uint(UIntType::U2)),
        Core::FullLeftShift16_4 => args2(uint(UIntType::U16), uint(UIntType::U4)),
        Core::FullLeftShift16_8 => args2(uint(UIntType::U16), uint(UIntType::U8)),
        Core::FullLeftShift32_1 => args2(uint(UIntType::U32), uint(UIntType::U1)),
        Core::FullLeftShift32_2 => args2(uint(UIntType::U32), uint(UIntType::U2)),
        Core::FullLeftShift32_4 => args2(uint(UIntType::U32), uint(UIntType::U4)),
        Core::FullLeftShift32_8 => args2(uint(UIntType::U32), uint(UIntType::U8)),
        Core::FullLeftShift32_16 => args2(uint(UIntType::U32), uint(UIntType::U16)),
        Core::FullLeftShift64_1 => args2(uint(UIntType::U64), uint(UIntType::U1)),
        Core::FullLeftShift64_2 => args2(uint(UIntType::U64), uint(UIntType::U2)),
        Core::FullLeftShift64_4 => args2(uint(UIntType::U64), uint(UIntType::U4)),
        Core::FullLeftShift64_8 => args2(uint(UIntType::U64), uint(UIntType::U8)),
        Core::FullLeftShift64_16 => args2(uint(UIntType::U64), uint(UIntType::U16)),
        Core::FullLeftShift64_32 => args2(uint(UIntType::U64), uint(UIntType::U32)),
        Core::FullRightShift8_1 => args2(uint(UIntType::U1), uint(UIntType::U8)),
        Core::FullRightShift8_2 => args2(uint(UIntType::U2), uint(UIntType::U8)),
        Core::FullRightShift8_4 => args2(uint(UIntType::U4), uint(UIntType::U8)),
        Core::FullRightShift16_1 => args2(uint(UIntType::U1), uint(UIntType::U16)),
        Core::FullRightShift16_2 => args2(uint(UIntType::U2), uint(UIntType::U16)),
        Core::FullRightShift16_4 => args2(uint(UIntType::U4), uint(UIntType::U16)),
        Core::FullRightShift16_8 => args2(uint(UIntType::U8), uint(UIntType::U16)),
        Core::FullRightShift32_1 => args2(uint(UIntType::U1), uint(UIntType::U32)),
        Core::FullRightShift32_2 => args2(uint(UIntType::U2), uint(UIntType::U32)),
        Core::FullRightShift32_4 => args2(uint(UIntType::U4), uint(UIntType::U32)),
        Core::FullRightShift32_8 => args2(uint(UIntType::U8), uint(UIntType::U32)),
        Core::FullRightShift32_16 => args2(uint(UIntType::U16), uint(UIntType::U32)),
        Core::FullRightShift64_1 => args2(uint(UIntType::U1), uint(UIntType::U64)),
        Core::FullRightShift64_2 => args2(uint(UIntType::U2), uint(UIntType::U64)),
        Core::FullRightShift64_4 => args2(uint(UIntType::U4), uint(UIntType::U64)),
        Core::FullRightShift64_8 => args2(uint(UIntType::U8), uint(UIntType::U64)),
        Core::FullRightShift64_16 => args2(uint(UIntType::U16), uint(UIntType::U64)),
        Core::FullRightShift64_32 => args2(uint(UIntType::U32), uint(UIntType::U64)),
        Core::LeftShiftWith8 | Core::RightShiftWith8 => args3(uint(UIntType::U1), uint(UIntType::U4), uint(UIntType::U8)),
        Core::LeftShiftWith16 | Core::RightShiftWith16 => args3(uint(UIntType::U1), uint(UIntType::U4), uint(UIntType::U16)),
        Core::LeftShiftWith32 | Core::RightShiftWith32 => args3(uint(UIntType::U1), uint(UIntType::U8), uint(UIntType::U32)),
        Core::LeftShiftWith64 | Core::RightShiftWith64 => args3(uint(UIntType::U1), uint(UIntType::U8), uint(UIntType::U64)),
        Core::LeftShift8 | Core::RightShift8 | Core::LeftRotate8 | Core::RightRotate8 => args2(uint(UIntType::U4), uint(UIntType::U8)),
        Core::LeftShift16 | Core::RightShift16 | Core::LeftRotate16 | Core::RightRotate16 => args2(uint(UIntType::U4), uint(UIntType::U16)),
        Core::LeftShift32 | Core::RightShift32 | Core::LeftRotate32 | Core::RightRotate32 => args2(uint(UIntType::U8), uint(UIntType::U32)),
        Core::LeftShift64 | Core::RightShift64 | Core::LeftRotate64 | Core::RightRotate64 => args2(uint(UIntType::U8), uint(UIntType::U64)),
        Core::One8 | Core::One16 | Core::One32 | Core::One64 => args0(),
        Core::Increment8 | Core::Negate8 | Core::Decrement8 | Core::IsZero8 | Core::IsOne8 => args1(uint(UIntType::U8)),
        Core::Increment16 | Core::Negate16 | Core::Decrement16 | Core::IsZero16 | Core::IsOne16 => args1(uint(UIntType::U16)),
        Core::Increment32 | Core::Negate32 | Core::Decrement32 | Core::IsZero32 | Core::IsOne32 => args1(uint(UIntType::U32)),
        Core::Increment64 | Core::Negate64 | Core::Decrement64 | Core::IsZero64 | Core::IsOne64 => args1(uint(UIntType::U64)),
        Core::Add8 | Core::Subtract8 | Core::Multiply8 | Core::Le8 | Core::Lt8 | Core::Min8 | Core::Max8 | Core::DivMod8 | Core::Divide8 | Core::Modulo8 | Core::Divides8 => args2(uint(UIntType::U8), uint(UIntType::U8)),
        Core::Add16 | Core::Subtract16 | Core::Multiply16 | Core::Le16 | Core::Lt16 | Core::Min16 | Core::Max16 | Core::DivMod16 | Core::Divide16 | Core::Modulo16 | Core::Divides16 => args2(uint(UIntType::U16), uint(UIntType::U16)),
        Core::Add32 | Core::Subtract32 | Core::Multiply32 | Core::Le32 | Core::Lt32 | Core::Min32 | Core::Max32 | Core::DivMod32 | Core::Divide32 | Core::Modulo32 | Core::Divides32 => args2(uint(UIntType::U32), uint(UIntType::U32)),
        Core::Add64 | Core::Subtract64 | Core::Multiply64 | Core::Le64 | Core::Lt64 | Core::Min64 | Core::Max64 | Core::DivMod64 | Core::Divide64 | Core::Modulo64 | Core::Divides64 => args2(uint(UIntType::U64), uint(UIntType::U64)),
        Core::DivMod128_64 => args2(uint(UIntType::U128), uint(UIntType::U64)),
        Core::FullAdd8 | Core::FullSubtract8 => args3(bool(), uint(UIntType::U8), uint(UIntType::U8)),
        Core::FullAdd16 | Core::FullSubtract16 => args3(bool(), uint(UIntType::U16), uint(UIntType::U16)),
        Core::FullAdd32 | Core::FullSubtract32 => args3(bool(), uint(UIntType::U32), uint(UIntType::U32)),
        Core::FullAdd64 | Core::FullSubtract64 => args3(bool(), uint(UIntType::U64), uint(UIntType::U64)),
        Core::FullIncrement8 | Core::FullDecrement8 => args2(bool(), uint(UIntType::U8)),
        Core::FullIncrement16 | Core::FullDecrement16 => args2(bool(), uint(UIntType::U16)),
        Core::FullIncrement32 | Core::FullDecrement32 => args2(bool(), uint(UIntType::U32)),
        Core::FullIncrement64 | Core::FullDecrement64 => args2(bool(), uint(UIntType::U64)),
        Core::FullMultiply8 => args4(uint(UIntType::U8), uint(UIntType::U8), uint(UIntType::U8), uint(UIntType::U8)),
        Core::FullMultiply16 => args4(uint(UIntType::U16), uint(UIntType::U16), uint(UIntType::U16), uint(UIntType::U16)),
        Core::FullMultiply32 => args4(uint(UIntType::U32), uint(UIntType::U32), uint(UIntType::U32), uint(UIntType::U32)),
        Core::FullMultiply64 => args4(uint(UIntType::U64), uint(UIntType::U64), uint(UIntType::U64), uint(UIntType::U64)),
        Core::Median8 => args3(uint(UIntType::U8), uint(UIntType::U8), uint(UIntType::U8)),
        Core::Median16 => args3(uint(UIntType::U16), uint(UIntType::U16), uint(UIntType::U16)),
        Core::Median32 => args3(uint(UIntType::U32), uint(UIntType::U32), uint(UIntType::U32)),
        Core::Median64 => args3(uint(UIntType::U64), uint(UIntType::U64), uint(UIntType::U64)),
        Core::Sha256Iv | Core::Sha256Ctx8Init => args0(),
        Core::Sha256Block => args3(uint(UIntType::U256), uint(UIntType::U256), uint(UIntType::U256)),
        Core::Sha256Ctx8Add1 => args2(builtin(BuiltinAlias::Ctx8), uint(UIntType::U8)),
        Core::Sha256Ctx8Add2 => args2(builtin(BuiltinAlias::Ctx8), uint(UIntType::U16)),
        Core::Sha256Ctx8Add4 => args2(builtin(BuiltinAlias::Ctx8), uint(UIntType::U32)),
        Core::Sha256Ctx8Add8 => args2(builtin(BuiltinAlias::Ctx8), uint(UIntType::U64)),
        Core::Sha256Ctx8Add16 => args2(builtin(BuiltinAlias::Ctx8), uint(UIntType::U128)),
        Core::Sha256Ctx8Add32 => args2(builtin(BuiltinAlias::Ctx8), uint(UIntType::U256)),
        Core::Sha256Ctx8Add64 => args2(builtin(BuiltinAlias::Ctx8), array(uint(UIntType::U8), 64)),
        Core::Sha256Ctx8Add128 => args2(builtin(BuiltinAlias::Ctx8), array(uint(UIntType::U8), 128)),
        Core::Sha256Ctx8Add256 => args2(builtin(BuiltinAlias::Ctx8), array(uint(UIntType::U8), 256)),
        Core::Sha256Ctx8Add512 => args2(builtin(BuiltinAlias::Ctx8), array(uint(UIntType::U8), 512)),
        Core::Sha256Ctx8AddBuffer511 => args2(builtin(BuiltinAlias::Ctx8), list(uint(UIntType::U8), 512)),
        Core::Sha256Ctx8Finalize => args1(builtin(BuiltinAlias::Ctx8)),
        Core::PointVerify1 => args2(tuple2(tuple2(builtin(BuiltinAlias::Scalar), builtin(BuiltinAlias::Point)), builtin(BuiltinAlias::Scalar)), builtin(BuiltinAlias::Point)),
        Core::Decompress => args1(builtin(BuiltinAlias::Point)),
        Core::LinearVerify1 => args2(tuple2(tuple2(builtin(BuiltinAlias::Scalar), builtin(BuiltinAlias::Ge)), builtin(BuiltinAlias::Scalar)), builtin(BuiltinAlias::Ge)),
        Core::LinearCombination1 => args2(tuple2(builtin(BuiltinAlias::Scalar), builtin(BuiltinAlias::Gej)), builtin(BuiltinAlias::Scalar)),
        Core::Scale => args2(builtin(BuiltinAlias::Scalar), builtin(BuiltinAlias::Gej)),
        Core::Generate => args1(builtin(BuiltinAlias::Scalar)),
        Core::GejInfinity => args0(),
        Core::GejNormalize | Core::GejNegate | Core::GejDouble | Core::GejIsInfinity | Core::GejYIsOdd | Core::GejIsOnCurve => args1(builtin(BuiltinAlias::Gej)),
        Core::GeNegate | Core::GeIsOnCurve => args1(builtin(BuiltinAlias::Ge)),
        Core::GejAdd | Core::GejEquiv => args2(builtin(BuiltinAlias::Gej), builtin(BuiltinAlias::Gej)),
        Core::GejGeAddEx | Core::GejGeAdd | Core::GejGeEquiv => args2(builtin(BuiltinAlias::Gej), builtin(BuiltinAlias::Ge)),
        Core::GejRescale => args2(builtin(BuiltinAlias::Gej), builtin(BuiltinAlias::Fe)),
        Core::GejXEquiv => args2(builtin(BuiltinAlias::Fe), builtin(BuiltinAlias::Gej)),
        Core::ScalarAdd | Core::ScalarMultiply => args2(builtin(BuiltinAlias::Scalar), builtin(BuiltinAlias::Scalar)),
        Core::ScalarNormalize | Core::ScalarNegate | Core::ScalarSquare | Core::ScalarInvert | Core::ScalarMultiplyLambda | Core::ScalarIsZero => args1(builtin(BuiltinAlias::Scalar)),
        Core::FeNormalize | Core::FeNegate | Core::FeSquare | Core::FeMultiplyBeta | Core::FeInvert | Core::FeSquareRoot | Core::FeIsZero | Core::FeIsOdd | Core::Swu => args1(builtin(BuiltinAlias::Fe)),
        Core::FeAdd | Core::FeMultiply => args2(builtin(BuiltinAlias::Fe), builtin(BuiltinAlias::Fe)),
        Core::HashToCurve => args1(uint(UIntType::U256)),
        Core::CheckSigVerify => args2(tuple2(builtin(BuiltinAlias::Pubkey), builtin(BuiltinAlias::Message64)), builtin(BuiltinAlias::Signature)),
        Core::Bip0340Verify => args2(tuple2(builtin(BuiltinAlias::Pubkey), builtin(BuiltinAlias::Message)), builtin(BuiltinAlias::Signature)),
        Core::TapdataInit => args0(),
        Core::ParseLock | Core::ParseSequence => args1(uint(UIntType::U32)),
    }
}

/// High-level output type of a Core jet.
pub open spec fn spec_target_type(jet: Core) -> TypeModel {
    match jet {
        Core::Verify => TypeModel::Tuple(Seq::empty()),
        Core::Some1 | Core::Some8 | Core::Some16 | Core::Some32 | Core::Some64 | Core::All8 | Core::All16 | Core::All32 | Core::All64 | Core::Eq1 | Core::Eq8 | Core::Eq16 | Core::Eq32 | Core::Eq64 | Core::Eq256 => TypeModel::Boolean,
        Core::Low1 | Core::High1 | Core::Complement1 | Core::And1 | Core::Or1 | Core::Xor1 | Core::Maj1 | Core::XorXor1 | Core::Ch1 | Core::Leftmost8_1 | Core::Rightmost8_1 | Core::Leftmost16_1 | Core::Rightmost16_1 | Core::Leftmost32_1 | Core::Rightmost32_1 | Core::Leftmost64_1 | Core::Rightmost64_1 => TypeModel::UInt(UIntType::U1),
        Core::Leftmost8_2 | Core::Rightmost8_2 | Core::Leftmost16_2 | Core::Rightmost16_2 | Core::Leftmost32_2 | Core::Rightmost32_2 | Core::Leftmost64_2 | Core::Rightmost64_2 => TypeModel::UInt(UIntType::U2),
        Core::Leftmost8_4 | Core::Rightmost8_4 | Core::Leftmost16_4 | Core::Rightmost16_4 | Core::Leftmost32_4 | Core::Rightmost32_4 | Core::Leftmost64_4 | Core::Rightmost64_4 => TypeModel::UInt(UIntType::U4),
        Core::Low8 | Core::High8 | Core::Complement8 | Core::And8 | Core::Or8 | Core::Xor8 | Core::Maj8 | Core::XorXor8 | Core::Ch8 | Core::Leftmost16_8 | Core::Rightmost16_8 | Core::Leftmost32_8 | Core::Rightmost32_8 | Core::Leftmost64_8 | Core::Rightmost64_8 | Core::LeftPadLow1_8 | Core::LeftPadHigh1_8 | Core::LeftExtend1_8 | Core::RightPadLow1_8 | Core::RightPadHigh1_8 | Core::LeftShiftWith8 | Core::RightShiftWith8 | Core::LeftShift8 | Core::RightShift8 | Core::LeftRotate8 | Core::RightRotate8 => TypeModel::UInt(UIntType::U8),
        Core::Low16 | Core::High16 | Core::Complement16 | Core::And16 | Core::Or16 | Core::Xor16 | Core::Maj16 | Core::XorXor16 | Core::Ch16 | Core::Leftmost32_16 | Core::Rightmost32_16 | Core::Leftmost64_16 | Core::Rightmost64_16 | Core::LeftPadLow1_16 | Core::LeftPadHigh1_16 | Core::LeftExtend1_16 | Core::RightPadLow1_16 | Core::RightPadHigh1_16 | Core::LeftPadLow8_16 | Core::LeftPadHigh8_16 | Core::LeftExtend8_16 | Core::RightPadLow8_16 | Core::RightPadHigh8_16 | Core::RightExtend8_16 | Core::LeftShiftWith16 | Core::RightShiftWith16 | Core::LeftShift16 | Core::RightShift16 | Core::LeftRotate16 | Core::RightRotate16 => TypeModel::UInt(UIntType::U16),
        Core::Low32 | Core::High32 | Core::Complement32 | Core::And32 | Core::Or32 | Core::Xor32 | Core::Maj32 | Core::XorXor32 | Core::Ch32 | Core::Leftmost64_32 | Core::Rightmost64_32 | Core::LeftPadLow1_32 | Core::LeftPadHigh1_32 | Core::LeftExtend1_32 | Core::RightPadLow1_32 | Core::RightPadHigh1_32 | Core::LeftPadLow8_32 | Core::LeftPadHigh8_32 | Core::LeftExtend8_32 | Core::RightPadLow8_32 | Core::RightPadHigh8_32 | Core::RightExtend8_32 | Core::LeftPadLow16_32 | Core::LeftPadHigh16_32 | Core::LeftExtend16_32 | Core::RightPadLow16_32 | Core::RightPadHigh16_32 | Core::RightExtend16_32 | Core::LeftShiftWith32 | Core::RightShiftWith32 | Core::LeftShift32 | Core::RightShift32 | Core::LeftRotate32 | Core::RightRotate32 => TypeModel::UInt(UIntType::U32),
        Core::Low64 | Core::High64 | Core::Complement64 | Core::And64 | Core::Or64 | Core::Xor64 | Core::Maj64 | Core::XorXor64 | Core::Ch64 | Core::LeftPadLow1_64 | Core::LeftPadHigh1_64 | Core::LeftExtend1_64 | Core::RightPadLow1_64 | Core::RightPadHigh1_64 | Core::LeftPadLow8_64 | Core::LeftPadHigh8_64 | Core::LeftExtend8_64 | Core::RightPadLow8_64 | Core::RightPadHigh8_64 | Core::RightExtend8_64 | Core::LeftPadLow16_64 | Core::LeftPadHigh16_64 | Core::LeftExtend16_64 | Core::RightPadLow16_64 | Core::RightPadHigh16_64 | Core::RightExtend16_64 | Core::LeftPadLow32_64 | Core::LeftPadHigh32_64 | Core::LeftExtend32_64 | Core::RightPadLow32_64 | Core::RightPadHigh32_64 | Core::RightExtend32_64 | Core::LeftShiftWith64 | Core::RightShiftWith64 | Core::LeftShift64 | Core::RightShift64 | Core::LeftRotate64 | Core::RightRotate64 => TypeModel::UInt(UIntType::U64),
        Core::FullLeftShift8_1 => TypeModel::Tuple(seq![TypeModel::UInt(UIntType::U1), TypeModel::UInt(UIntType::U8)]),
        Core::FullLeftShift8_2 => TypeModel::Tuple(seq![TypeModel::UInt(UIntType::U2), TypeModel::UInt(UIntType::U8)]),
        Core::FullLeftShift8_4 => TypeModel::Tuple(seq![TypeModel::UInt(UIntType::U4), TypeModel::UInt(UIntType::U8)]),
        Core::FullLeftShift16_1 => TypeModel::Tuple(seq![TypeModel::UInt(UIntType::U1), TypeModel::UInt(UIntType::U16)]),
        Core::FullLeftShift16_2 => TypeModel::Tuple(seq![TypeModel::UInt(UIntType::U2), TypeModel::UInt(UIntType::U16)]),
        Core::FullLeftShift16_4 => TypeModel::Tuple(seq![TypeModel::UInt(UIntType::U4), TypeModel::UInt(UIntType::U16)]),
        Core::FullLeftShift16_8 => TypeModel::Tuple(seq![TypeModel::UInt(UIntType::U8), TypeModel::UInt(UIntType::U16)]),
        Core::FullLeftShift32_1 => TypeModel::Tuple(seq![TypeModel::UInt(UIntType::U1), TypeModel::UInt(UIntType::U32)]),
        Core::FullLeftShift32_2 => TypeModel::Tuple(seq![TypeModel::UInt(UIntType::U2), TypeModel::UInt(UIntType::U32)]),
        Core::FullLeftShift32_4 => TypeModel::Tuple(seq![TypeModel::UInt(UIntType::U4), TypeModel::UInt(UIntType::U32)]),
        Core::FullLeftShift32_8 => TypeModel::Tuple(seq![TypeModel::UInt(UIntType::U8), TypeModel::UInt(UIntType::U32)]),
        Core::FullLeftShift32_16 => TypeModel::Tuple(seq![TypeModel::UInt(UIntType::U16), TypeModel::UInt(UIntType::U32)]),
        Core::FullLeftShift64_1 => TypeModel::Tuple(seq![TypeModel::UInt(UIntType::U1), TypeModel::UInt(UIntType::U64)]),
        Core::FullLeftShift64_2 => TypeModel::Tuple(seq![TypeModel::UInt(UIntType::U2), TypeModel::UInt(UIntType::U64)]),
        Core::FullLeftShift64_4 => TypeModel::Tuple(seq![TypeModel::UInt(UIntType::U4), TypeModel::UInt(UIntType::U64)]),
        Core::FullLeftShift64_8 => TypeModel::Tuple(seq![TypeModel::UInt(UIntType::U8), TypeModel::UInt(UIntType::U64)]),
        Core::FullLeftShift64_16 => TypeModel::Tuple(seq![TypeModel::UInt(UIntType::U16), TypeModel::UInt(UIntType::U64)]),
        Core::FullLeftShift64_32 => TypeModel::Tuple(seq![TypeModel::UInt(UIntType::U32), TypeModel::UInt(UIntType::U64)]),
        Core::FullRightShift8_1 => TypeModel::Tuple(seq![TypeModel::UInt(UIntType::U8), TypeModel::UInt(UIntType::U1)]),
        Core::FullRightShift8_2 => TypeModel::Tuple(seq![TypeModel::UInt(UIntType::U8), TypeModel::UInt(UIntType::U2)]),
        Core::FullRightShift8_4 => TypeModel::Tuple(seq![TypeModel::UInt(UIntType::U8), TypeModel::UInt(UIntType::U4)]),
        Core::FullRightShift16_1 => TypeModel::Tuple(seq![TypeModel::UInt(UIntType::U16), TypeModel::UInt(UIntType::U1)]),
        Core::FullRightShift16_2 => TypeModel::Tuple(seq![TypeModel::UInt(UIntType::U16), TypeModel::UInt(UIntType::U2)]),
        Core::FullRightShift16_4 => TypeModel::Tuple(seq![TypeModel::UInt(UIntType::U16), TypeModel::UInt(UIntType::U4)]),
        Core::FullRightShift16_8 => TypeModel::Tuple(seq![TypeModel::UInt(UIntType::U16), TypeModel::UInt(UIntType::U8)]),
        Core::FullRightShift32_1 => TypeModel::Tuple(seq![TypeModel::UInt(UIntType::U32), TypeModel::UInt(UIntType::U1)]),
        Core::FullRightShift32_2 => TypeModel::Tuple(seq![TypeModel::UInt(UIntType::U32), TypeModel::UInt(UIntType::U2)]),
        Core::FullRightShift32_4 => TypeModel::Tuple(seq![TypeModel::UInt(UIntType::U32), TypeModel::UInt(UIntType::U4)]),
        Core::FullRightShift32_8 => TypeModel::Tuple(seq![TypeModel::UInt(UIntType::U32), TypeModel::UInt(UIntType::U8)]),
        Core::FullRightShift32_16 => TypeModel::Tuple(seq![TypeModel::UInt(UIntType::U32), TypeModel::UInt(UIntType::U16)]),
        Core::FullRightShift64_1 => TypeModel::Tuple(seq![TypeModel::UInt(UIntType::U64), TypeModel::UInt(UIntType::U1)]),
        Core::FullRightShift64_2 => TypeModel::Tuple(seq![TypeModel::UInt(UIntType::U64), TypeModel::UInt(UIntType::U2)]),
        Core::FullRightShift64_4 => TypeModel::Tuple(seq![TypeModel::UInt(UIntType::U64), TypeModel::UInt(UIntType::U4)]),
        Core::FullRightShift64_8 => TypeModel::Tuple(seq![TypeModel::UInt(UIntType::U64), TypeModel::UInt(UIntType::U8)]),
        Core::FullRightShift64_16 => TypeModel::Tuple(seq![TypeModel::UInt(UIntType::U64), TypeModel::UInt(UIntType::U16)]),
        Core::FullRightShift64_32 => TypeModel::Tuple(seq![TypeModel::UInt(UIntType::U64), TypeModel::UInt(UIntType::U32)]),
        Core::Le8 | Core::Lt8 | Core::Le16 | Core::Lt16 | Core::Le32 | Core::Lt32 | Core::Le64 | Core::Lt64 | Core::IsZero8 | Core::IsOne8 | Core::IsZero16 | Core::IsOne16 | Core::IsZero32 | Core::IsOne32 | Core::IsZero64 | Core::IsOne64 | Core::Divides8 | Core::Divides16 | Core::Divides32 | Core::Divides64 => TypeModel::Boolean,
        Core::One8 | Core::Min8 | Core::Max8 | Core::Divide8 | Core::Modulo8 | Core::Median8 => TypeModel::UInt(UIntType::U8),
        Core::One16 | Core::Min16 | Core::Max16 | Core::Divide16 | Core::Modulo16 | Core::Multiply8 | Core::FullMultiply8 | Core::Median16 => TypeModel::UInt(UIntType::U16),
        Core::One32 | Core::Min32 | Core::Max32 | Core::Divide32 | Core::Modulo32 | Core::Multiply16 | Core::FullMultiply16 | Core::Median32 => TypeModel::UInt(UIntType::U32),
        Core::One64 | Core::Min64 | Core::Max64 | Core::Divide64 | Core::Modulo64 | Core::Multiply32 | Core::FullMultiply32 | Core::Median64 => TypeModel::UInt(UIntType::U64),
        Core::Multiply64 | Core::FullMultiply64 => TypeModel::UInt(UIntType::U128),
        Core::Increment8 | Core::Negate8 | Core::Decrement8 | Core::Add8 | Core::Subtract8 | Core::FullAdd8 | Core::FullSubtract8 | Core::FullIncrement8 | Core::FullDecrement8 => TypeModel::Tuple(seq![TypeModel::Boolean, TypeModel::UInt(UIntType::U8)]),
        Core::Increment16 | Core::Negate16 | Core::Decrement16 | Core::Add16 | Core::Subtract16 | Core::FullAdd16 | Core::FullSubtract16 | Core::FullIncrement16 | Core::FullDecrement16 => TypeModel::Tuple(seq![TypeModel::Boolean, TypeModel::UInt(UIntType::U16)]),
        Core::Increment32 | Core::Negate32 | Core::Decrement32 | Core::Add32 | Core::Subtract32 | Core::FullAdd32 | Core::FullSubtract32 | Core::FullIncrement32 | Core::FullDecrement32 => TypeModel::Tuple(seq![TypeModel::Boolean, TypeModel::UInt(UIntType::U32)]),
        Core::Increment64 | Core::Negate64 | Core::Decrement64 | Core::Add64 | Core::Subtract64 | Core::FullAdd64 | Core::FullSubtract64 | Core::FullIncrement64 | Core::FullDecrement64 => TypeModel::Tuple(seq![TypeModel::Boolean, TypeModel::UInt(UIntType::U64)]),
        Core::DivMod8 => TypeModel::Tuple(seq![TypeModel::UInt(UIntType::U8), TypeModel::UInt(UIntType::U8)]),
        Core::DivMod16 => TypeModel::Tuple(seq![TypeModel::UInt(UIntType::U16), TypeModel::UInt(UIntType::U16)]),
        Core::DivMod32 => TypeModel::Tuple(seq![TypeModel::UInt(UIntType::U32), TypeModel::UInt(UIntType::U32)]),
        Core::DivMod64 => TypeModel::Tuple(seq![TypeModel::UInt(UIntType::U64), TypeModel::UInt(UIntType::U64)]),
        Core::DivMod128_64 => TypeModel::Tuple(seq![TypeModel::UInt(UIntType::U64), TypeModel::UInt(UIntType::U64)]),
        Core::Sha256Iv | Core::Sha256Block | Core::Sha256Ctx8Finalize => TypeModel::UInt(UIntType::U256),
        Core::Sha256Ctx8Init | Core::Sha256Ctx8Add1 | Core::Sha256Ctx8Add2 | Core::Sha256Ctx8Add4 | Core::Sha256Ctx8Add8 | Core::Sha256Ctx8Add16 | Core::Sha256Ctx8Add32 | Core::Sha256Ctx8Add64 | Core::Sha256Ctx8Add128 | Core::Sha256Ctx8Add256 | Core::Sha256Ctx8Add512 | Core::Sha256Ctx8AddBuffer511 => TypeModel::Builtin(BuiltinAlias::Ctx8),
        Core::PointVerify1 | Core::LinearVerify1 => TypeModel::Tuple(Seq::empty()),
        Core::GejIsInfinity | Core::GejEquiv | Core::GejGeEquiv | Core::GejXEquiv | Core::GejYIsOdd | Core::GejIsOnCurve | Core::GeIsOnCurve | Core::ScalarIsZero | Core::FeIsZero | Core::FeIsOdd => TypeModel::Boolean,
        Core::GeNegate | Core::HashToCurve | Core::Swu => TypeModel::Builtin(BuiltinAlias::Ge),
        Core::Decompress | Core::GejNormalize => TypeModel::Option(Box::new(TypeModel::Builtin(BuiltinAlias::Ge))),
        Core::LinearCombination1 | Core::Scale | Core::Generate | Core::GejInfinity | Core::GejNegate | Core::GejDouble | Core::GejAdd | Core::GejGeAdd | Core::GejRescale => TypeModel::Builtin(BuiltinAlias::Gej),
        Core::GejGeAddEx => TypeModel::Tuple(seq![TypeModel::Builtin(BuiltinAlias::Fe), TypeModel::Builtin(BuiltinAlias::Gej)]),
        Core::ScalarNormalize | Core::ScalarNegate | Core::ScalarAdd | Core::ScalarSquare | Core::ScalarMultiply | Core::ScalarMultiplyLambda | Core::ScalarInvert => TypeModel::Builtin(BuiltinAlias::Scalar),
        Core::FeNormalize | Core::FeNegate | Core::FeAdd | Core::FeSquare | Core::FeMultiply | Core::FeMultiplyBeta | Core::FeInvert => TypeModel::Builtin(BuiltinAlias::Fe),
        Core::FeSquareRoot => TypeModel::Option(Box::new(TypeModel::Builtin(BuiltinAlias::Fe))),
        Core::CheckSigVerify | Core::Bip0340Verify => TypeModel::Tuple(Seq::empty()),
        Core::ParseLock => model_either(TypeModel::Builtin(BuiltinAlias::Height), TypeModel::Builtin(BuiltinAlias::Time)),
        Core::ParseSequence => TypeModel::Option(Box::new(model_either(TypeModel::Builtin(BuiltinAlias::Distance), TypeModel::Builtin(BuiltinAlias::Duration)))),
        Core::TapdataInit => TypeModel::Builtin(BuiltinAlias::Ctx8),
    }
}

/// Return the high-level output type of a Core jet.
pub fn target_type(jet: Core) -> (r: AliasedType)
    ensures
        r@ == spec_target_type(jet),
{
    proof {
        reveal_with_fuel(is_list_bound, 10);
    }
    match jet {
        Core::Verify => unit(),
        Core::Some1 | Core::Some8 | Core::Some16 | Core::Some32 | Core::Some64 | Core::All8 | Core::All16 | Core::All32 | Core::All64 | Core::Eq1 | Core::Eq8 | Core::Eq16 | Core::Eq32 | Core::Eq64 | Core::Eq256 => bool(),
        Core::Low1 | Core::High1 | Core::Complement1 | Core::And1 | Core::Or1 | Core::Xor1 | Core::Maj1 | Core::XorXor1 | Core::Ch1 | Core::Leftmost8_1 | Core::Rightmost8_1 | Core::Leftmost16_1 | Core::Rightmost16_1 | Core::Leftmost32_1 | Core::Rightmost32_1 | Core::Leftmost64_1 | Core::Rightmost64_1 => uint(UIntType::U1),
        Core::Leftmost8_2 | Core::Rightmost8_2 | Core::Leftmost16_2 | Core::Rightmost16_2 | Core::Leftmost32_2 | Core::Rightmost32_2 | Core::Leftmost64_2 | Core::Rightmost64_2 => uint(UIntType::U2),
        Core::Leftmost8_4 | Core::Rightmost8_4 | Core::Leftmost16_4 | Core::Rightmost16_4 | Core::Leftmost32_4 | Core::Rightmost32_4 | Core::Leftmost64_4 | Core::Rightmost64_4 => uint(UIntType::U4),
        Core::Low8 | Core::High8 | Core::Complement8 | Core::And8 | Core::Or8 | Core::Xor8 | Core::Maj8 | Core::XorXor8 | Core::Ch8 | Core::Leftmost16_8 | Core::Rightmost16_8 | Core::Leftmost32_8 | Core::Rightmost32_8 | Core::Leftmost64_8 | Core::Rightmost64_8 | Core::LeftPadLow1_8 | Core::LeftPadHigh1_8 | Core::LeftExtend1_8 | Core::RightPadLow1_8 | Core::RightPadHigh1_8 | Core::LeftShiftWith8 | Core::RightShiftWith8 | Core::LeftShift8 | Core::RightShift8 | Core::LeftRotate8 | Core::RightRotate8 => uint(UIntType::U8),
        Core::Low16 | Core::High16 | Core::Complement16 | Core::And16 | Core::Or16 | Core::Xor16 | Core::Maj16 | Core::XorXor16 | Core::Ch16 | Core::Leftmost32_16 | Core::Rightmost32_16 | Core::Leftmost64_16 | Core::Rightmost64_16 | Core::LeftPadLow1_16 | Core::LeftPadHigh1_16 | Core::LeftExtend1_16 | Core::RightPadLow1_16 | Core::RightPadHigh1_16 | Core::LeftPadLow8_16 | Core::LeftPadHigh8_16 | Core::LeftExtend8_16 | Core::RightPadLow8_16 | Core::RightPadHigh8_16 | Core::RightExtend8_16 | Core::LeftShiftWith16 | Core::RightShiftWith16 | Core::LeftShift16 | Core::RightShift16 | Core::LeftRotate16 | Core::RightRotate16 => uint(UIntType::U16),
        Core::Low32 | Core::High32 | Core::Complement32 | Core::And32 | Core::Or32 | Core::Xor32 | Core::Maj32 | Core::XorXor32 | Core::Ch32 | Core::Leftmost64_32 | Core::Rightmost64_32 | Core::LeftPadLow1_32 | Core::LeftPadHigh1_32 | Core::LeftExtend1_32 | Core::RightPadLow1_32 | Core::RightPadHigh1_32 | Core::LeftPadLow8_32 | Core::LeftPadHigh8_32 | Core::LeftExtend8_32 | Core::RightPadLow8_32 | Core::RightPadHigh8_32 | Core::RightExtend8_32 | Core::LeftPadLow16_32 | Core::LeftPadHigh16_32 | Core::LeftExtend16_32 | Core::RightPadLow16_32 | Core::RightPadHigh16_32 | Core::RightExtend16_32 | Core::LeftShiftWith32 | Core::RightShiftWith32 | Core::LeftShift32 | Core::RightShift32 | Core::LeftRotate32 | Core::RightRotate32 => uint(UIntType::U32),
        Core::Low64 | Core::High64 | Core::Complement64 | Core::And64 | Core::Or64 | Core::Xor64 | Core::Maj64 | Core::XorXor64 | Core::Ch64 | Core::LeftPadLow1_64 | Core::LeftPadHigh1_64 | Core::LeftExtend1_64 | Core::RightPadLow1_64 | Core::RightPadHigh1_64 | Core::LeftPadLow8_64 | Core::LeftPadHigh8_64 | Core::LeftExtend8_64 | Core::RightPadLow8_64 | Core::RightPadHigh8_64 | Core::RightExtend8_64 | Core::LeftPadLow16_64 | Core::LeftPadHigh16_64 | Core::LeftExtend16_64 | Core::RightPadLow16_64 | Core::RightPadHigh16_64 | Core::RightExtend16_64 | Core::LeftPadLow32_64 | Core::LeftPadHigh32_64 | Core::LeftExtend32_64 | Core::RightPadLow32_64 | Core::RightPadHigh32_64 | Core::RightExtend32_64 | Core::LeftShiftWith64 | Core::RightShiftWith64 | Core::LeftShift64 | Core::RightShift64 | Core::LeftRotate64 | Core::RightRotate64 => uint(UIntType::U64),
        Core::FullLeftShift8_1 => tuple2(uint(UIntType::U1), uint(UIntType::U8)),
        Core::FullLeftShift8_2 => tuple2(uint(UIntType::U2), uint(UIntType::U8)),
        Core::FullLeftShift8_4 => tuple2(uint(UIntType::U4), uint(UIntType::U8)),
        Core::FullLeftShift16_1 => tuple2(uint(UIntType::U1), uint(UIntType::U16)),
        Core::FullLeftShift16_2 => tuple2(uint(UIntType::U2), uint(UIntType::U16)),
        Core::FullLeftShift16_4 => tuple2(uint(UIntType::U4), uint(UIntType::U16)),
        Core::FullLeftShift16_8 => tuple2(uint(UIntType::U8), uint(UIntType::U16)),
        Core::FullLeftShift32_1 => tuple2(uint(UIntType::U1), uint(UIntType::U32)),
        Core::FullLeftShift32_2 => tuple2(uint(UIntType::U2), uint(UIntType::U32)),
        Core::FullLeftShift32_4 => tuple2(uint(UIntType::U4), uint(UIntType::U32)),
        Core::FullLeftShift32_8 => tuple2(uint(UIntType::U8), uint(UIntType::U32)),
        Core::FullLeftShift32_16 => tuple2(uint(UIntType::U16), uint(UIntType::U32)),
        Core::FullLeftShift64_1 => tuple2(uint(UIntType::U1), uint(UIntType::U64)),
        Core::FullLeftShift64_2 => tuple2(uint(UIntType::U2), uint(UIntType::U64)),
        Core::FullLeftShift64_4 => tuple2(uint(UIntType::U4), uint(UIntType::U64)),
        Core::FullLeftShift64_8 => tuple2(uint(UIntType::U8), uint(UIntType::U64)),
        Core::FullLeftShift64_16 => tuple2(uint(UIntType::U16), uint(UIntType::U64)),
        Core::FullLeftShift64_32 => tuple2(uint(UIntType::U32), uint(UIntType::U64)),
        Core::FullRightShift8_1 => tuple2(uint(UIntType::U8), uint(UIntType::U1)),
        Core::FullRightShift8_2 => tuple2(uint(UIntType::U8), uint(UIntType::U2)),
        Core::FullRightShift8_4 => tuple2(uint(UIntType::U8), uint(UIntType::U4)),
        Core::FullRightShift16_1 => tuple2(uint(UIntType::U16), uint(UIntType::U1)),
        Core::FullRightShift16_2 => tuple2(uint(UIntType::U16), uint(UIntType::U2)),
        Core::FullRightShift16_4 => tuple2(uint(UIntType::U16), uint(UIntType::U4)),
        Core::FullRightShift16_8 => tuple2(uint(UIntType::U16), uint(UIntType::U8)),
        Core::FullRightShift32_1 => tuple2(uint(UIntType::U32), uint(UIntType::U1)),
        Core::FullRightShift32_2 => tuple2(uint(UIntType::U32), uint(UIntType::U2)),
        Core::FullRightShift32_4 => tuple2(uint(UIntType::U32), uint(UIntType::U4)),
        Core::FullRightShift32_8 => tuple2(uint(UIntType::U32), uint(UIntType::U8)),
        Core::FullRightShift32_16 => tuple2(uint(UIntType::U32), uint(UIntType::U16)),
        Core::FullRightShift64_1 => tuple2(uint(UIntType::U64), uint(UIntType::U1)),
        Core::FullRightShift64_2 => tuple2(uint(UIntType::U64), uint(UIntType::U2)),
        Core::FullRightShift64_4 => tuple2(uint(UIntType::U64), uint(UIntType::U4)),
        Core::FullRightShift64_8 => tuple2(uint(UIntType::U64), uint(UIntType::U8)),
        Core::FullRightShift64_16 => tuple2(uint(UIntType::U64), uint(UIntType::U16)),
        Core::FullRightShift64_32 => tuple2(uint(UIntType::U64), uint(UIntType::U32)),
        Core::Le8 | Core::Lt8 | Core::Le16 | Core::Lt16 | Core::Le32 | Core::Lt32 | Core::Le64 | Core::Lt64 | Core::IsZero8 | Core::IsOne8 | Core::IsZero16 | Core::IsOne16 | Core::IsZero32 | Core::IsOne32 | Core::IsZero64 | Core::IsOne64 | Core::Divides8 | Core::Divides16 | Core::Divides32 | Core::Divides64 => bool(),
        Core::One8 | Core::Min8 | Core::Max8 | Core::Divide8 | Core::Modulo8 | Core::Median8 => uint(UIntType::U8),
        Core::One16 | Core::Min16 | Core::Max16 | Core::Divide16 | Core::Modulo16 | Core::Multiply8 | Core::FullMultiply8 | Core::Median16 => uint(UIntType::U16),
        Core::One32 | Core::Min32 | Core::Max32 | Core::Divide32 | Core::Modulo32 | Core::Multiply16 | Core::FullMultiply16 | Core::Median32 => uint(UIntType::U32),
        Core::One64 | Core::Min64 | Core::Max64 | Core::Divide64 | Core::Modulo64 | Core::Multiply32 | Core::FullMultiply32 | Core::Median64 => uint(UIntType::U64),
        Core::Multiply64 | Core::FullMultiply64 => uint(UIntType::U128),
        Core::Increment8 | Core::Negate8 | Core::Decrement8 | Core::Add8 | Core::Subtract8 | Core::FullAdd8 | Core::FullSubtract8 | Core::FullIncrement8 | Core::FullDecrement8 => tuple2(bool(), uint(UIntType::U8)),
        Core::Increment16 | Core::Negate16 | Core::Decrement16 | Core::Add16 | Core::Subtract16 | Core::FullAdd16 | Core::FullSubtract16 | Core::FullIncrement16 | Core::FullDecrement16 => tuple2(bool(), uint(UIntType::U16)),
        Core::Increment32 | Core::Negate32 | Core::Decrement32 | Core::Add32 | Core::Subtract32 | Core::FullAdd32 | Core::FullSubtract32 | Core::FullIncrement32 | Core::FullDecrement32 => tuple2(bool(), uint(UIntType::U32)),
        Core::Increment64 | Core::Negate64 | Core::Decrement64 | Core::Add64 | Core::Subtract64 | Core::FullAdd64 | Core::FullSubtract64 | Core::FullIncrement64 | Core::FullDecrement64 => tuple2(bool(), uint(UIntType::U64)),
        Core::DivMod8 => tuple2(uint(UIntType::U8), uint(UIntType::U8)),
        Core::DivMod16 => tuple2(uint(UIntType::U16), uint(UIntType::U16)),
        Core::DivMod32 => tuple2(uint(UIntType::U32), uint(UIntType::U32)),
        Core::DivMod64 => tuple2(uint(UIntType::U64), uint(UIntType::U64)),
        Core::DivMod128_64 => tuple2(uint(UIntType::U64), uint(UIntType::U64)),
        Core::Sha256Iv | Core::Sha256Block | Core::Sha256Ctx8Finalize => uint(UIntType::U256),
        Core::Sha256Ctx8Init | Core::Sha256Ctx8Add1 | Core::Sha256Ctx8Add2 | Core::Sha256Ctx8Add4 | Core::Sha256Ctx8Add8 | Core::Sha256Ctx8Add16 | Core::Sha256Ctx8Add32 | Core::Sha256Ctx8Add64 | Core::Sha256Ctx8Add128 | Core::Sha256Ctx8Add256 | Core::Sha256Ctx8Add512 | Core::Sha256Ctx8AddBuffer511 => builtin(BuiltinAlias::Ctx8),
        Core::PointVerify1 | Core::LinearVerify1 => unit(),
        Core::GejIsInfinity | Core::GejEquiv | Core::GejGeEquiv | Core::GejXEquiv | Core::GejYIsOdd | Core::GejIsOnCurve | Core::GeIsOnCurve | Core::ScalarIsZero | Core::FeIsZero | Core::FeIsOdd => bool(),
        Core::GeNegate | Core::HashToCurve | Core::Swu => builtin(BuiltinAlias::Ge),
        Core::Decompress | Core::GejNormalize => option(builtin(BuiltinAlias::Ge)),
        Core::LinearCombination1 | Core::Scale | Core::Generate | Core::GejInfinity | Core::GejNegate | Core::GejDouble | Core::GejAdd | Core::GejGeAdd | Core::GejRescale => builtin(BuiltinAlias::Gej),
        Core::GejGeAddEx => tuple2(builtin(BuiltinAlias::Fe), builtin(BuiltinAlias::Gej)),
        Core::ScalarNormalize | Core::ScalarNegate | Core::ScalarAdd | Core::ScalarSquare | Core::ScalarMultiply | Core::ScalarMultiplyLambda | Core::ScalarInvert => builtin(BuiltinAlias::Scalar),
        Core::FeNormalize | Core::FeNegate | Core::FeAdd | Core::FeSquare | Core::FeMultiply | Core::FeMultiplyBeta | Core::FeInvert => builtin(BuiltinAlias::Fe),
        Core::FeSquareRoot => option(builtin(BuiltinAlias::Fe)),
        Core::CheckSigVerify | Core::Bip0340Verify => unit(),
        Core::ParseLock => either(builtin(BuiltinAlias::Height), builtin(BuiltinAlias::Time)),
        Core::ParseSequence => option(either(builtin(BuiltinAlias::Distance), builtin(BuiltinAlias::Duration))),
        Core::TapdataInit => builtin(BuiltinAlias::Ctx8),
    }
}

/// The type is valid and has no user-defined alias.
pub open spec fn good(m: TypeModel) -> bool {
    first_alias(m) is None && valid_type(m)
}

pub open spec fn all_good(s: Seq<TypeModel>) -> bool {
    forall|i: int| 0 <= i < s.len() ==> good(#[trigger] s[i])
}

proof fn lemma_good_uint(u: UIntType)
    ensures
        good(TypeModel::UInt(u)),
{
}

proof fn lemma_good_builtin(b: BuiltinAlias)
    ensures
        good(TypeModel::Builtin(b)),
{
}

proof fn lemma_good_bool()
    ensures
        good(TypeModel::Boolean),
{
}

proof fn lemma_first_alias_of_none(es: Seq<TypeModel>)
    requires
        forall|i: int| 0 <= i < es.len() ==> first_alias(#[trigger] es[i]) is None,
    ensures
        first_alias_of(es) is None,
    decreases es.len(),
{
    if es.len() > 0 {
        lemma_first_alias_of_none(es.drop_last());
    }
}

proof fn lemma_good_tuple(es: Seq<TypeModel>)
    requires
        es.len() <= 4,
        all_good(es),
    ensures
        good(TypeModel::Tuple(es)),
{
    lemma_first_alias_of_none(es);
}

proof fn lemma_good_array(e: TypeModel, n: nat)
    requires
        good(e),
        n <= 512,
    ensures
        good(model_array(e, n)),
{
}

proof fn lemma_good_list(e: TypeModel, b: nat)
    requires
        good(e),
        is_list_bound(b),
        b <= 512,
    ensures
        good(model_list(e, b)),
{
}

proof fn lemma_good_either(l: TypeModel, r: TypeModel)
    requires
        good(l),
        good(r),
    ensures
        good(model_either(l, r)),
{
}

proof fn lemma_good_option(e: TypeModel)
    requires
        good(e),
    ensures
        good(TypeModel::Option(Box::new(e))),
{
}

proof fn lemma_source_0()
    ensures
        all_good(Seq::<TypeModel>::empty()),
{
    assert forall|i: int| 0 <= i < (Seq::<TypeModel>::empty()).len() implies good((Seq::<TypeModel>::empty())[i]) by {}
}

proof fn lemma_source_1()
    ensures
        all_good(seq![TypeModel::Boolean]),
{
    lemma_good_bool();
    assert forall|i: int| 0 <= i < (seq![TypeModel::Boolean]).len() implies good((seq![TypeModel::Boolean])[i]) by {}
}

proof fn lemma_source_2()
    ensures
        all_good(seq![TypeModel::UInt(UIntType::U1)]),
{
    lemma_good_uint(UIntType::U1);
    assert forall|i: int| 0 <= i < (seq![TypeModel::UInt(UIntType::U1)]).len() implies good((seq![TypeModel::UInt(UIntType::U1)])[i]) by {}
}

proof fn lemma_source_3()
    ensures
        all_good(seq![TypeModel::UInt(UIntType::U8)]),
{
    lemma_good_uint(UIntType::U8);
    assert forall|i: int| 0 <= i < (seq![TypeModel::UInt(UIntType::U8)]).len() implies good((seq![TypeModel::UInt(UIntType::U8)])[i]) by {}
}

proof fn lemma_source_4()
    ensures
        all_good(seq![TypeModel::UInt(UIntType::U16)]),
{
    lemma_good_uint(UIntType::U16);
    assert forall|i: int| 0 <= i < (seq![TypeModel::UInt(UIntType::U16)]).len() implies good((seq![TypeModel::UInt(UIntType::U16)])[i]) by {}
}

proof fn lemma_source_5()
    ensures
        all_good(seq![TypeModel::UInt(UIntType::U32)]),
{
    lemma_good_uint(UIntType::U32);
    assert forall|i: int| 0 <= i < (seq![TypeModel::UInt(UIntType::U32)]).len() implies good((seq![TypeModel::UInt(UIntType::U32)])[i]) by {}
}

proof fn lemma_source_6()
    ensures
        all_good(seq![TypeModel::UInt(UIntType::U64)]),
{
    lemma_good_uint(UIntType::U64);
    assert forall|i: int| 0 <= i < (seq![TypeModel::UInt(UIntType::U64)]).len() implies good((seq![TypeModel::UInt(UIntType::U64)])[i]) by {}
}

proof fn lemma_source_7()
    ensures
        all_good(seq![TypeModel::UInt(UIntType::U1), TypeModel::UInt(UIntType::U1)]),
{
    lemma_good_uint(UIntType::U1);
    assert forall|i: int| 0 <= i < (seq![TypeModel::UInt(UIntType::U1), TypeModel::UInt(UIntType::U1)]).len() implies good((seq![TypeModel::UInt(UIntType::U1), TypeModel::UInt(UIntType::U1)])[i]) by {}
}

proof fn lemma_source_8()
    ensures
        all_good(seq![TypeModel::UInt(UIntType::U8), TypeModel::UInt(UIntType::U8)]),
{
    lemma_good_uint(UIntType::U8);
    assert forall|i: int| 0 <= i < (seq![TypeModel::UInt(UIntType::U8), TypeModel::UInt(UIntType::U8)]).len() implies good((seq![TypeModel::UInt(UIntType::U8), TypeModel::UInt(UIntType::U8)])[i]) by {}
}

proof fn lemma_source_9()
    ensures
        all_good(seq![TypeModel::UInt(UIntType::U16), TypeModel::UInt(UIntType::U16)]),
{
    lemma_good_uint(UIntType::U16);
    assert forall|i: int| 0 <= i < (seq![TypeModel::UInt(UIntType::U16), TypeModel::UInt(UIntType::U16)]).len() implies good((seq![TypeModel::UInt(UIntType::U16), TypeModel::UInt(UIntType::U16)])[i]) by {}
}

proof fn lemma_source_10()
    ensures
        all_good(seq![TypeModel::UInt(UIntType::U32), TypeModel::UInt(UIntType::U32)]),
{
    lemma_good_uint(UIntType::U32);
    assert forall|i: int| 0 <= i < (seq![TypeModel::UInt(UIntType::U32), TypeModel::UInt(UIntType::U32)]).len() implies good((seq![TypeModel::UInt(UIntType::U32), TypeModel::UInt(UIntType::U32)])[i]) by {}
}

proof fn lemma_source_11()
    ensures
        all_good(seq![TypeModel::UInt(UIntType::U64), TypeModel::UInt(UIntType::U64)]),
{
    lemma_good_uint(UIntType::U64);
    assert forall|i: int| 0 <= i < (seq![TypeModel::UInt(UIntType::U64), TypeModel::UInt(UIntType::U64)]).len() implies good((seq![TypeModel::UInt(UIntType::U64), TypeModel::UInt(UIntType::U64)])[i]) by {}
}

proof fn lemma_source_12()
    ensures
        all_good(seq![TypeModel::UInt(UIntType::U256), TypeModel::UInt(UIntType::U256)]),
{
    lemma_good_uint(UIntType::U256);
    assert forall|i: int| 0 <= i < (seq![TypeModel::UInt(UIntType::U256), TypeModel::UInt(UIntType::U256)]).len() implies good((seq![TypeModel::UInt(UIntType::U256), TypeModel::UInt(UIntType::U256)])[i]) by {}
}

proof fn lemma_source_13()
    ensures
        all_good(seq![TypeModel::UInt(UIntType::U1), TypeModel::UInt(UIntType::U1), TypeModel::UInt(UIntType::U1)]),
{
    lemma_good_uint(UIntType::U1);
    assert forall|i: int| 0 <= i < (seq![TypeModel::UInt(UIntType::U1), TypeModel::UInt(UIntType::U1), TypeModel::UInt(UIntType::U1)]).len() implies good((seq![TypeModel::UInt(UIntType::U1), TypeModel::UInt(UIntType::U1), TypeModel::UInt(UIntType::U1)])[i]) by {}
}

proof fn lemma_source_14()
    ensures
        all_good(seq![TypeModel::UInt(UIntType::U8), TypeModel::UInt(UIntType::U8), TypeModel::UInt(UIntType::U8)]),
{
    lemma_good_uint(UIntType::U8);
    assert forall|i: int| 0 <= i < (seq![TypeModel::UInt(UIntType::U8), TypeModel::UInt(UIntType::U8), TypeModel::UInt(UIntType::U8)]).len() implies good((seq![TypeModel::UInt(UIntType::U8), TypeModel::UInt(UIntType::U8), TypeModel::UInt(UIntType::U8)])[i]) by {}
}

proof fn lemma_source_15()
    ensures
        all_good(seq![TypeModel::UInt(UIntType::U16), TypeModel::Tuple(seq![TypeModel::UInt(UIntType::U16), TypeModel::UInt(UIntType::U16)])]),
{
    lemma_good_uint(UIntType::U16);
    lemma_good_tuple(seq![TypeModel::UInt(UIntType::U16), TypeModel::UInt(UIntType::U16)]);
    assert forall|i: int| 0 <= i < (seq![TypeModel::UInt(UIntType::U16), TypeModel::Tuple(seq![TypeModel::UInt(UIntType::U16), TypeModel::UInt(UIntType::U16)])]).len() implies good((seq![TypeModel::UInt(UIntType::U16), TypeModel::Tuple(seq![TypeModel::UInt(UIntType::U16), TypeModel::UInt(UIntType::U16)])])[i]) by {}
}

proof fn lemma_source_16()
    ensures
        all_good(seq![TypeModel::UInt(UIntType::U32), TypeModel::Tuple(seq![TypeModel::UInt(UIntType::U32), TypeModel::UInt(UIntType::U32)])]),
{
    lemma_good_uint(UIntType::U32);
    lemma_good_tuple(seq![TypeModel::UInt(UIntType::U32), TypeModel::UInt(UIntType::U32)]);
    assert forall|i: int| 0 <= i < (seq![TypeModel::UInt(UIntType::U32), TypeModel::Tuple(seq![TypeModel::UInt(UIntType::U32), TypeModel::UInt(UIntType::U32)])]).len() implies good((seq![TypeModel::UInt(UIntType::U32), TypeModel::Tuple(seq![TypeModel::UInt(UIntType::U32), TypeModel::UInt(UIntType::U32)])])[i]) by {}
}

proof fn lemma_source_17()
    ensures
        all_good(seq![TypeModel::UInt(UIntType::U64), TypeModel::Tuple(seq![TypeModel::UInt(UIntType::U64), TypeModel::UInt(UIntType::U64)])]),
{
    lemma_good_uint(UIntType::U64);
    lemma_good_tuple(seq![TypeModel::UInt(UIntType::U64), TypeModel::UInt(UIntType::U64)]);
    assert forall|i: int| 0 <= i < (seq![TypeModel::UInt(UIntType::U64), TypeModel::Tuple(seq![TypeModel::UInt(UIntType::U64), TypeModel::UInt(UIntType::U64)])]).len() implies good((seq![TypeModel::UInt(UIntType::U64), TypeModel::Tuple(seq![TypeModel::UInt(UIntType::U64), TypeModel::UInt(UIntType::U64)])])[i]) by {}
}

proof fn lemma_source_18()
    ensures
        all_good(seq![TypeModel::UInt(UIntType::U8), TypeModel::UInt(UIntType::U1)]),
{
    lemma_good_uint(UIntType::U8);
    lemma_good_uint(UIntType::U1);
    assert forall|i: int| 0 <= i < (seq![TypeModel::UInt(UIntType::U8), TypeModel::UInt(UIntType::U1)]).len() implies good((seq![TypeModel::UInt(UIntType::U8), TypeModel::UInt(UIntType::U1)])[i]) by {}
}

proof fn lemma_source_19()
    ensures
        all_good(seq![TypeModel::UInt(UIntType::U8), TypeModel::UInt(UIntType::U2)]),
{
    lemma_good_uint(UIntType::U8);
    lemma_good_uint(UIntType::U2);
    assert forall|i: int| 0 <= i < (seq![TypeModel::UInt(UIntType::U8), TypeModel::UInt(UIntType::U2)]).len() implies good((seq![TypeModel::UInt(UIntType::U8), TypeModel::UInt(UIntType::U2)])[i]) by {}
}

proof fn lemma_source_20()
    ensures
        all_good(seq![TypeModel::UInt(UIntType::U8), TypeModel::UInt(UIntType::U4)]),
{
    lemma_good_uint(UIntType::U8);
    lemma_good_uint(UIntType::U4);
    assert forall|i: int| 0 <= i < (seq![TypeModel::UInt(UIntType::U8), TypeModel::UInt(UIntType::U4)]).len() implies good((seq![TypeModel::UInt(UIntType::U8), TypeModel::UInt(UIntType::U4)])[i]) by {}
}

proof fn lemma_source_21()
    ensures
        all_good(seq![TypeModel::UInt(UIntType::U16), TypeModel::UInt(UIntType::U1)]),
{
    lemma_good_uint(UIntType::U16);
    lemma_good_uint(UIntType::U1);
    assert forall|i: int| 0 <= i < (seq![TypeModel::UInt(UIntType::U16), TypeModel::UInt(UIntType::U1)]).len() implies good((seq![TypeModel::UInt(UIntType::U16), TypeModel::UInt(UIntType::U1)])[i]) by {}
}

proof fn lemma_source_22()
    ensures
        all_good(seq![TypeModel::UInt(UIntType::U16), TypeModel::UInt(UIntType::U2)]),
{
    lemma_good_uint(UIntType::U16);
    lemma_good_uint(UIntType::U2);
    assert forall|i: int| 0 <= i < (seq![TypeModel::UInt(UIntType::U16), TypeModel::UInt(UIntType::U2)]).len() implies good((seq![TypeModel::UInt(UIntType::U16), TypeModel::UInt(UIntType::U2)])[i]) by {}
}

proof fn lemma_source_23()
    ensures
        all_good(seq![TypeModel::UInt(UIntType::U16), TypeModel::UInt(UIntType::U4)]),
{
    lemma_good_uint(UIntType::U16);
    lemma_good_uint(UIntType::U4);
    assert forall|i: int| 0 <= i < (seq![TypeModel::UInt(UIntType::U16), TypeModel::UInt(UIntType::U4)]).len() implies good((seq![TypeModel::UInt(UIntType::U16), TypeModel::UInt(UIntType::U4)])[i]) by {}
}

proof fn lemma_source_24()
    ensures
        all_good(seq![TypeModel::UInt(UIntType::U16), TypeModel::UInt(UIntType::U8)]),
{
    lemma_good_uint(UIntType::U16);
    lemma_good_uint(UIntType::U8);
    assert forall|i: int| 0 <= i < (seq![TypeModel::UInt(UIntType::U16), TypeModel::UInt(UIntType::U8)]).len() implies good((seq![TypeModel::UInt(UIntType::U16), TypeModel::UInt(UIntType::U8)])[i]) by {}
}

proof fn lemma_source_25()
    ensures
        all_good(seq![TypeModel::UInt(UIntType::U32), TypeModel::UInt(UIntType::U1)]),
{
    lemma_good_uint(UIntType::U32);
    lemma_good_uint(UIntType::U1);
    assert forall|i: int| 0 <= i < (seq![TypeModel::UInt(UIntType::U32), TypeModel::UInt(UIntType::U1)]).len() implies good((seq![TypeModel::UInt(UIntType::U32), TypeModel::UInt(UIntType::U1)])[i]) by {}
}

proof fn lemma_source_26()
    ensures
        all_good(seq![TypeModel::UInt(UIntType::U32), TypeModel::UInt(UIntType::U2)]),
{
    lemma_good_uint(UIntType::U32);
    lemma_good_uint(UIntType::U2);
    assert forall|i: int| 0 <= i < (seq![TypeModel::UInt(UIntType::U32), TypeModel::UInt(UIntType::U2)]).len() implies good((seq![TypeModel::UInt(UIntType::U32), TypeModel::UInt(UIntType::U2)])[i]) by {}
}

proof fn lemma_source_27()
    ensures
        all_good(seq![TypeModel::UInt(UIntType::U32), TypeModel::UInt(UIntType::U4)]),
{
    lemma_good_uint(UIntType::U32);
    lemma_good_uint(UIntType::U4);
    assert forall|i: int| 0 <= i < (seq![TypeModel::UInt(UIntType::U32), TypeModel::UInt(UIntType::U4)]).len() implies good((seq![TypeModel::UInt(UIntType::U32), TypeModel::UInt(UIntType::U4)])[i]) by {}
}

proof fn lemma_source_28()
    ensures
        all_good(seq![TypeModel::UInt(UIntType::U32), TypeModel::UInt(UIntType::U8)]),
{
    lemma_good_uint(UIntType::U32);
    lemma_good_uint(UIntType::U8);
    assert forall|i: int| 0 <= i < (seq![TypeModel::UInt(UIntType::U32), TypeModel::UInt(UIntType::U8)]).len() implies good((seq![TypeModel::UInt(UIntType::U32), TypeModel::UInt(UIntType::U8)])[i]) by {}
}

proof fn lemma_source_29()
    ensures
        all_good(seq![TypeModel::UInt(UIntType::U32), TypeModel::UInt(UIntType::U16)]),
{
    lemma_good_uint(UIntType::U32);
    lemma_good_uint(UIntType::U16);
    assert forall|i: int| 0 <= i < (seq![TypeModel::UInt(UIntType::U32), TypeModel::UInt(UIntType::U16)]).len() implies good((seq![TypeModel::UInt(UIntType::U32), TypeModel::UInt(UIntType::U16)])[i]) by {}
}

proof fn lemma_source_30()
    ensures
        all_good(seq![TypeModel::UInt(UIntType::U64), TypeModel::UInt(UIntType::U1)]),
{
    lemma_good_uint(UIntType::U64);
    lemma_good_uint(UIntType::U1);
    assert forall|i: int| 0 <= i < (seq![TypeModel::UInt(UIntType::U64), TypeModel::UInt(UIntType::U1)]).len() implies good((seq![TypeModel::UInt(UIntType::U64), TypeModel::UInt(UIntType::U1)])[i]) by {}
}

proof fn lemma_source_31()
    ensures
        all_good(seq![TypeModel::UInt(UIntType::U64), TypeModel::UInt(UIntType::U2)]),
{
    lemma_good_uint(UIntType::U64);
    lemma_good_uint(UIntType::U2);
    assert forall|i: int| 0 <= i < (seq![TypeModel::UInt(UIntType::U64), TypeModel::UInt(UIntType::U2)]).len() implies good((seq![TypeModel::UInt(UIntType::U64), TypeModel::UInt(UIntType::U2)])[i]) by {}
}

proof fn lemma_source_32()
    ensures
        all_good(seq![TypeModel::UInt(UIntType::U64), TypeModel::UInt(UIntType::U4)]),
{
    lemma_good_uint(UIntType::U64);
    lemma_good_uint(UIntType::U4);
    assert forall|i: int| 0 <= i < (seq![TypeModel::UInt(UIntType::U64), TypeModel::UInt(UIntType::U4)]).len() implies good((seq![TypeModel::UInt(UIntType::U64), TypeModel::UInt(UIntType::U4)])[i]) by {}
}

proof fn lemma_source_33()
    ensures
        all_good(seq![TypeModel::UInt(UIntType::U64), TypeModel::UInt(UIntType::U8)]),
{
    lemma_good_uint(UIntType::U64);
    lemma_good_uint(UIntType::U8);
    assert forall|i: int| 0 <= i < (seq![TypeModel::UInt(UIntType::U64), TypeModel::UInt(UIntType::U8)]).len() implies good((seq![TypeModel::UInt(UIntType::U64), TypeModel::UInt(UIntType::U8)])[i]) by {}
}

proof fn lemma_source_34()
    ensures
        all_good(seq![TypeModel::UInt(UIntType::U64), TypeModel::UInt(UIntType::U16)]),
{
    lemma_good_uint(UIntType::U64);
    lemma_good_uint(UIntType::U16);
    assert forall|i: int| 0 <= i < (seq![TypeModel::UInt(UIntType::U64), TypeModel::UInt(UIntType::U16)]).len() implies good((seq![TypeModel::UInt(UIntType::U64), TypeModel::UInt(UIntType::U16)])[i]) by {}
}

proof fn lemma_source_35()
    ensures
        all_good(seq![TypeModel::UInt(UIntType::U64), TypeModel::UInt(UIntType::U32)]),
{
    lemma_good_uint(UIntType::U64);
    lemma_good_uint(UIntType::U32);
    assert forall|i: int| 0 <= i < (seq![TypeModel::UInt(UIntType::U64), TypeModel::UInt(UIntType::U32)]).len() implies good((seq![TypeModel::UInt(UIntType::U64), TypeModel::UInt(UIntType::U32)])[i]) by {}
}

proof fn lemma_source_36()
    ensures
        all_good(seq![TypeModel::UInt(UIntType::U1), TypeModel::UInt(UIntType::U8)]),
{
    lemma_good_uint(UIntType::U1);
    lemma_good_uint(UIntType::U8);
    assert forall|i: int| 0 <= i < (seq![TypeModel::UInt(UIntType::U1), TypeModel::UInt(UIntType::U8)]).len() implies good((seq![TypeModel::UInt(UIntType::U1), TypeModel::UInt(UIntType::U8)])[i]) by {}
}

proof fn lemma_source_37()
    ensures
        all_good(seq![TypeModel::UInt(UIntType::U2), TypeModel::UInt(UIntType::U8)]),
{
    lemma_good_uint(UIntType::U2);
    lemma_good_uint(UIntType::U8);
    assert forall|i: int| 0 <= i < (seq![TypeModel::UInt(UIntType::U2), TypeModel::UInt(UIntType::U8)]).len() implies good((seq![TypeModel::UInt(UIntType::U2), TypeModel::UInt(UIntType::U8)])[i]) by {}
}

proof fn lemma_source_38()
    ensures
        all_good(seq![TypeModel::UInt(UIntType::U4), TypeModel::UInt(UIntType::U8)]),
{
    lemma_good_uint(UIntType::U4);
    lemma_good_uint(UIntType::U8);
    assert forall|i: int| 0 <= i < (seq![TypeModel::UInt(UIntType::U4), TypeModel::UInt(UIntType::U8)]).len() implies good((seq![TypeModel::UInt(UIntType::U4), TypeModel::UInt(UIntType::U8)])[i]) by {}
}

proof fn lemma_source_39()
    ensures
        all_good(seq![TypeModel::UInt(UIntType::U1), TypeModel::UInt(UIntType::U16)]),
{
    lemma_good_uint(UIntType::U1);
    lemma_good_uint(UIntType::U16);
    assert forall|i: int| 0 <= i < (seq![TypeModel::UInt(UIntType::U1), TypeModel::UInt(UIntType::U16)]).len() implies good((seq![TypeModel::UInt(UIntType::U1), TypeModel::UInt(UIntType::U16)])[i]) by {}
}

proof fn lemma_source_40()
    ensures
        all_good(seq![TypeModel::UInt(UIntType::U2), TypeModel::UInt(UIntType::U16)]),
{
    lemma_good_uint(UIntType::U2);
    lemma_good_uint(UIntType::U16);
    assert forall|i: int| 0 <= i < (seq![TypeModel::UInt(UIntType::U2), TypeModel::UInt(UIntType::U16)]).len() implies good((seq![TypeModel::UInt(UIntType::U2), TypeModel::UInt(UIntType::U16)])[i]) by {}
}

proof fn lemma_source_41()
    ensures
        all_good(seq![TypeModel::UInt(UIntType::U4), TypeModel::UInt(UIntType::U16)]),
{
    lemma_good_uint(UIntType::U4);
    lemma_good_uint(UIntType::U16);
    assert forall|i: int| 0 <= i < (seq![TypeModel::UInt(UIntType::U4), TypeModel::UInt(UIntType::U16)]).len() implies good((seq![TypeModel::UInt(UIntType::U4), TypeModel::UInt(UIntType::U16)])[i]) by {}
}

proof fn lemma_source_42()
    ensures
        all_good(seq![TypeModel::UInt(UIntType::U8), TypeModel::UInt(UIntType::U16)]),
{
    lemma_good_uint(UIntType::U8);
    lemma_good_uint(UIntType::U16);
    assert forall|i: int| 0 <= i < (seq![TypeModel::UInt(UIntType::U8), TypeModel::UInt(UIntType::U16)]).len() implies good((seq![TypeModel::UInt(UIntType::U8), TypeModel::UInt(UIntType::U16)])[i]) by {}
}

proof fn lemma_source_43()
    ensures
        all_good(seq![TypeModel::UInt(UIntType::U1), TypeModel::UInt(UIntType::U32)]),
{
    lemma_good_uint(UIntType::U1);
    lemma_good_uint(UIntType::U32);
    assert forall|i: int| 0 <= i < (seq![TypeModel::UInt(UIntType::U1), TypeModel::UInt(UIntType::U32)]).len() implies good((seq![TypeModel::UInt(UIntType::U1), TypeModel::UInt(UIntType::U32)])[i]) by {}
}

proof fn lemma_source_44()
    ensures
        all_good(seq![TypeModel::UInt(UIntType::U2), TypeModel::UInt(UIntType::U32)]),
{
    lemma_good_uint(UIntType::U2);
    lemma_good_uint(UIntType::U32);
    assert forall|i: int| 0 <= i < (seq![TypeModel::UInt(UIntType::U2), TypeModel::UInt(UIntType::U32)]).len() implies good((seq![TypeModel::UInt(UIntType::U2), TypeModel::UInt(UIntType::U32)])[i]) by {}
}

proof fn lemma_source_45()
    ensures
        all_good(seq![TypeModel::UInt(UIntType::U4), TypeModel::UInt(UIntType::U32)]),
{
    lemma_good_uint(UIntType::U4);
    lemma_good_uint(UIntType::U32);
    assert forall|i: int| 0 <= i < (seq![TypeModel::UInt(UIntType::U4), TypeModel::UInt(UIntType::U32)]).len() implies good((seq![TypeModel::UInt(UIntType::U4), TypeModel::UInt(UIntType::U32)])[i]) by {}
}

proof fn lemma_source_46()
    ensures
        all_good(seq![TypeModel::UInt(UIntType::U8), TypeModel::UInt(UIntType::U32)]),
{
    lemma_good_uint(UIntType::U8);
    lemma_good_uint(UIntType::U32);
    assert forall|i: int| 0 <= i < (seq![TypeModel::UInt(UIntType::U8), TypeModel::UInt(UIntType::U32)]).len() implies good((seq![TypeModel::UInt(UIntType::U8), TypeModel::UInt(UIntType::U32)])[i]) by {}
}

proof fn lemma_source_47()
    ensures
        all_good(seq![TypeModel::UInt(UIntType::U16), TypeModel::UInt(UIntType::U32)]),
{
    lemma_good_uint(UIntType::U16);
    lemma_good_uint(UIntType::U32);
    assert forall|i: int| 0 <= i < (seq![TypeModel::UInt(UIntType::U16), TypeModel::UInt(UIntType::U32)]).len() implies good((seq![TypeModel::UInt(UIntType::U16), TypeModel::UInt(UIntType::U32)])[i]) by {}
}

proof fn lemma_source_48()
    ensures
        all_good(seq![TypeModel::UInt(UIntType::U1), TypeModel::UInt(UIntType::U64)]),
{
    lemma_good_uint(UIntType::U1);
    lemma_good_uint(UIntType::U64);
    assert forall|i: int| 0 <= i < (seq![TypeModel::UInt(UIntType::U1), TypeModel::UInt(UIntType::U64)]).len() implies good((seq![TypeModel::UInt(UIntType::U1), TypeModel::UInt(UIntType::U64)])[i]) by {}
}

proof fn lemma_source_49()
    ensures
        all_good(seq![TypeModel::UInt(UIntType::U2), TypeModel::UInt(UIntType::U64)]),
{
    lemma_good_uint(UIntType::U2);
    lemma_good_uint(UIntType::U64);
    assert forall|i: int| 0 <= i < (seq![TypeModel::UInt(UIntType::U2), TypeModel::UInt(UIntType::U64)]).len() implies good((seq![TypeModel::UInt(UIntType::U2), TypeModel::UInt(UIntType::U64)])[i]) by {}
}

proof fn lemma_source_50()
    ensures
        all_good(seq![TypeModel::UInt(UIntType::U4), TypeModel::UInt(UIntType::U64)]),
{
    lemma_good_uint(UIntType::U4);
    lemma_good_uint(UIntType::U64);
    assert forall|i: int| 0 <= i < (seq![TypeModel::UInt(UIntType::U4), TypeModel::UInt(UIntType::U64)]).len() implies good((seq![TypeModel::UInt(UIntType::U4), TypeModel::UInt(UIntType::U64)])[i]) by {}
}

proof fn lemma_source_51()
    ensures
        all_good(seq![TypeModel::UInt(UIntType::U8), TypeModel::UInt(UIntType::U64)]),
{
    lemma_good_uint(UIntType::U8);
    lemma_good_uint(UIntType::U64);
    assert forall|i: int| 0 <= i < (seq![TypeModel::UInt(UIntType::U8), TypeModel::UInt(UIntType::U64)]).len() implies good((seq![TypeModel::UInt(UIntType::U8), TypeModel::UInt(UIntType::U64)])[i]) by {}
}

proof fn lemma_source_52()
    ensures
        all_good(seq![TypeModel::UInt(UIntType::U16), TypeModel::UInt(UIntType::U64)]),
{
    lemma_good_uint(UIntType::U16);
    lemma_good_uint(UIntType::U64);
    assert forall|i: int| 0 <= i < (seq![TypeModel::UInt(UIntType::U16), TypeModel::UInt(UIntType::U64)]).len() implies good((seq![TypeModel::UInt(UIntType::U16), TypeModel::UInt(UIntType::U64)])[i]) by {}
}

proof fn lemma_source_53()
    ensures
        all_good(seq![TypeModel::UInt(UIntType::U32), TypeModel::UInt(UIntType::U64)]),
{
    lemma_good_uint(UIntType::U32);
    lemma_good_uint(UIntType::U64);
    assert forall|i: int| 0 <= i < (seq![TypeModel::UInt(UIntType::U32), TypeModel::UInt(UIntType::U64)]).len() implies good((seq![TypeModel::UInt(UIntType::U32), TypeModel::UInt(UIntType::U64)])[i]) by {}
}

proof fn lemma_source_54()
    ensures
        all_good(seq![TypeModel::UInt(UIntType::U1), TypeModel::UInt(UIntType::U4), TypeModel::UInt(UIntType::U8)]),
{
    lemma_good_uint(UIntType::U1);
    lemma_good_uint(UIntType::U4);
    lemma_good_uint(UIntType::U8);
    assert forall|i: int| 0 <= i < (seq![TypeModel::UInt(UIntType::U1), TypeModel::UInt(UIntType::U4), TypeModel::UInt(UIntType::U8)]).len() implies good((seq![TypeModel::UInt(UIntType::U1), TypeModel::UInt(UIntType::U4), TypeModel::UInt(UIntType::U8)])[i]) by {}
}

proof fn lemma_source_55()
    ensures
        all_good(seq![TypeModel::UInt(UIntType::U1), TypeModel::UInt(UIntType::U4), TypeModel::UInt(UIntType::U16)]),
{
    lemma_good_uint(UIntType::U1);
    lemma_good_uint(UIntType::U4);
    lemma_good_uint(UIntType::U16);
    assert forall|i: int| 0 <= i < (seq![TypeModel::UInt(UIntType::U1), TypeModel::UInt(UIntType::U4), TypeModel::UInt(UIntType::U16)]).len() implies good((seq![TypeModel::UInt(UIntType::U1), TypeModel::UInt(UIntType::U4), TypeModel::UInt(UIntType::U16)])[i]) by {}
}

proof fn lemma_source_56()
    ensures
        all_good(seq![TypeModel::UInt(UIntType::U1), TypeModel::UInt(UIntType::U8), TypeModel::UInt(UIntType::U32)]),
{
    lemma_good_uint(UIntType::U1);
    lemma_good_uint(UIntType::U8);
    lemma_good_uint(UIntType::U32);
    assert forall|i: int| 0 <= i < (seq![TypeModel::UInt(UIntType::U1), TypeModel::UInt(UIntType::U8), TypeModel::UInt(UIntType::U32)]).len() implies good((seq![TypeModel::UInt(UIntType::U1), TypeModel::UInt(UIntType::U8), TypeModel::UInt(UIntType::U32)])[i]) by {}
}

proof fn lemma_source_57()
    ensures
        all_good(seq![TypeModel::UInt(UIntType::U1), TypeModel::UInt(UIntType::U8), TypeModel::UInt(UIntType::U64)]),
{
    lemma_good_uint(UIntType::U1);
    lemma_good_uint(UIntType::U8);
    lemma_good_uint(UIntType::U64);
    assert forall|i: int| 0 <= i < (seq![TypeModel::UInt(UIntType::U1), TypeModel::UInt(UIntType::U8), TypeModel::UInt(UIntType::U64)]).len() implies good((seq![TypeModel::UInt(UIntType::U1), TypeModel::UInt(UIntType::U8), TypeModel::UInt(UIntType::U64)])[i]) by {}
}

proof fn lemma_source_58()
    ensures
        all_good(seq![TypeModel::UInt(UIntType::U128), TypeModel::UInt(UIntType::U64)]),
{
    lemma_good_uint(UIntType::U128);
    lemma_good_uint(UIntType::U64);
    assert forall|i: int| 0 <= i < (seq![TypeModel::UInt(UIntType::U128), TypeModel::UInt(UIntType::U64)]).len() implies good((seq![TypeModel::UInt(UIntType::U128), TypeModel::UInt(UIntType::U64)])[i]) by {}
}

proof fn lemma_source_59()
    ensures
        all_good(seq![TypeModel::Boolean, TypeModel::UInt(UIntType::U8), TypeModel::UInt(UIntType::U8)]),
{
    lemma_good_bool();
    lemma_good_uint(UIntType::U8);
    assert forall|i: int| 0 <= i < (seq![TypeModel::Boolean, TypeModel::UInt(UIntType::U8), TypeModel::UInt(UIntType::U8)]).len() implies good((seq![TypeModel::Boolean, TypeModel::UInt(UIntType::U8), TypeModel::UInt(UIntType::U8)])[i]) by {}
}

proof fn lemma_source_60()
    ensures
        all_good(seq![TypeModel::Boolean, TypeModel::UInt(UIntType::U16), TypeModel::UInt(UIntType::U16)]),
{
    lemma_good_bool();
    lemma_good_uint(UIntType::U16);
    assert forall|i: int| 0 <= i < (seq![TypeModel::Boolean, TypeModel::UInt(UIntType::U16), TypeModel::UInt(UIntType::U16)]).len() implies good((seq![TypeModel::Boolean, TypeModel::UInt(UIntType::U16), TypeModel::UInt(UIntType::U16)])[i]) by {}
}

proof fn lemma_source_61()
    ensures
        all_good(seq![TypeModel::Boolean, TypeModel::UInt(UIntType::U32), TypeModel::UInt(UIntType::U32)]),
{
    lemma_good_bool();
    lemma_good_uint(UIntType::U32);
    assert forall|i: int| 0 <= i < (seq![TypeModel::Boolean, TypeModel::UInt(UIntType::U32), TypeModel::UInt(UIntType::U32)]).len() implies good((seq![TypeModel::Boolean, TypeModel::UInt(UIntType::U32), TypeModel::UInt(UIntType::U32)])[i]) by {}
}

proof fn lemma_source_62()
    ensures
        all_good(seq![TypeModel::Boolean, TypeModel::UInt(UIntType::U64), TypeModel::UInt(UIntType::U64)]),
{
    lemma_good_bool();
    lemma_good_uint(UIntType::U64);
    assert forall|i: int| 0 <= i < (seq![TypeModel::Boolean, TypeModel::UInt(UIntType::U64), TypeModel::UInt(UIntType::U64)]).len() implies good((seq![TypeModel::Boolean, TypeModel::UInt(UIntType::U64), TypeModel::UInt(UIntType::U64)])[i]) by {}
}

proof fn lemma_source_63()
    ensures
        all_good(seq![TypeModel::Boolean, TypeModel::UInt(UIntType::U8)]),
{
    lemma_good_bool();
    lemma_good_uint(UIntType::U8);
    assert forall|i: int| 0 <= i < (seq![TypeModel::Boolean, TypeModel::UInt(UIntType::U8)]).len() implies good((seq![TypeModel::Boolean, TypeModel::UInt(UIntType::U8)])[i]) by {}
}

proof fn lemma_source_64()
    ensures
        all_good(seq![TypeModel::Boolean, TypeModel::UInt(UIntType::U16)]),
{
    lemma_good_bool();
    lemma_good_uint(UIntType::U16);
    assert forall|i: int| 0 <= i < (seq![TypeModel::Boolean, TypeModel::UInt(UIntType::U16)]).len() implies good((seq![TypeModel::Boolean, TypeModel::UInt(UIntType::U16)])[i]) by {}
}

proof fn lemma_source_65()
    ensures
        all_good(seq![TypeModel::Boolean, TypeModel::UInt(UIntType::U32)]),
{
    lemma_good_bool();
    lemma_good_uint(UIntType::U32);
    assert forall|i: int| 0 <= i < (seq![TypeModel::Boolean, TypeModel::UInt(UIntType::U32)]).len() implies good((seq![TypeModel::Boolean, TypeModel::UInt(UIntType::U32)])[i]) by {}
}

proof fn lemma_source_66()
    ensures
        all_good(seq![TypeModel::Boolean, TypeModel::UInt(UIntType::U64)]),
{
    lemma_good_bool();
    lemma_good_uint(UIntType::U64);
    assert forall|i: int| 0 <= i < (seq![TypeModel::Boolean, TypeModel::UInt(UIntType::U64)]).len() implies good((seq![TypeModel::Boolean, TypeModel::UInt(UIntType::U64)])[i]) by {}
}

proof fn lemma_source_67()
    ensures
        all_good(seq![TypeModel::UInt(UIntType::U8), TypeModel::UInt(UIntType::U8), TypeModel::UInt(UIntType::U8), TypeModel::UInt(UIntType::U8)]),
{
    lemma_good_uint(UIntType::U8);
    assert forall|i: int| 0 <= i < (seq![TypeModel::UInt(UIntType::U8), TypeModel::UInt(UIntType::U8), TypeModel::UInt(UIntType::U8), TypeModel::UInt(UIntType::U8)]).len() implies good((seq![TypeModel::UInt(UIntType::U8), TypeModel::UInt(UIntType::U8), TypeModel::UInt(UIntType::U8), TypeModel::UInt(UIntType::U8)])[i]) by {}
}

proof fn lemma_source_68()
    ensures
        all_good(seq![TypeModel::UInt(UIntType::U16), TypeModel::UInt(UIntType::U16), TypeModel::UInt(UIntType::U16), TypeModel::UInt(UIntType::U16)]),
{
    lemma_good_uint(UIntType::U16);
    assert forall|i: int| 0 <= i < (seq![TypeModel::UInt(UIntType::U16), TypeModel::UInt(UIntType::U16), TypeModel::UInt(UIntType::U16), TypeModel::UInt(UIntType::U16)]).len() implies good((seq![TypeModel::UInt(UIntType::U16), TypeModel::UInt(UIntType::U16), TypeModel::UInt(UIntType::U16), TypeModel::UInt(UIntType::U16)])[i]) by {}
}

proof fn lemma_source_69()
    ensures
        all_good(seq![TypeModel::UInt(UIntType::U32), TypeModel::UInt(UIntType::U32), TypeModel::UInt(UIntType::U32), TypeModel::UInt(UIntType::U32)]),
{
    lemma_good_uint(UIntType::U32);
    assert forall|i: int| 0 <= i < (seq![TypeModel::UInt(UIntType::U32), TypeModel::UInt(UIntType::U32), TypeModel::UInt(UIntType::U32), TypeModel::UInt(UIntType::U32)]).len() implies good((seq![TypeModel::UInt(UIntType::U32), TypeModel::UInt(UIntType::U32), TypeModel::UInt(UIntType::U32), TypeModel::UInt(UIntType::U32)])[i]) by {}
}

proof fn lemma_source_70()
    ensures
        all_good(seq![TypeModel::UInt(UIntType::U64), TypeModel::UInt(UIntType::U64), TypeModel::UInt(UIntType::U64), TypeModel::UInt(UIntType::U64)]),
{
    lemma_good_uint(UIntType::U64);
    assert forall|i: int| 0 <= i < (seq![TypeModel::UInt(UIntType::U64), TypeModel::UInt(UIntType::U64), TypeModel::UInt(UIntType::U64), TypeModel::UInt(UIntType::U64)]).len() implies good((seq![TypeModel::UInt(UIntType::U64), TypeModel::UInt(UIntType::U64), TypeModel::UInt(UIntType::U64), TypeModel::UInt(UIntType::U64)])[i]) by {}
}

proof fn lemma_source_71()
    ensures
        all_good(seq![TypeModel::UInt(UIntType::U16), TypeModel::UInt(UIntType::U16), TypeModel::UInt(UIntType::U16)]),
{
    lemma_good_uint(UIntType::U16);
    assert forall|i: int| 0 <= i < (seq![TypeModel::UInt(UIntType::U16), TypeModel::UInt(UIntType::U16), TypeModel::UInt(UIntType::U16)]).len() implies good((seq![TypeModel::UInt(UIntType::U16), TypeModel::UInt(UIntType::U16), TypeModel::UInt(UIntType::U16)])[i]) by {}
}

proof fn lemma_source_72()
    ensures
        all_good(seq![TypeModel::UInt(UIntType::U32), TypeModel::UInt(UIntType::U32), TypeModel::UInt(UIntType::U32)]),
{
    lemma_good_uint(UIntType::U32);
    assert forall|i: int| 0 <= i < (seq![TypeModel::UInt(UIntType::U32), TypeModel::UInt(UIntType::U32), TypeModel::UInt(UIntType::U32)]).len() implies good((seq![TypeModel::UInt(UIntType::U32), TypeModel::UInt(UIntType::U32), TypeModel::UInt(UIntType::U32)])[i]) by {}
}

proof fn lemma_source_73()
    ensures
        all_good(seq![TypeModel::UInt(UIntType::U64), TypeModel::UInt(UIntType::U64), TypeModel::UInt(UIntType::U64)]),
{
    lemma_good_uint(UIntType::U64);
    assert forall|i: int| 0 <= i < (seq![TypeModel::UInt(UIntType::U64), TypeModel::UInt(UIntType::U64), TypeModel::UInt(UIntType::U64)]).len() implies good((seq![TypeModel::UInt(UIntType::U64), TypeModel::UInt(UIntType::U64), TypeModel::UInt(UIntType::U64)])[i]) by {}
}

proof fn lemma_source_74()
    ensures
        all_good(seq![TypeModel::UInt(UIntType::U256), TypeModel::UInt(UIntType::U256), TypeModel::UInt(UIntType::U256)]),
{
    lemma_good_uint(UIntType::U256);
    assert forall|i: int| 0 <= i < (seq![TypeModel::UInt(UIntType::U256), TypeModel::UInt(UIntType::U256), TypeModel::UInt(UIntType::U256)]).len() implies good((seq![TypeModel::UInt(UIntType::U256), TypeModel::UInt(UIntType::U256), TypeModel::UInt(UIntType::U256)])[i]) by {}
}

proof fn lemma_source_75()
    ensures
        all_good(seq![TypeModel::Builtin(BuiltinAlias::Ctx8), TypeModel::UInt(UIntType::U8)]),
{
    lemma_good_builtin(BuiltinAlias::Ctx8);
    lemma_good_uint(UIntType::U8);
    assert forall|i: int| 0 <= i < (seq![TypeModel::Builtin(BuiltinAlias::Ctx8), TypeModel::UInt(UIntType::U8)]).len() implies good((seq![TypeModel::Builtin(BuiltinAlias::Ctx8), TypeModel::UInt(UIntType::U8)])[i]) by {}
}

proof fn lemma_source_76()
    ensures
        all_good(seq![TypeModel::Builtin(BuiltinAlias::Ctx8), TypeModel::UInt(UIntType::U16)]),
{
    lemma_good_builtin(BuiltinAlias::Ctx8);
    lemma_good_uint(UIntType::U16);
    assert forall|i: int| 0 <= i < (seq![TypeModel::Builtin(BuiltinAlias::Ctx8), TypeModel::UInt(UIntType::U16)]).len() implies good((seq![TypeModel::Builtin(BuiltinAlias::Ctx8), TypeModel::UInt(UIntType::U16)])[i]) by {}
}

proof fn lemma_source_77()
    ensures
        all_good(seq![TypeModel::Builtin(BuiltinAlias::Ctx8), TypeModel::UInt(UIntType::U32)]),
{
    lemma_good_builtin(BuiltinAlias::Ctx8);
    lemma_good_uint(UIntType::U32);
    assert forall|i: int| 0 <= i < (seq![TypeModel::Builtin(BuiltinAlias::Ctx8), TypeModel::UInt(UIntType::U32)]).len() implies good((seq![TypeModel::Builtin(BuiltinAlias::Ctx8), TypeModel::UInt(UIntType::U32)])[i]) by {}
}

proof fn lemma_source_78()
    ensures
        all_good(seq![TypeModel::Builtin(BuiltinAlias::Ctx8), TypeModel::UInt(UIntType::U64)]),
{
    lemma_good_builtin(BuiltinAlias::Ctx8);
    lemma_good_uint(UIntType::U64);
    assert forall|i: int| 0 <= i < (seq![TypeModel::Builtin(BuiltinAlias::Ctx8), TypeModel::UInt(UIntType::U64)]).len() implies good((seq![TypeModel::Builtin(BuiltinAlias::Ctx8), TypeModel::UInt(UIntType::U64)])[i]) by {}
}

proof fn lemma_source_79()
    ensures
        all_good(seq![TypeModel::Builtin(BuiltinAlias::Ctx8), TypeModel::UInt(UIntType::U128)]),
{
    lemma_good_builtin(BuiltinAlias::Ctx8);
    lemma_good_uint(UIntType::U128);
    assert forall|i: int| 0 <= i < (seq![TypeModel::Builtin(BuiltinAlias::Ctx8), TypeModel::UInt(UIntType::U128)]).len() implies good((seq![TypeModel::Builtin(BuiltinAlias::Ctx8), TypeModel::UInt(UIntType::U128)])[i]) by {}
}

proof fn lemma_source_80()
    ensures
        all_good(seq![TypeModel::Builtin(BuiltinAlias::Ctx8), TypeModel::UInt(UIntType::U256)]),
{
    lemma_good_builtin(BuiltinAlias::Ctx8);
    lemma_good_uint(UIntType::U256);
    assert forall|i: int| 0 <= i < (seq![TypeModel::Builtin(BuiltinAlias::Ctx8), TypeModel::UInt(UIntType::U256)]).len() implies good((seq![TypeModel::Builtin(BuiltinAlias::Ctx8), TypeModel::UInt(UIntType::U256)])[i]) by {}
}

proof fn lemma_source_81()
    ensures
        all_good(seq![TypeModel::Builtin(BuiltinAlias::Ctx8), model_array(TypeModel::UInt(UIntType::U8), 64)]),
{
    lemma_good_builtin(BuiltinAlias::Ctx8);
    lemma_good_uint(UIntType::U8);
    lemma_good_array(TypeModel::UInt(UIntType::U8), 64);
    assert forall|i: int| 0 <= i < (seq![TypeModel::Builtin(BuiltinAlias::Ctx8), model_array(TypeModel::UInt(UIntType::U8), 64)]).len() implies good((seq![TypeModel::Builtin(BuiltinAlias::Ctx8), model_array(TypeModel::UInt(UIntType::U8), 64)])[i]) by {}
}

proof fn lemma_source_82()
    ensures
        all_good(seq![TypeModel::Builtin(BuiltinAlias::Ctx8), model_array(TypeModel::UInt(UIntType::U8), 128)]),
{
    lemma_good_builtin(BuiltinAlias::Ctx8);
    lemma_good_uint(UIntType::U8);
    lemma_good_array(TypeModel::UInt(UIntType::U8), 128);
    assert forall|i: int| 0 <= i < (seq![TypeModel::Builtin(BuiltinAlias::Ctx8), model_array(TypeModel::UInt(UIntType::U8), 128)]).len() implies good((seq![TypeModel::Builtin(BuiltinAlias::Ctx8), model_array(TypeModel::UInt(UIntType::U8), 128)])[i]) by {}
}

proof fn lemma_source_83()
    ensures
        all_good(seq![TypeModel::Builtin(BuiltinAlias::Ctx8), model_array(TypeModel::UInt(UIntType::U8), 256)]),
{
    lemma_good_builtin(BuiltinAlias::Ctx8);
    lemma_good_uint(UIntType::U8);
    lemma_good_array(TypeModel::UInt(UIntType::U8), 256);
    assert forall|i: int| 0 <= i < (seq![TypeModel::Builtin(BuiltinAlias::Ctx8), model_array(TypeModel::UInt(UIntType::U8), 256)]).len() implies good((seq![TypeModel::Builtin(BuiltinAlias::Ctx8), model_array(TypeModel::UInt(UIntType::U8), 256)])[i]) by {}
}

proof fn lemma_source_84()
    ensures
        all_good(seq![TypeModel::Builtin(BuiltinAlias::Ctx8), model_array(TypeModel::UInt(UIntType::U8), 512)]),
{
    lemma_good_builtin(BuiltinAlias::Ctx8);
    lemma_good_uint(UIntType::U8);
    lemma_good_array(TypeModel::UInt(UIntType::U8), 512);
    assert forall|i: int| 0 <= i < (seq![TypeModel::Builtin(BuiltinAlias::Ctx8), model_array(TypeModel::UInt(UIntType::U8), 512)]).len() implies good((seq![TypeModel::Builtin(BuiltinAlias::Ctx8), model_array(TypeModel::UInt(UIntType::U8), 512)])[i]) by {}
}

proof fn lemma_source_85()
    ensures
        all_good(seq![TypeModel::Builtin(BuiltinAlias::Ctx8), model_list(TypeModel::UInt(UIntType::U8), 512)]),
{
    reveal_with_fuel(is_list_bound, 10);
    lemma_good_builtin(BuiltinAlias::Ctx8);
    lemma_good_uint(UIntType::U8);
    lemma_good_list(TypeModel::UInt(UIntType::U8), 512);
    assert forall|i: int| 0 <= i < (seq![TypeModel::Builtin(BuiltinAlias::Ctx8), model_list(TypeModel::UInt(UIntType::U8), 512)]).len() implies good((seq![TypeModel::Builtin(BuiltinAlias::Ctx8), model_list(TypeModel::UInt(UIntType::U8), 512)])[i]) by {}
}

proof fn lemma_source_86()
    ensures
        all_good(seq![TypeModel::Builtin(BuiltinAlias::Ctx8)]),
{
    lemma_good_builtin(BuiltinAlias::Ctx8);
    assert forall|i: int| 0 <= i < (seq![TypeModel::Builtin(BuiltinAlias::Ctx8)]).len() implies good((seq![TypeModel::Builtin(BuiltinAlias::Ctx8)])[i]) by {}
}

proof fn lemma_source_87()
    ensures
        all_good(seq![TypeModel::Tuple(seq![TypeModel::Tuple(seq![TypeModel::Builtin(BuiltinAlias::Scalar), TypeModel::Builtin(BuiltinAlias::Point)]), TypeModel::Builtin(BuiltinAlias::Scalar)]), TypeModel::Builtin(BuiltinAlias::Point)]),
{
    lemma_good_builtin(BuiltinAlias::Scalar);
    lemma_good_builtin(BuiltinAlias::Point);
    lemma_good_tuple(seq![TypeModel::Builtin(BuiltinAlias::Scalar), TypeModel::Builtin(BuiltinAlias::Point)]);
    lemma_good_tuple(seq![TypeModel::Tuple(seq![TypeModel::Builtin(BuiltinAlias::Scalar), TypeModel::Builtin(BuiltinAlias::Point)]), TypeModel::Builtin(BuiltinAlias::Scalar)]);
    assert forall|i: int| 0 <= i < (seq![TypeModel::Tuple(seq![TypeModel::Tuple(seq![TypeModel::Builtin(BuiltinAlias::Scalar), TypeModel::Builtin(BuiltinAlias::Point)]), TypeModel::Builtin(BuiltinAlias::Scalar)]), TypeModel::Builtin(BuiltinAlias::Point)]).len() implies good((seq![TypeModel::Tuple(seq![TypeModel::Tuple(seq![TypeModel::Builtin(BuiltinAlias::Scalar), TypeModel::Builtin(BuiltinAlias::Point)]), TypeModel::Builtin(BuiltinAlias::Scalar)]), TypeModel::Builtin(BuiltinAlias::Point)])[i]) by {}
}

proof fn lemma_source_88()
    ensures
        all_good(seq![TypeModel::Builtin(BuiltinAlias::Point)]),
{
    lemma_good_builtin(BuiltinAlias::Point);
    assert forall|i: int| 0 <= i < (seq![TypeModel::Builtin(BuiltinAlias::Point)]).len() implies good((seq![TypeModel::Builtin(BuiltinAlias::Point)])[i]) by {}
}

proof fn lemma_source_89()
    ensures
        all_good(seq![TypeModel::Tuple(seq![TypeModel::Tuple(seq![TypeModel::Builtin(BuiltinAlias::Scalar), TypeModel::Builtin(BuiltinAlias::Ge)]), TypeModel::Builtin(BuiltinAlias::Scalar)]), TypeModel::Builtin(BuiltinAlias::Ge)]),
{
    lemma_good_builtin(BuiltinAlias::Scalar);
    lemma_good_builtin(BuiltinAlias::Ge);
    lemma_good_tuple(seq![TypeModel::Builtin(BuiltinAlias::Scalar), TypeModel::Builtin(BuiltinAlias::Ge)]);
    lemma_good_tuple(seq![TypeModel::Tuple(seq![TypeModel::Builtin(BuiltinAlias::Scalar), TypeModel::Builtin(BuiltinAlias::Ge)]), TypeModel::Builtin(BuiltinAlias::Scalar)]);
    assert forall|i: int| 0 <= i < (seq![TypeModel::Tuple(seq![TypeModel::Tuple(seq![TypeModel::Builtin(BuiltinAlias::Scalar), TypeModel::Builtin(BuiltinAlias::Ge)]), TypeModel::Builtin(BuiltinAlias::Scalar)]), TypeModel::Builtin(BuiltinAlias::Ge)]).len() implies good((seq![TypeModel::Tuple(seq![TypeModel::Tuple(seq![TypeModel::Builtin(BuiltinAlias::Scalar), TypeModel::Builtin(BuiltinAlias::Ge)]), TypeModel::Builtin(BuiltinAlias::Scalar)]), TypeModel::Builtin(BuiltinAlias::Ge)])[i]) by {}
}

proof fn lemma_source_90()
    ensures
        all_good(seq![TypeModel::Tuple(seq![TypeModel::Builtin(BuiltinAlias::Scalar), TypeModel::Builtin(BuiltinAlias::Gej)]), TypeModel::Builtin(BuiltinAlias::Scalar)]),
{
    lemma_good_builtin(BuiltinAlias::Scalar);
    lemma_good_builtin(BuiltinAlias::Gej);
    lemma_good_tuple(seq![TypeModel::Builtin(BuiltinAlias::Scalar), TypeModel::Builtin(BuiltinAlias::Gej)]);
    assert forall|i: int| 0 <= i < (seq![TypeModel::Tuple(seq![TypeModel::Builtin(BuiltinAlias::Scalar), TypeModel::Builtin(BuiltinAlias::Gej)]), TypeModel::Builtin(BuiltinAlias::Scalar)]).len() implies good((seq![TypeModel::Tuple(seq![TypeModel::Builtin(BuiltinAlias::Scalar), TypeModel::Builtin(BuiltinAlias::Gej)]), TypeModel::Builtin(BuiltinAlias::Scalar)])[i]) by {}
}

proof fn lemma_source_91()
    ensures
        all_good(seq![TypeModel::Builtin(BuiltinAlias::Scalar), TypeModel::Builtin(BuiltinAlias::Gej)]),
{
    lemma_good_builtin(BuiltinAlias::Scalar);
    lemma_good_builtin(BuiltinAlias::Gej);
    assert forall|i: int| 0 <= i < (seq![TypeModel::Builtin(BuiltinAlias::Scalar), TypeModel::Builtin(BuiltinAlias::Gej)]).len() implies good((seq![TypeModel::Builtin(BuiltinAlias::Scalar), TypeModel::Builtin(BuiltinAlias::Gej)])[i]) by {}
}

proof fn lemma_source_92()
    ensures
        all_good(seq![TypeModel::Builtin(BuiltinAlias::Scalar)]),
{
    lemma_good_builtin(BuiltinAlias::Scalar);
    assert forall|i: int| 0 <= i < (seq![TypeModel::Builtin(BuiltinAlias::Scalar)]).len() implies good((seq![TypeModel::Builtin(BuiltinAlias::Scalar)])[i]) by {}
}

proof fn lemma_source_93()
    ensures
        all_good(seq![TypeModel::Builtin(BuiltinAlias::Gej)]),
{
    lemma_good_builtin(BuiltinAlias::Gej);
    assert forall|i: int| 0 <= i < (seq![TypeModel::Builtin(BuiltinAlias::Gej)]).len() implies good((seq![TypeModel::Builtin(BuiltinAlias::Gej)])[i]) by {}
}

proof fn lemma_source_94()
    ensures
        all_good(seq![TypeModel::Builtin(BuiltinAlias::Ge)]),
{
    lemma_good_builtin(BuiltinAlias::Ge);
    assert forall|i: int| 0 <= i < (seq![TypeModel::Builtin(BuiltinAlias::Ge)]).len() implies good((seq![TypeModel::Builtin(BuiltinAlias::Ge)])[i]) by {}
}

proof fn lemma_source_95()
    ensures
        all_good(seq![TypeModel::Builtin(BuiltinAlias::Gej), TypeModel::Builtin(BuiltinAlias::Gej)]),
{
    lemma_good_builtin(BuiltinAlias::Gej);
    assert forall|i: int| 0 <= i < (seq![TypeModel::Builtin(BuiltinAlias::Gej), TypeModel::Builtin(BuiltinAlias::Gej)]).len() implies good((seq![TypeModel::Builtin(BuiltinAlias::Gej), TypeModel::Builtin(BuiltinAlias::Gej)])[i]) by {}
}

proof fn lemma_source_96()
    ensures
        all_good(seq![TypeModel::Builtin(BuiltinAlias::Gej), TypeModel::Builtin(BuiltinAlias::Ge)]),
{
    lemma_good_builtin(BuiltinAlias::Gej);
    lemma_good_builtin(BuiltinAlias::Ge);
    assert forall|i: int| 0 <= i < (seq![TypeModel::Builtin(BuiltinAlias::Gej), TypeModel::Builtin(BuiltinAlias::Ge)]).len() implies good((seq![TypeModel::Builtin(BuiltinAlias::Gej), TypeModel::Builtin(BuiltinAlias::Ge)])[i]) by {}
}

proof fn lemma_source_97()
    ensures
        all_good(seq![TypeModel::Builtin(BuiltinAlias::Gej), TypeModel::Builtin(BuiltinAlias::Fe)]),
{
    lemma_good_builtin(BuiltinAlias::Gej);
    lemma_good_builtin(BuiltinAlias::Fe);
    assert forall|i: int| 0 <= i < (seq![TypeModel::Builtin(BuiltinAlias::Gej), TypeModel::Builtin(BuiltinAlias::Fe)]).len() implies good((seq![TypeModel::Builtin(BuiltinAlias::Gej), TypeModel::Builtin(BuiltinAlias::Fe)])[i]) by {}
}

proof fn lemma_source_98()
    ensures
        all_good(seq![TypeModel::Builtin(BuiltinAlias::Fe), TypeModel::Builtin(BuiltinAlias::Gej)]),
{
    lemma_good_builtin(BuiltinAlias::Fe);
    lemma_good_builtin(BuiltinAlias::Gej);
    assert forall|i: int| 0 <= i < (seq![TypeModel::Builtin(BuiltinAlias::Fe), TypeModel::Builtin(BuiltinAlias::Gej)]).len() implies good((seq![TypeModel::Builtin(BuiltinAlias::Fe), TypeModel::Builtin(BuiltinAlias::Gej)])[i]) by {}
}

proof fn lemma_source_99()
    ensures
        all_good(seq![TypeModel::Builtin(BuiltinAlias::Scalar), TypeModel::Builtin(BuiltinAlias::Scalar)]),
{
    lemma_good_builtin(BuiltinAlias::Scalar);
    assert forall|i: int| 0 <= i < (seq![TypeModel::Builtin(BuiltinAlias::Scalar), TypeModel::Builtin(BuiltinAlias::Scalar)]).len() implies good((seq![TypeModel::Builtin(BuiltinAlias::Scalar), TypeModel::Builtin(BuiltinAlias::Scalar)])[i]) by {}
}

proof fn lemma_source_100()
    ensures
        all_good(seq![TypeModel::Builtin(BuiltinAlias::Fe)]),
{
    lemma_good_builtin(BuiltinAlias::Fe);
    assert forall|i: int| 0 <= i < (seq![TypeModel::Builtin(BuiltinAlias::Fe)]).len() implies good((seq![TypeModel::Builtin(BuiltinAlias::Fe)])[i]) by {}
}

proof fn lemma_source_101()
    ensures
        all_good(seq![TypeModel::Builtin(BuiltinAlias::Fe), TypeModel::Builtin(BuiltinAlias::Fe)]),
{
    lemma_good_builtin(BuiltinAlias::Fe);
    assert forall|i: int| 0 <= i < (seq![TypeModel::Builtin(BuiltinAlias::Fe), TypeModel::Builtin(BuiltinAlias::Fe)]).len() implies good((seq![TypeModel::Builtin(BuiltinAlias::Fe), TypeModel::Builtin(BuiltinAlias::Fe)])[i]) by {}
}

proof fn lemma_source_102()
    ensures
        all_good(seq![TypeModel::UInt(UIntType::U256)]),
{
    lemma_good_uint(UIntType::U256);
    assert forall|i: int| 0 <= i < (seq![TypeModel::UInt(UIntType::U256)]).len() implies good((seq![TypeModel::UInt(UIntType::U256)])[i]) by {}
}

proof fn lemma_source_103()
    ensures
        all_good(seq![TypeModel::Tuple(seq![TypeModel::Builtin(BuiltinAlias::Pubkey), TypeModel::Builtin(BuiltinAlias::Message64)]), TypeModel::Builtin(BuiltinAlias::Signature)]),
{
    lemma_good_builtin(BuiltinAlias::Pubkey);
    lemma_good_builtin(BuiltinAlias::Message64);
    lemma_good_tuple(seq![TypeModel::Builtin(BuiltinAlias::Pubkey), TypeModel::Builtin(BuiltinAlias::Message64)]);
    lemma_good_builtin(BuiltinAlias::Signature);
    assert forall|i: int| 0 <= i < (seq![TypeModel::Tuple(seq![TypeModel::Builtin(BuiltinAlias::Pubkey), TypeModel::Builtin(BuiltinAlias::Message64)]), TypeModel::Builtin(BuiltinAlias::Signature)]).len() implies good((seq![TypeModel::Tuple(seq![TypeModel::Builtin(BuiltinAlias::Pubkey), TypeModel::Builtin(BuiltinAlias::Message64)]), TypeModel::Builtin(BuiltinAlias::Signature)])[i]) by {}
}

proof fn lemma_source_104()
    ensures
        all_good(seq![TypeModel::Tuple(seq![TypeModel::Builtin(BuiltinAlias::Pubkey), TypeModel::Builtin(BuiltinAlias::Message)]), TypeModel::Builtin(BuiltinAlias::Signature)]),
{
    lemma_good_builtin(BuiltinAlias::Pubkey);
    lemma_good_builtin(BuiltinAlias::Message);
    lemma_good_tuple(seq![TypeModel::Builtin(BuiltinAlias::Pubkey), TypeModel::Builtin(BuiltinAlias::Message)]);
    lemma_good_builtin(BuiltinAlias::Signature);
    assert forall|i: int| 0 <= i < (seq![TypeModel::Tuple(seq![TypeModel::Builtin(BuiltinAlias::Pubkey), TypeModel::Builtin(BuiltinAlias::Message)]), TypeModel::Builtin(BuiltinAlias::Signature)]).len() implies good((seq![TypeModel::Tuple(seq![TypeModel::Builtin(BuiltinAlias::Pubkey), TypeModel::Builtin(BuiltinAlias::Message)]), TypeModel::Builtin(BuiltinAlias::Signature)])[i]) by {}
}

proof fn lemma_target_0()
    ensures
        good(TypeModel::Tuple(Seq::<TypeModel>::empty())),
{
    lemma_good_tuple(Seq::<TypeModel>::empty());
}

proof fn lemma_target_1()
    ensures
        good(TypeModel::Boolean),
{
    lemma_good_bool();
}

proof fn lemma_target_2()
    ensures
        good(TypeModel::UInt(UIntType::U1)),
{
    lemma_good_uint(UIntType::U1);
}

proof fn lemma_target_3()
    ensures
        good(TypeModel::UInt(UIntType::U2)),
{
    lemma_good_uint(UIntType::U2);
}

proof fn lemma_target_4()
    ensures
        good(TypeModel::UInt(UIntType::U4)),
{
    lemma_good_uint(UIntType::U4);
}

proof fn lemma_target_5()
    ensures
        good(TypeModel::UInt(UIntType::U8)),
{
    lemma_good_uint(UIntType::U8);
}

proof fn lemma_target_6()
    ensures
        good(TypeModel::UInt(UIntType::U16)),
{
    lemma_good_uint(UIntType::U16);
}

proof fn lemma_target_7()
    ensures
        good(TypeModel::UInt(UIntType::U32)),
{
    lemma_good_uint(UIntType::U32);
}

proof fn lemma_target_8()
    ensures
        good(TypeModel::UInt(UIntType::U64)),
{
    lemma_good_uint(UIntType::U64);
}

proof fn lemma_target_9()
    ensures
        good(TypeModel::Tuple(seq![TypeModel::UInt(UIntType::U1), TypeModel::UInt(UIntType::U8)])),
{
    lemma_good_uint(UIntType::U1);
    lemma_good_uint(UIntType::U8);
    lemma_good_tuple(seq![TypeModel::UInt(UIntType::U1), TypeModel::UInt(UIntType::U8)]);
}

proof fn lemma_target_10()
    ensures
        good(TypeModel::Tuple(seq![TypeModel::UInt(UIntType::U2), TypeModel::UInt(UIntType::U8)])),
{
    lemma_good_uint(UIntType::U2);
    lemma_good_uint(UIntType::U8);
    lemma_good_tuple(seq![TypeModel::UInt(UIntType::U2), TypeModel::UInt(UIntType::U8)]);
}

proof fn lemma_target_11()
    ensures
        good(TypeModel::Tuple(seq![TypeModel::UInt(UIntType::U4), TypeModel::UInt(UIntType::U8)])),
{
    lemma_good_uint(UIntType::U4);
    lemma_good_uint(UIntType::U8);
    lemma_good_tuple(seq![TypeModel::UInt(UIntType::U4), TypeModel::UInt(UIntType::U8)]);
}

proof fn lemma_target_12()
    ensures
        good(TypeModel::Tuple(seq![TypeModel::UInt(UIntType::U1), TypeModel::UInt(UIntType::U16)])),
{
    lemma_good_uint(UIntType::U1);
    lemma_good_uint(UIntType::U16);
    lemma_good_tuple(seq![TypeModel::UInt(UIntType::U1), TypeModel::UInt(UIntType::U16)]);
}

proof fn lemma_target_13()
    ensures
        good(TypeModel::Tuple(seq![TypeModel::UInt(UIntType::U2), TypeModel::UInt(UIntType::U16)])),
{
    lemma_good_uint(UIntType::U2);
    lemma_good_uint(UIntType::U16);
    lemma_good_tuple(seq![TypeModel::UInt(UIntType::U2), TypeModel::UInt(UIntType::U16)]);
}

proof fn lemma_target_14()
    ensures
        good(TypeModel::Tuple(seq![TypeModel::UInt(UIntType::U4), TypeModel::UInt(UIntType::U16)])),
{
    lemma_good_uint(UIntType::U4);
    lemma_good_uint(UIntType::U16);
    lemma_good_tuple(seq![TypeModel::UInt(UIntType::U4), TypeModel::UInt(UIntType::U16)]);
}

proof fn lemma_target_15()
    ensures
        good(TypeModel::Tuple(seq![TypeModel::UInt(UIntType::U8), TypeModel::UInt(UIntType::U16)])),
{
    lemma_good_uint(UIntType::U8);
    lemma_good_uint(UIntType::U16);
    lemma_good_tuple(seq![TypeModel::UInt(UIntType::U8), TypeModel::UInt(UIntType::U16)]);
}

proof fn lemma_target_16()
    ensures
        good(TypeModel::Tuple(seq![TypeModel::UInt(UIntType::U1), TypeModel::UInt(UIntType::U32)])),
{
    lemma_good_uint(UIntType::U1);
    lemma_good_uint(UIntType::U32);
    lemma_good_tuple(seq![TypeModel::UInt(UIntType::U1), TypeModel::UInt(UIntType::U32)]);
}

proof fn lemma_target_17()
    ensures
        good(TypeModel::Tuple(seq![TypeModel::UInt(UIntType::U2), TypeModel::UInt(UIntType::U32)])),
{
    lemma_good_uint(UIntType::U2);
    lemma_good_uint(UIntType::U32);
    lemma_good_tuple(seq![TypeModel::UInt(UIntType::U2), TypeModel::UInt(UIntType::U32)]);
}

proof fn lemma_target_18()
    ensures
        good(TypeModel::Tuple(seq![TypeModel::UInt(UIntType::U4), TypeModel::UInt(UIntType::U32)])),
{
    lemma_good_uint(UIntType::U4);
    lemma_good_uint(UIntType::U32);
    lemma_good_tuple(seq![TypeModel::UInt(UIntType::U4), TypeModel::UInt(UIntType::U32)]);
}

proof fn lemma_target_19()
    ensures
        good(TypeModel::Tuple(seq![TypeModel::UInt(UIntType::U8), TypeModel::UInt(UIntType::U32)])),
{
    lemma_good_uint(UIntType::U8);
    lemma_good_uint(UIntType::U32);
    lemma_good_tuple(seq![TypeModel::UInt(UIntType::U8), TypeModel::UInt(UIntType::U32)]);
}

proof fn lemma_target_20()
    ensures
        good(TypeModel::Tuple(seq![TypeModel::UInt(UIntType::U16), TypeModel::UInt(UIntType::U32)])),
{
    lemma_good_uint(UIntType::U16);
    lemma_good_uint(UIntType::U32);
    lemma_good_tuple(seq![TypeModel::UInt(UIntType::U16), TypeModel::UInt(UIntType::U32)]);
}

proof fn lemma_target_21()
    ensures
        good(TypeModel::Tuple(seq![TypeModel::UInt(UIntType::U1), TypeModel::UInt(UIntType::U64)])),
{
    lemma_good_uint(UIntType::U1);
    lemma_good_uint(UIntType::U64);
    lemma_good_tuple(seq![TypeModel::UInt(UIntType::U1), TypeModel::UInt(UIntType::U64)]);
}

proof fn lemma_target_22()
    ensures
        good(TypeModel::Tuple(seq![TypeModel::UInt(UIntType::U2), TypeModel::UInt(UIntType::U64)])),
{
    lemma_good_uint(UIntType::U2);
    lemma_good_uint(UIntType::U64);
    lemma_good_tuple(seq![TypeModel::UInt(UIntType::U2), TypeModel::UInt(UIntType::U64)]);
}

proof fn lemma_target_23()
    ensures
        good(TypeModel::Tuple(seq![TypeModel::UInt(UIntType::U4), TypeModel::UInt(UIntType::U64)])),
{
    lemma_good_uint(UIntType::U4);
    lemma_good_uint(UIntType::U64);
    lemma_good_tuple(seq![TypeModel::UInt(UIntType::U4), TypeModel::UInt(UIntType::U64)]);
}

proof fn lemma_target_24()
    ensures
        good(TypeModel::Tuple(seq![TypeModel::UInt(UIntType::U8), TypeModel::UInt(UIntType::U64)])),
{
    lemma_good_uint(UIntType::U8);
    lemma_good_uint(UIntType::U64);
    lemma_good_tuple(seq![TypeModel::UInt(UIntType::U8), TypeModel::UInt(UIntType::U64)]);
}

proof fn lemma_target_25()
    ensures
        good(TypeModel::Tuple(seq![TypeModel::UInt(UIntType::U16), TypeModel::UInt(UIntType::U64)])),
{
    lemma_good_uint(UIntType::U16);
    lemma_good_uint(UIntType::U64);
    lemma_good_tuple(seq![TypeModel::UInt(UIntType::U16), TypeModel::UInt(UIntType::U64)]);
}

proof fn lemma_target_26()
    ensures
        good(TypeModel::Tuple(seq![TypeModel::UInt(UIntType::U32), TypeModel::UInt(UIntType::U64)])),
{
    lemma_good_uint(UIntType::U32);
    lemma_good_uint(UIntType::U64);
    lemma_good_tuple(seq![TypeModel::UInt(UIntType::U32), TypeModel::UInt(UIntType::U64)]);
}

proof fn lemma_target_27()
    ensures
        good(TypeModel::Tuple(seq![TypeModel::UInt(UIntType::U8), TypeModel::UInt(UIntType::U1)])),
{
    lemma_good_uint(UIntType::U8);
    lemma_good_uint(UIntType::U1);
    lemma_good_tuple(seq![TypeModel::UInt(UIntType::U8), TypeModel::UInt(UIntType::U1)]);
}

proof fn lemma_target_28()
    ensures
        good(TypeModel::Tuple(seq![TypeModel::UInt(UIntType::U8), TypeModel::UInt(UIntType::U2)])),
{
    lemma_good_uint(UIntType::U8);
    lemma_good_uint(UIntType::U2);
    lemma_good_tuple(seq![TypeModel::UInt(UIntType::U8), TypeModel::UInt(UIntType::U2)]);
}

proof fn lemma_target_29()
    ensures
        good(TypeModel::Tuple(seq![TypeModel::UInt(UIntType::U8), TypeModel::UInt(UIntType::U4)])),
{
    lemma_good_uint(UIntType::U8);
    lemma_good_uint(UIntType::U4);
    lemma_good_tuple(seq![TypeModel::UInt(UIntType::U8), TypeModel::UInt(UIntType::U4)]);
}

proof fn lemma_target_30()
    ensures
        good(TypeModel::Tuple(seq![TypeModel::UInt(UIntType::U16), TypeModel::UInt(UIntType::U1)])),
{
    lemma_good_uint(UIntType::U16);
    lemma_good_uint(UIntType::U1);
    lemma_good_tuple(seq![TypeModel::UInt(UIntType::U16), TypeModel::UInt(UIntType::U1)]);
}

proof fn lemma_target_31()
    ensures
        good(TypeModel::Tuple(seq![TypeModel::UInt(UIntType::U16), TypeModel::UInt(UIntType::U2)])),
{
    lemma_good_uint(UIntType::U16);
    lemma_good_uint(UIntType::U2);
    lemma_good_tuple(seq![TypeModel::UInt(UIntType::U16), TypeModel::UInt(UIntType::U2)]);
}

proof fn lemma_target_32()
    ensures
        good(TypeModel::Tuple(seq![TypeModel::UInt(UIntType::U16), TypeModel::UInt(UIntType::U4)])),
{
    lemma_good_uint(UIntType::U16);
    lemma_good_uint(UIntType::U4);
    lemma_good_tuple(seq![TypeModel::UInt(UIntType::U16), TypeModel::UInt(UIntType::U4)]);
}

proof fn lemma_target_33()
    ensures
        good(TypeModel::Tuple(seq![TypeModel::UInt(UIntType::U16), TypeModel::UInt(UIntType::U8)])),
{
    lemma_good_uint(UIntType::U16);
    lemma_good_uint(UIntType::U8);
    lemma_good_tuple(seq![TypeModel::UInt(UIntType::U16), TypeModel::UInt(UIntType::U8)]);
}

proof fn lemma_target_34()
    ensures
        good(TypeModel::Tuple(seq![TypeModel::UInt(UIntType::U32), TypeModel::UInt(UIntType::U1)])),
{
    lemma_good_uint(UIntType::U32);
    lemma_good_uint(UIntType::U1);
    lemma_good_tuple(seq![TypeModel::UInt(UIntType::U32), TypeModel::UInt(UIntType::U1)]);
}

proof fn lemma_target_35()
    ensures
        good(TypeModel::Tuple(seq![TypeModel::UInt(UIntType::U32), TypeModel::UInt(UIntType::U2)])),
{
    lemma_good_uint(UIntType::U32);
    lemma_good_uint(UIntType::U2);
    lemma_good_tuple(seq![TypeModel::UInt(UIntType::U32), TypeModel::UInt(UIntType::U2)]);
}

proof fn lemma_target_36()
    ensures
        good(TypeModel::Tuple(seq![TypeModel::UInt(UIntType::U32), TypeModel::UInt(UIntType::U4)])),
{
    lemma_good_uint(UIntType::U32);
    lemma_good_uint(UIntType::U4);
    lemma_good_tuple(seq![TypeModel::UInt(UIntType::U32), TypeModel::UInt(UIntType::U4)]);
}

proof fn lemma_target_37()
    ensures
        good(TypeModel::Tuple(seq![TypeModel::UInt(UIntType::U32), TypeModel::UInt(UIntType::U8)])),
{
    lemma_good_uint(UIntType::U32);
    lemma_good_uint(UIntType::U8);
    lemma_good_tuple(seq![TypeModel::UInt(UIntType::U32), TypeModel::UInt(UIntType::U8)]);
}

proof fn lemma_target_38()
    ensures
        good(TypeModel::Tuple(seq![TypeModel::UInt(UIntType::U32), TypeModel::UInt(UIntType::U16)])),
{
    lemma_good_uint(UIntType::U32);
    lemma_good_uint(UIntType::U16);
    lemma_good_tuple(seq![TypeModel::UInt(UIntType::U32), TypeModel::UInt(UIntType::U16)]);
}

proof fn lemma_target_39()
    ensures
        good(TypeModel::Tuple(seq![TypeModel::UInt(UIntType::U64), TypeModel::UInt(UIntType::U1)])),
{
    lemma_good_uint(UIntType::U64);
    lemma_good_uint(UIntType::U1);
    lemma_good_tuple(seq![TypeModel::UInt(UIntType::U64), TypeModel::UInt(UIntType::U1)]);
}

proof fn lemma_target_40()
    ensures
        good(TypeModel::Tuple(seq![TypeModel::UInt(UIntType::U64), TypeModel::UInt(UIntType::U2)])),
{
    lemma_good_uint(UIntType::U64);
    lemma_good_uint(UIntType::U2);
    lemma_good_tuple(seq![TypeModel::UInt(UIntType::U64), TypeModel::UInt(UIntType::U2)]);
}

proof fn lemma_target_41()
    ensures
        good(TypeModel::Tuple(seq![TypeModel::UInt(UIntType::U64), TypeModel::UInt(UIntType::U4)])),
{
    lemma_good_uint(UIntType::U64);
    lemma_good_uint(UIntType::U4);
    lemma_good_tuple(seq![TypeModel::UInt(UIntType::U64), TypeModel::UInt(UIntType::U4)]);
}

proof fn lemma_target_42()
    ensures
        good(TypeModel::Tuple(seq![TypeModel::UInt(UIntType::U64), TypeModel::UInt(UIntType::U8)])),
{
    lemma_good_uint(UIntType::U64);
    lemma_good_uint(UIntType::U8);
    lemma_good_tuple(seq![TypeModel::UInt(UIntType::U64), TypeModel::UInt(UIntType::U8)]);
}

proof fn lemma_target_43()
    ensures
        good(TypeModel::Tuple(seq![TypeModel::UInt(UIntType::U64), TypeModel::UInt(UIntType::U16)])),
{
    lemma_good_uint(UIntType::U64);
    lemma_good_uint(UIntType::U16);
    lemma_good_tuple(seq![TypeModel::UInt(UIntType::U64), TypeModel::UInt(UIntType::U16)]);
}

proof fn lemma_target_44()
    ensures
        good(TypeModel::Tuple(seq![TypeModel::UInt(UIntType::U64), TypeModel::UInt(UIntType::U32)])),
{
    lemma_good_uint(UIntType::U64);
    lemma_good_uint(UIntType::U32);
    lemma_good_tuple(seq![TypeModel::UInt(UIntType::U64), TypeModel::UInt(UIntType::U32)]);
}

proof fn lemma_target_45()
    ensures
        good(TypeModel::UInt(UIntType::U128)),
{
    lemma_good_uint(UIntType::U128);
}

proof fn lemma_target_46()
    ensures
        good(TypeModel::Tuple(seq![TypeModel::Boolean, TypeModel::UInt(UIntType::U8)])),
{
    lemma_good_bool();
    lemma_good_uint(UIntType::U8);
    lemma_good_tuple(seq![TypeModel::Boolean, TypeModel::UInt(UIntType::U8)]);
}

proof fn lemma_target_47()
    ensures
        good(TypeModel::Tuple(seq![TypeModel::Boolean, TypeModel::UInt(UIntType::U16)])),
{
    lemma_good_bool();
    lemma_good_uint(UIntType::U16);
    lemma_good_tuple(seq![TypeModel::Boolean, TypeModel::UInt(UIntType::U16)]);
}

proof fn lemma_target_48()
    ensures
        good(TypeModel::Tuple(seq![TypeModel::Boolean, TypeModel::UInt(UIntType::U32)])),
{
    lemma_good_bool();
    lemma_good_uint(UIntType::U32);
    lemma_good_tuple(seq![TypeModel::Boolean, TypeModel::UInt(UIntType::U32)]);
}

proof fn lemma_target_49()
    ensures
        good(TypeModel::Tuple(seq![TypeModel::Boolean, TypeModel::UInt(UIntType::U64)])),
{
    lemma_good_bool();
    lemma_good_uint(UIntType::U64);
    lemma_good_tuple(seq![TypeModel::Boolean, TypeModel::UInt(UIntType::U64)]);
}

proof fn lemma_target_50()
    ensures
        good(TypeModel::Tuple(seq![TypeModel::UInt(UIntType::U8), TypeModel::UInt(UIntType::U8)])),
{
    lemma_good_uint(UIntType::U8);
    lemma_good_tuple(seq![TypeModel::UInt(UIntType::U8), TypeModel::UInt(UIntType::U8)]);
}

proof fn lemma_target_51()
    ensures
        good(TypeModel::Tuple(seq![TypeModel::UInt(UIntType::U16), TypeModel::UInt(UIntType::U16)])),
{
    lemma_good_uint(UIntType::U16);
    lemma_good_tuple(seq![TypeModel::UInt(UIntType::U16), TypeModel::UInt(UIntType::U16)]);
}

proof fn lemma_target_52()
    ensures
        good(TypeModel::Tuple(seq![TypeModel::UInt(UIntType::U32), TypeModel::UInt(UIntType::U32)])),
{
    lemma_good_uint(UIntType::U32);
    lemma_good_tuple(seq![TypeModel::UInt(UIntType::U32), TypeModel::UInt(UIntType::U32)]);
}

proof fn lemma_target_53()
    ensures
        good(TypeModel::Tuple(seq![TypeModel::UInt(UIntType::U64), TypeModel::UInt(UIntType::U64)])),
{
    lemma_good_uint(UIntType::U64);
    lemma_good_tuple(seq![TypeModel::UInt(UIntType::U64), TypeModel::UInt(UIntType::U64)]);
}

proof fn lemma_target_54()
    ensures
        good(TypeModel::UInt(UIntType::U256)),
{
    lemma_good_uint(UIntType::U256);
}

proof fn lemma_target_55()
    ensures
        good(TypeModel::Builtin(BuiltinAlias::Ctx8)),
{
    lemma_good_builtin(BuiltinAlias::Ctx8);
}

proof fn lemma_target_56()
    ensures
        good(TypeModel::Builtin(BuiltinAlias::Ge)),
{
    lemma_good_builtin(BuiltinAlias::Ge);
}

proof fn lemma_target_57()
    ensures
        good(TypeModel::Option(Box::new(TypeModel::Builtin(BuiltinAlias::Ge)))),
{
    lemma_good_builtin(BuiltinAlias::Ge);
    lemma_good_option(TypeModel::Builtin(BuiltinAlias::Ge));
}

proof fn lemma_target_58()
    ensures
        good(TypeModel::Builtin(BuiltinAlias::Gej)),
{
    lemma_good_builtin(BuiltinAlias::Gej);
}

proof fn lemma_target_59()
    ensures
        good(TypeModel::Tuple(seq![TypeModel::Builtin(BuiltinAlias::Fe), TypeModel::Builtin(BuiltinAlias::Gej)])),
{
    lemma_good_builtin(BuiltinAlias::Fe);
    lemma_good_builtin(BuiltinAlias::Gej);
    lemma_good_tuple(seq![TypeModel::Builtin(BuiltinAlias::Fe), TypeModel::Builtin(BuiltinAlias::Gej)]);
}

proof fn lemma_target_60()
    ensures
        good(TypeModel::Builtin(BuiltinAlias::Scalar)),
{
    lemma_good_builtin(BuiltinAlias::Scalar);
}

proof fn lemma_target_61()
    ensures
        good(TypeModel::Builtin(BuiltinAlias::Fe)),
{
    lemma_good_builtin(BuiltinAlias::Fe);
}

proof fn lemma_target_62()
    ensures
        good(TypeModel::Option(Box::new(TypeModel::Builtin(BuiltinAlias::Fe)))),
{
    lemma_good_builtin(BuiltinAlias::Fe);
    lemma_good_option(TypeModel::Builtin(BuiltinAlias::Fe));
}

proof fn lemma_target_63()
    ensures
        good(model_either(TypeModel::Builtin(BuiltinAlias::Height), TypeModel::Builtin(BuiltinAlias::Time))),
{
    lemma_good_builtin(BuiltinAlias::Height);
    lemma_good_builtin(BuiltinAlias::Time);
    lemma_good_either(TypeModel::Builtin(BuiltinAlias::Height), TypeModel::Builtin(BuiltinAlias::Time));
}

proof fn lemma_target_64()
    ensures
        good(TypeModel::Option(Box::new(model_either(TypeModel::Builtin(BuiltinAlias::Distance), TypeModel::Builtin(BuiltinAlias::Duration))))),
{
    lemma_good_builtin(BuiltinAlias::Distance);
    lemma_good_builtin(BuiltinAlias::Duration);
    lemma_good_either(TypeModel::Builtin(BuiltinAlias::Distance), TypeModel::Builtin(BuiltinAlias::Duration));
    lemma_good_option(model_either(TypeModel::Builtin(BuiltinAlias::Distance), TypeModel::Builtin(BuiltinAlias::Duration)));
}

/// Every argument type and the output type of every Core jet is a valid type
/// without user-defined aliases, so it resolves to a structural type.
pub proof fn law_core_types_resolve(jet: Core)
    ensures
        forall|i: int|
            0 <= i < spec_source_type(jet).len() ==> first_alias(#[trigger] spec_source_type(jet)[i]) is None
                && valid_type(spec_source_type(jet)[i]),
        first_alias(spec_target_type(jet)) is None,
        valid_type(spec_target_type(jet)),
{
    match jet {
        Core::Low1 | Core::Low8 | Core::Low16 | Core::Low32 | Core::Low64 | Core::High1 | Core::High8 | Core::High16 | Core::High32 | Core::High64 | Core::One8 | Core::One16 | Core::One32 | Core::One64 | Core::Sha256Iv | Core::Sha256Ctx8Init | Core::GejInfinity | Core::TapdataInit => lemma_source_0(),
        Core::Verify => lemma_source_1(),
        Core::Complement1 | Core::Some1 | Core::LeftPadLow1_8 | Core::LeftPadLow1_16 | Core::LeftPadLow1_32 | Core::LeftPadLow1_64 | Core::LeftPadHigh1_8 | Core::LeftPadHigh1_16 | Core::LeftPadHigh1_32 | Core::LeftPadHigh1_64 | Core::LeftExtend1_8 | Core::LeftExtend1_16 | Core::LeftExtend1_32 | Core::LeftExtend1_64 | Core::RightPadLow1_8 | Core::RightPadLow1_16 | Core::RightPadLow1_32 | Core::RightPadLow1_64 | Core::RightPadHigh1_8 | Core::RightPadHigh1_16 | Core::RightPadHigh1_32 | Core::RightPadHigh1_64 => lemma_source_2(),
        Core::Complement8 | Core::Some8 | Core::All8 | Core::Leftmost8_1 | Core::Leftmost8_2 | Core::Leftmost8_4 | Core::Rightmost8_1 | Core::Rightmost8_2 | Core::Rightmost8_4 | Core::LeftPadLow8_16 | Core::LeftPadLow8_32 | Core::LeftPadLow8_64 | Core::LeftPadHigh8_16 | Core::LeftPadHigh8_32 | Core::LeftPadHigh8_64 | Core::LeftExtend8_16 | Core::LeftExtend8_32 | Core::LeftExtend8_64 | Core::RightPadLow8_16 | Core::RightPadLow8_32 | Core::RightPadLow8_64 | Core::RightPadHigh8_16 | Core::RightPadHigh8_32 | Core::RightPadHigh8_64 | Core::RightExtend8_16 | Core::RightExtend8_32 | Core::RightExtend8_64 | Core::Increment8 | Core::Negate8 | Core::Decrement8 | Core::IsZero8 | Core::IsOne8 => lemma_source_3(),
        Core::Complement16 | Core::Some16 | Core::All16 | Core::Leftmost16_1 | Core::Leftmost16_2 | Core::Leftmost16_4 | Core::Leftmost16_8 | Core::Rightmost16_1 | Core::Rightmost16_2 | Core::Rightmost16_4 | Core::Rightmost16_8 | Core::LeftPadLow16_32 | Core::LeftPadLow16_64 | Core::LeftPadHigh16_32 | Core::LeftPadHigh16_64 | Core::LeftExtend16_32 | Core::LeftExtend16_64 | Core::RightPadLow16_32 | Core::RightPadLow16_64 | Core::RightPadHigh16_32 | Core::RightPadHigh16_64 | Core::RightExtend16_32 | Core::RightExtend16_64 | Core::Increment16 | Core::Negate16 | Core::Decrement16 | Core::IsZero16 | Core::IsOne16 => lemma_source_4(),
        Core::Complement32 | Core::Some32 | Core::All32 | Core::Leftmost32_1 | Core::Leftmost32_2 | Core::Leftmost32_4 | Core::Leftmost32_8 | Core::Leftmost32_16 | Core::Rightmost32_1 | Core::Rightmost32_2 | Core::Rightmost32_4 | Core::Rightmost32_8 | Core::Rightmost32_16 | Core::LeftPadLow32_64 | Core::LeftPadHigh32_64 | Core::LeftExtend32_64 | Core::RightPadLow32_64 | Core::RightPadHigh32_64 | Core::RightExtend32_64 | Core::Increment32 | Core::Negate32 | Core::Decrement32 | Core::IsZero32 | Core::IsOne32 | Core::ParseLock | Core::ParseSequence => lemma_source_5(),
        Core::Complement64 | Core::Some64 | Core::All64 | Core::Leftmost64_1 | Core::Leftmost64_2 | Core::Leftmost64_4 | Core::Leftmost64_8 | Core::Leftmost64_16 | Core::Leftmost64_32 | Core::Rightmost64_1 | Core::Rightmost64_2 | Core::Rightmost64_4 | Core::Rightmost64_8 | Core::Rightmost64_16 | Core::Rightmost64_32 | Core::Increment64 | Core::Negate64 | Core::Decrement64 | Core::IsZero64 | Core::IsOne64 => lemma_source_6(),
        Core::And1 | Core::Or1 | Core::Xor1 | Core::Eq1 => lemma_source_7(),
        Core::And8 | Core::Or8 | Core::Xor8 | Core::Eq8 | Core::Add8 | Core::Subtract8 | Core::Multiply8 | Core::Le8 | Core::Lt8 | Core::Min8 | Core::Max8 | Core::DivMod8 | Core::Divide8 | Core::Modulo8 | Core::Divides8 => lemma_source_8(),
        Core::And16 | Core::Or16 | Core::Xor16 | Core::Eq16 | Core::Add16 | Core::Subtract16 | Core::Multiply16 | Core::Le16 | Core::Lt16 | Core::Min16 | Core::Max16 | Core::DivMod16 | Core::Divide16 | Core::Modulo16 | Core::Divides16 => lemma_source_9(),
        Core::And32 | Core::Or32 | Core::Xor32 | Core::Eq32 | Core::Add32 | Core::Subtract32 | Core::Multiply32 | Core::Le32 | Core::Lt32 | Core::Min32 | Core::Max32 | Core::DivMod32 | Core::Divide32 | Core::Modulo32 | Core::Divides32 => lemma_source_10(),
        Core::And64 | Core::Or64 | Core::Xor64 | Core::Eq64 | Core::Add64 | Core::Subtract64 | Core::Multiply64 | Core::Le64 | Core::Lt64 | Core::Min64 | Core::Max64 | Core::DivMod64 | Core::Divide64 | Core::Modulo64 | Core::Divides64 => lemma_source_11(),
        Core::Eq256 => lemma_source_12(),
        Core::Maj1 | Core::XorXor1 | Core::Ch1 => lemma_source_13(),
        Core::Maj8 | Core::XorXor8 | Core::Ch8 | Core::Median8 => lemma_source_14(),
        Core::Maj16 | Core::XorXor16 | Core::Ch16 => lemma_source_15(),
        Core::Maj32 | Core::XorXor32 | Core::Ch32 => lemma_source_16(),
        Core::Maj64 | Core::XorXor64 | Core::Ch64 => lemma_source_17(),
        Core::FullLeftShift8_1 => lemma_source_18(),
        Core::FullLeftShift8_2 => lemma_source_19(),
        Core::FullLeftShift8_4 => lemma_source_20(),
        Core::FullLeftShift16_1 => lemma_source_21(),
        Core::FullLeftShift16_2 => lemma_source_22(),
        Core::FullLeftShift16_4 => lemma_source_23(),
        Core::FullLeftShift16_8 => lemma_source_24(),
        Core::FullLeftShift32_1 => lemma_source_25(),
        Core::FullLeftShift32_2 => lemma_source_26(),
        Core::FullLeftShift32_4 => lemma_source_27(),
        Core::FullLeftShift32_8 => lemma_source_28(),
        Core::FullLeftShift32_16 => lemma_source_29(),
        Core::FullLeftShift64_1 => lemma_source_30(),
        Core::FullLeftShift64_2 => lemma_source_31(),
        Core::FullLeftShift64_4 => lemma_source_32(),
        Core::FullLeftShift64_8 => lemma_source_33(),
        Core::FullLeftShift64_16 => lemma_source_34(),
        Core::FullLeftShift64_32 => lemma_source_35(),
        Core::FullRightShift8_1 => lemma_source_36(),
        Core::FullRightShift8_2 => lemma_source_37(),
        Core::FullRightShift8_4 | Core::LeftShift8 | Core::RightShift8 | Core::LeftRotate8 | Core::RightRotate8 => lemma_source_38(),
        Core::FullRightShift16_1 => lemma_source_39(),
        Core::FullRightShift16_2 => lemma_source_40(),
        Core::FullRightShift16_4 | Core::LeftShift16 | Core::RightShift16 | Core::LeftRotate16 | Core::RightRotate16 => lemma_source_41(),
        Core::FullRightShift16_8 => lemma_source_42(),
        Core::FullRightShift32_1 => lemma_source_43(),
        Core::FullRightShift32_2 => lemma_source_44(),
        Core::FullRightShift32_4 => lemma_source_45(),
        Core::FullRightShift32_8 | Core::LeftShift32 | Core::RightShift32 | Core::LeftRotate32 | Core::RightRotate32 => lemma_source_46(),
        Core::FullRightShift32_16 => lemma_source_47(),
        Core::FullRightShift64_1 => lemma_source_48(),
        Core::FullRightShift64_2 => lemma_source_49(),
        Core::FullRightShift64_4 => lemma_source_50(),
        Core::FullRightShift64_8 | Core::LeftShift64 | Core::RightShift64 | Core::LeftRotate64 | Core::RightRotate64 => lemma_source_51(),
        Core::FullRightShift64_16 => lemma_source_52(),
        Core::FullRightShift64_32 => lemma_source_53(),
        Core::LeftShiftWith8 | Core::RightShiftWith8 => lemma_source_54(),
        Core::LeftShiftWith16 | Core::RightShiftWith16 => lemma_source_55(),
        Core::LeftShiftWith32 | Core::RightShiftWith32 => lemma_source_56(),
        Core::LeftShiftWith64 | Core::RightShiftWith64 => lemma_source_57(),
        Core::DivMod128_64 => lemma_source_58(),
        Core::FullAdd8 | Core::FullSubtract8 => lemma_source_59(),
        Core::FullAdd16 | Core::FullSubtract16 => lemma_source_60(),
        Core::FullAdd32 | Core::FullSubtract32 => lemma_source_61(),
        Core::FullAdd64 | Core::FullSubtract64 => lemma_source_62(),
        Core::FullIncrement8 | Core::FullDecrement8 => lemma_source_63(),
        Core::FullIncrement16 | Core::FullDecrement16 => lemma_source_64(),
        Core::FullIncrement32 | Core::FullDecrement32 => lemma_source_65(),
        Core::FullIncrement64 | Core::FullDecrement64 => lemma_source_66(),
        Core::FullMultiply8 => lemma_source_67(),
        Core::FullMultiply16 => lemma_source_68(),
        Core::FullMultiply32 => lemma_source_69(),
        Core::FullMultiply64 => lemma_source_70(),
        Core::Median16 => lemma_source_71(),
        Core::Median32 => lemma_source_72(),
        Core::Median64 => lemma_source_73(),
        Core::Sha256Block => lemma_source_74(),
        Core::Sha256Ctx8Add1 => lemma_source_75(),
        Core::Sha256Ctx8Add2 => lemma_source_76(),
        Core::Sha256Ctx8Add4 => lemma_source_77(),
        Core::Sha256Ctx8Add8 => lemma_source_78(),
        Core::Sha256Ctx8Add16 => lemma_source_79(),
        Core::Sha256Ctx8Add32 => lemma_source_80(),
        Core::Sha256Ctx8Add64 => lemma_source_81(),
        Core::Sha256Ctx8Add128 => lemma_source_82(),
        Core::Sha256Ctx8Add256 => lemma_source_83(),
        Core::Sha256Ctx8Add512 => lemma_source_84(),
        Core::Sha256Ctx8AddBuffer511 => lemma_source_85(),
        Core::Sha256Ctx8Finalize => lemma_source_86(),
        Core::PointVerify1 => lemma_source_87(),
        Core::Decompress => lemma_source_88(),
        Core::LinearVerify1 => lemma_source_89(),
        Core::LinearCombination1 => lemma_source_90(),
        Core::Scale => lemma_source_91(),
        Core::Generate | Core::ScalarNormalize | Core::ScalarNegate | Core::ScalarSquare | Core::ScalarInvert | Core::ScalarMultiplyLambda | Core::ScalarIsZero => lemma_source_92(),
        Core::GejNormalize | Core::GejNegate | Core::GejDouble | Core::GejIsInfinity | Core::GejYIsOdd | Core::GejIsOnCurve => lemma_source_93(),
        Core::GeNegate | Core::GeIsOnCurve => lemma_source_94(),
        Core::GejAdd | Core::GejEquiv => lemma_source_95(),
        Core::GejGeAddEx | Core::GejGeAdd | Core::GejGeEquiv => lemma_source_96(),
        Core::GejRescale => lemma_source_97(),
        Core::GejXEquiv => lemma_source_98(),
        Core::ScalarAdd | Core::ScalarMultiply => lemma_source_99(),
        Core::FeNormalize | Core::FeNegate | Core::FeSquare | Core::FeMultiplyBeta | Core::FeInvert | Core::FeSquareRoot | Core::FeIsZero | Core::FeIsOdd | Core::Swu => lemma_source_100(),
        Core::FeAdd | Core::FeMultiply => lemma_source_101(),
        Core::HashToCurve => lemma_source_102(),
        Core::CheckSigVerify => lemma_source_103(),
        Core::Bip0340Verify => lemma_source_104(),
    }
    match jet {
        Core::Verify | Core::PointVerify1 | Core::LinearVerify1 | Core::CheckSigVerify | Core::Bip0340Verify => lemma_target_0(),
        Core::Some1 | Core::Some8 | Core::Some16 | Core::Some32 | Core::Some64 | Core::All8 | Core::All16 | Core::All32 | Core::All64 | Core::Eq1 | Core::Eq8 | Core::Eq16 | Core::Eq32 | Core::Eq64 | Core::Eq256 | Core::Le8 | Core::Lt8 | Core::Le16 | Core::Lt16 | Core::Le32 | Core::Lt32 | Core::Le64 | Core::Lt64 | Core::IsZero8 | Core::IsOne8 | Core::IsZero16 | Core::IsOne16 | Core::IsZero32 | Core::IsOne32 | Core::IsZero64 | Core::IsOne64 | Core::Divides8 | Core::Divides16 | Core::Divides32 | Core::Divides64 | Core::GejIsInfinity | Core::GejEquiv | Core::GejGeEquiv | Core::GejXEquiv | Core::GejYIsOdd | Core::GejIsOnCurve | Core::GeIsOnCurve | Core::ScalarIsZero | Core::FeIsZero | Core::FeIsOdd => lemma_target_1(),
        Core::Low1 | Core::High1 | Core::Complement1 | Core::And1 | Core::Or1 | Core::Xor1 | Core::Maj1 | Core::XorXor1 | Core::Ch1 | Core::Leftmost8_1 | Core::Rightmost8_1 | Core::Leftmost16_1 | Core::Rightmost16_1 | Core::Leftmost32_1 | Core::Rightmost32_1 | Core::Leftmost64_1 | Core::Rightmost64_1 => lemma_target_2(),
        Core::Leftmost8_2 | Core::Rightmost8_2 | Core::Leftmost16_2 | Core::Rightmost16_2 | Core::Leftmost32_2 | Core::Rightmost32_2 | Core::Leftmost64_2 | Core::Rightmost64_2 => lemma_target_3(),
        Core::Leftmost8_4 | Core::Rightmost8_4 | Core::Leftmost16_4 | Core::Rightmost16_4 | Core::Leftmost32_4 | Core::Rightmost32_4 | Core::Leftmost64_4 | Core::Rightmost64_4 => lemma_target_4(),
        Core::Low8 | Core::High8 | Core::Complement8 | Core::And8 | Core::Or8 | Core::Xor8 | Core::Maj8 | Core::XorXor8 | Core::Ch8 | Core::Leftmost16_8 | Core::Rightmost16_8 | Core::Leftmost32_8 | Core::Rightmost32_8 | Core::Leftmost64_8 | Core::Rightmost64_8 | Core::LeftPadLow1_8 | Core::LeftPadHigh1_8 | Core::LeftExtend1_8 | Core::RightPadLow1_8 | Core::RightPadHigh1_8 | Core::LeftShiftWith8 | Core::RightShiftWith8 | Core::LeftShift8 | Core::RightShift8 | Core::LeftRotate8 | Core::RightRotate8 | Core::One8 | Core::Min8 | Core::Max8 | Core::Divide8 | Core::Modulo8 | Core::Median8 => lemma_target_5(),
        Core::Low16 | Core::High16 | Core::Complement16 | Core::And16 | Core::Or16 | Core::Xor16 | Core::Maj16 | Core::XorXor16 | Core::Ch16 | Core::Leftmost32_16 | Core::Rightmost32_16 | Core::Leftmost64_16 | Core::Rightmost64_16 | Core::LeftPadLow1_16 | Core::LeftPadHigh1_16 | Core::LeftExtend1_16 | Core::RightPadLow1_16 | Core::RightPadHigh1_16 | Core::LeftPadLow8_16 | Core::LeftPadHigh8_16 | Core::LeftExtend8_16 | Core::RightPadLow8_16 | Core::RightPadHigh8_16 | Core::RightExtend8_16 | Core::LeftShiftWith16 | Core::RightShiftWith16 | Core::LeftShift16 | Core::RightShift16 | Core::LeftRotate16 | Core::RightRotate16 | Core::One16 | Core::Min16 | Core::Max16 | Core::Divide16 | Core::Modulo16 | Core::Multiply8 | Core::FullMultiply8 | Core::Median16 => lemma_target_6(),
        Core::Low32 | Core::High32 | Core::Complement32 | Core::And32 | Core::Or32 | Core::Xor32 | Core::Maj32 | Core::XorXor32 | Core::Ch32 | Core::Leftmost64_32 | Core::Rightmost64_32 | Core::LeftPadLow1_32 | Core::LeftPadHigh1_32 | Core::LeftExtend1_32 | Core::RightPadLow1_32 | Core::RightPadHigh1_32 | Core::LeftPadLow8_32 | Core::LeftPadHigh8_32 | Core::LeftExtend8_32 | Core::RightPadLow8_32 | Core::RightPadHigh8_32 | Core::RightExtend8_32 | Core::LeftPadLow16_32 | Core::LeftPadHigh16_32 | Core::LeftExtend16_32 | Core::RightPadLow16_32 | Core::RightPadHigh16_32 | Core::RightExtend16_32 | Core::LeftShiftWith32 | Core::RightShiftWith32 | Core::LeftShift32 | Core::RightShift32 | Core::LeftRotate32 | Core::RightRotate32 | Core::One32 | Core::Min32 | Core::Max32 | Core::Divide32 | Core::Modulo32 | Core::Multiply16 | Core::FullMultiply16 | Core::Median32 => lemma_target_7(),
        Core::Low64 | Core::High64 | Core::Complement64 | Core::And64 | Core::Or64 | Core::Xor64 | Core::Maj64 | Core::XorXor64 | Core::Ch64 | Core::LeftPadLow1_64 | Core::LeftPadHigh1_64 | Core::LeftExtend1_64 | Core::RightPadLow1_64 | Core::RightPadHigh1_64 | Core::LeftPadLow8_64 | Core::LeftPadHigh8_64 | Core::LeftExtend8_64 | Core::RightPadLow8_64 | Core::RightPadHigh8_64 | Core::RightExtend8_64 | Core::LeftPadLow16_64 | Core::LeftPadHigh16_64 | Core::LeftExtend16_64 | Core::RightPadLow16_64 | Core::RightPadHigh16_64 | Core::RightExtend16_64 | Core::LeftPadLow32_64 | Core::LeftPadHigh32_64 | Core::LeftExtend32_64 | Core::RightPadLow32_64 | Core::RightPadHigh32_64 | Core::RightExtend32_64 | Core::LeftShiftWith64 | Core::RightShiftWith64 | Core::LeftShift64 | Core::RightShift64 | Core::LeftRotate64 | Core::RightRotate64 | Core::One64 | Core::Min64 | Core::Max64 | Core::Divide64 | Core::Modulo64 | Core::Multiply32 | Core::FullMultiply32 | Core::Median64 => lemma_target_8(),
        Core::FullLeftShift8_1 => lemma_target_9(),
        Core::FullLeftShift8_2 => lemma_target_10(),
        Core::FullLeftShift8_4 => lemma_target_11(),
        Core::FullLeftShift16_1 => lemma_target_12(),
        Core::FullLeftShift16_2 => lemma_target_13(),
        Core::FullLeftShift16_4 => lemma_target_14(),
        Core::FullLeftShift16_8 => lemma_target_15(),
        Core::FullLeftShift32_1 => lemma_target_16(),
        Core::FullLeftShift32_2 => lemma_target_17(),
        Core::FullLeftShift32_4 => lemma_target_18(),
        Core::FullLeftShift32_8 => lemma_target_19(),
        Core::FullLeftShift32_16 => lemma_target_20(),
        Core::FullLeftShift64_1 => lemma_target_21(),
        Core::FullLeftShift64_2 => lemma_target_22(),
        Core::FullLeftShift64_4 => lemma_target_23(),
        Core::FullLeftShift64_8 => lemma_target_24(),
        Core::FullLeftShift64_16 => lemma_target_25(),
        Core::FullLeftShift64_32 => lemma_target_26(),
        Core::FullRightShift8_1 => lemma_target_27(),
        Core::FullRightShift8_2 => lemma_target_28(),
        Core::FullRightShift8_4 => lemma_target_29(),
        Core::FullRightShift16_1 => lemma_target_30(),
        Core::FullRightShift16_2 => lemma_target_31(),
        Core::FullRightShift16_4 => lemma_target_32(),
        Core::FullRightShift16_8 => lemma_target_33(),
        Core::FullRightShift32_1 => lemma_target_34(),
        Core::FullRightShift32_2 => lemma_target_35(),
        Core::FullRightShift32_4 => lemma_target_36(),
        Core::FullRightShift32_8 => lemma_target_37(),
        Core::FullRightShift32_16 => lemma_target_38(),
        Core::FullRightShift64_1 => lemma_target_39(),
        Core::FullRightShift64_2 => lemma_target_40(),
        Core::FullRightShift64_4 => lemma_target_41(),
        Core::FullRightShift64_8 => lemma_target_42(),
        Core::FullRightShift64_16 => lemma_target_43(),
        Core::FullRightShift64_32 => lemma_target_44(),
        Core::Multiply64 | Core::FullMultiply64 => lemma_target_45(),
        Core::Increment8 | Core::Negate8 | Core::Decrement8 | Core::Add8 | Core::Subtract8 | Core::FullAdd8 | Core::FullSubtract8 | Core::FullIncrement8 | Core::FullDecrement8 => lemma_target_46(),
        Core::Increment16 | Core::Negate16 | Core::Decrement16 | Core::Add16 | Core::Subtract16 | Core::FullAdd16 | Core::FullSubtract16 | Core::FullIncrement16 | Core::FullDecrement16 => lemma_target_47(),
        Core::Increment32 | Core::Negate32 | Core::Decrement32 | Core::Add32 | Core::Subtract32 | Core::FullAdd32 | Core::FullSubtract32 | Core::FullIncrement32 | Core::FullDecrement32 => lemma_target_48(),
        Core::Increment64 | Core::Negate64 | Core::Decrement64 | Core::Add64 | Core::Subtract64 | Core::FullAdd64 | Core::FullSubtract64 | Core::FullIncrement64 | Core::FullDecrement64 => lemma_target_49(),
        Core::DivMod8 => lemma_target_50(),
        Core::DivMod16 => lemma_target_51(),
        Core::DivMod32 => lemma_target_52(),
        Core::DivMod64 | Core::DivMod128_64 => lemma_target_53(),
        Core::Sha256Iv | Core::Sha256Block | Core::Sha256Ctx8Finalize => lemma_target_54(),
        Core::Sha256Ctx8Init | Core::Sha256Ctx8Add1 | Core::Sha256Ctx8Add2 | Core::Sha256Ctx8Add4 | Core::Sha256Ctx8Add8 | Core::Sha256Ctx8Add16 | Core::Sha256Ctx8Add32 | Core::Sha256Ctx8Add64 | Core::Sha256Ctx8Add128 | Core::Sha256Ctx8Add256 | Core::Sha256Ctx8Add512 | Core::Sha256Ctx8AddBuffer511 | Core::TapdataInit => lemma_target_55(),
        Core::GeNegate | Core::HashToCurve | Core::Swu => lemma_target_56(),
        Core::Decompress | Core::GejNormalize => lemma_target_57(),
        Core::LinearCombination1 | Core::Scale | Core::Generate | Core::GejInfinity | Core::GejNegate | Core::GejDouble | Core::GejAdd | Core::GejGeAdd | Core::GejRescale => lemma_target_58(),
        Core::GejGeAddEx => lemma_target_59(),
        Core::ScalarNormalize | Core::ScalarNegate | Core::ScalarAdd | Core::ScalarSquare | Core::ScalarMultiply | Core::ScalarMultiplyLambda | Core::ScalarInvert => lemma_target_60(),
        Core::FeNormalize | Core::FeNegate | Core::FeAdd | Core::FeSquare | Core::FeMultiply | Core::FeMultiplyBeta | Core::FeInvert => lemma_target_61(),
        Core::FeSquareRoot => lemma_target_62(),
        Core::ParseLock => lemma_target_63(),
        Core::ParseSequence => lemma_target_64(),
    }
}

/// The median jets.
pub open spec fn median_jet(jet: Core) -> bool {
    jet is Median16 || jet is Median32 || jet is Median64 || jet is Median8
}

/// A median jet takes three arguments, each of the integer type that it returns.
pub proof fn law_median_takes_three_of_its_result(jet: Core)
    requires
        median_jet(jet),
    ensures
        spec_source_type(jet) == seq![spec_target_type(jet), spec_target_type(jet), spec_target_type(jet)],
        spec_target_type(jet) is UInt,
{
}

/// The jets that combine two integers into one of the same type: minimum, maximum, quotient, remainder and the bitwise and, or and exclusive or.
pub open spec fn same_width_binary_jet(jet: Core) -> bool {
    jet is Divide16 || jet is Divide32 || jet is Divide64 || jet is Divide8 || jet is Max16 || jet is Max32 || jet is Max64 || jet is Max8 || jet is Min16 || jet is Min32 || jet is Min64 || jet is Min8 || jet is Modulo16 || jet is Modulo32 || jet is Modulo64 || jet is Modulo8 || jet is And1 || jet is And16 || jet is And32 || jet is And64 || jet is And8 || jet is Or1 || jet is Or16 || jet is Or32 || jet is Or64 || jet is Or8 || jet is Xor1 || jet is Xor16 || jet is Xor32 || jet is Xor64 || jet is Xor8
}

/// A jet that combines two integers into one of the same type takes exactly two arguments of the type that it returns.
pub proof fn law_binary_takes_two_of_its_result(jet: Core)
    requires
        same_width_binary_jet(jet),
    ensures
        spec_source_type(jet) == seq![spec_target_type(jet), spec_target_type(jet)],
        spec_target_type(jet) is UInt,
{
}

/// The complement jets.
pub open spec fn complement_jet(jet: Core) -> bool {
    jet is Complement1 || jet is Complement16 || jet is Complement32 || jet is Complement64 || jet is Complement8
}

/// A complement jet takes one argument of the integer type that it returns.
pub proof fn law_complement_takes_its_result(jet: Core)
    requires
        complement_jet(jet),
    ensures
        spec_source_type(jet) == seq![spec_target_type(jet)],
        spec_target_type(jet) is UInt,
{
}

/// The majority, double exclusive or and choice jets of 1 and 8 bits.
pub open spec fn narrow_bitwise_ternary_jet(jet: Core) -> bool {
    jet is Ch1 || jet is Ch8 || jet is Maj1 || jet is Maj8 || jet is XorXor1 || jet is XorXor8
}

/// A majority, double exclusive or or choice jet of 1 or 8 bits takes three arguments of the type that it returns.
pub proof fn law_narrow_ternary_takes_three_of_its_result(jet: Core)
    requires
        narrow_bitwise_ternary_jet(jet),
    ensures
        spec_source_type(jet) == seq![spec_target_type(jet), spec_target_type(jet), spec_target_type(jet)],
        spec_target_type(jet) is UInt,
{
}

/// The majority, double exclusive or and choice jets of 16, 32 and 64 bits.
pub open spec fn wide_bitwise_ternary_jet(jet: Core) -> bool {
    jet is Ch16 || jet is Ch32 || jet is Ch64 || jet is Maj16 || jet is Maj32 || jet is Maj64 || jet is XorXor16 || jet is XorXor32 || jet is XorXor64
}

/// A majority, double exclusive or or choice jet of 16, 32 or 64 bits takes an argument of the type that it returns and a pair of two more.
pub proof fn law_wide_ternary_takes_one_and_a_pair_of_its_result(jet: Core)
    requires
        wide_bitwise_ternary_jet(jet),
    ensures
        spec_source_type(jet) == seq![spec_target_type(jet), TypeModel::Tuple(seq![spec_target_type(jet), spec_target_type(jet)])],
        spec_target_type(jet) is UInt,
{
}

/// The jets that compare two integers: equality, order and divisibility.
pub open spec fn comparison_jet(jet: Core) -> bool {
    jet is Eq1 || jet is Eq16 || jet is Eq256 || jet is Eq32 || jet is Eq64 || jet is Eq8 || jet is Divides16 || jet is Divides32 || jet is Divides64 || jet is Divides8 || jet is Le16 || jet is Le32 || jet is Le64 || jet is Le8 || jet is Lt16 || jet is Lt32 || jet is Lt64 || jet is Lt8
}

/// A comparison jet takes two integers of one type and returns a boolean.
pub proof fn law_comparison_takes_two_of_one_type(jet: Core)
    requires
        comparison_jet(jet),
    ensures
        spec_source_type(jet).len() == 2,
        spec_source_type(jet)[0] == spec_source_type(jet)[1],
        spec_source_type(jet)[0] is UInt,
        spec_target_type(jet) == TypeModel::Boolean,
{
}

/// The jets that test one integer: zero, one, some bit set, all bits set.
pub open spec fn predicate_jet(jet: Core) -> bool {
    jet is IsOne16 || jet is IsOne32 || jet is IsOne64 || jet is IsOne8 || jet is IsZero16 || jet is IsZero32 || jet is IsZero64 || jet is IsZero8 || jet is Some1 || jet is Some16 || jet is Some32 || jet is Some64 || jet is Some8 || jet is All16 || jet is All32 || jet is All64 || jet is All8
}

/// A test of one integer takes exactly one integer argument and returns a boolean.
pub proof fn law_predicate_takes_one_integer(jet: Core)
    requires
        predicate_jet(jet),
    ensures
        spec_source_type(jet).len() == 1,
        spec_source_type(jet)[0] is UInt,
        spec_target_type(jet) == TypeModel::Boolean,
{
}

/// The jets that add or subtract two integers with a carry out.
pub open spec fn carrying_binary_jet(jet: Core) -> bool {
    jet is Add16 || jet is Add32 || jet is Add64 || jet is Add8 || jet is Subtract16 || jet is Subtract32 || jet is Subtract64 || jet is Subtract8
}

/// Adding or subtracting takes two integers of one type and returns the carry and an integer of that type.
pub proof fn law_carrying_binary_takes_two_operands(jet: Core)
    requires
        carrying_binary_jet(jet),
    ensures
        spec_source_type(jet).len() == 2,
        spec_source_type(jet)[0] == spec_source_type(jet)[1],
        spec_source_type(jet)[0] is UInt,
        spec_target_type(jet) == TypeModel::Tuple(seq![TypeModel::Boolean, spec_source_type(jet)[0]]),
{
}

/// The jets that add or subtract two integers with a carry in and a carry out.
pub open spec fn full_carrying_binary_jet(jet: Core) -> bool {
    jet is FullAdd16 || jet is FullAdd32 || jet is FullAdd64 || jet is FullAdd8 || jet is FullSubtract16 || jet is FullSubtract32 || jet is FullSubtract64 || jet is FullSubtract8
}

/// Full addition or subtraction takes a carry and two integers of one type, and returns the carry and an integer of that type.
pub proof fn law_full_carrying_binary_takes_carry_and_two_operands(jet: Core)
    requires
        full_carrying_binary_jet(jet),
    ensures
        spec_source_type(jet).len() == 3,
        spec_source_type(jet)[0] == TypeModel::Boolean,
        spec_source_type(jet)[1] == spec_source_type(jet)[2],
        spec_source_type(jet)[1] is UInt,
        spec_target_type(jet) == TypeModel::Tuple(seq![TypeModel::Boolean, spec_source_type(jet)[1]]),
{
}

/// The jets that increment, decrement or negate one integer with a carry out.
pub open spec fn carrying_unary_jet(jet: Core) -> bool {
    jet is Decrement16 || jet is Decrement32 || jet is Decrement64 || jet is Decrement8 || jet is Increment16 || jet is Increment32 || jet is Increment64 || jet is Increment8 || jet is Negate16 || jet is Negate32 || jet is Negate64 || jet is Negate8
}

/// Incrementing, decrementing or negating takes one integer and returns the carry and an integer of that type.
pub proof fn law_carrying_unary_takes_one_operand(jet: Core)
    requires
        carrying_unary_jet(jet),
    ensures
        spec_source_type(jet).len() == 1,
        spec_source_type(jet)[0] is UInt,
        spec_target_type(jet) == TypeModel::Tuple(seq![TypeModel::Boolean, spec_source_type(jet)[0]]),
{
}

/// The jets that increment or decrement one integer with a carry in and out.
pub open spec fn full_carrying_unary_jet(jet: Core) -> bool {
    jet is FullDecrement16 || jet is FullDecrement32 || jet is FullDecrement64 || jet is FullDecrement8 || jet is FullIncrement16 || jet is FullIncrement32 || jet is FullIncrement64 || jet is FullIncrement8
}

/// Full increment or decrement takes a carry and one integer, and returns the carry and an integer of that type.
pub proof fn law_full_carrying_unary_takes_carry_and_operand(jet: Core)
    requires
        full_carrying_unary_jet(jet),
    ensures
        spec_source_type(jet).len() == 2,
        spec_source_type(jet)[0] == TypeModel::Boolean,
        spec_source_type(jet)[1] is UInt,
        spec_target_type(jet) == TypeModel::Tuple(seq![TypeModel::Boolean, spec_source_type(jet)[1]]),
{
}

/// The jets that multiply two integers.
pub open spec fn multiply_jet(jet: Core) -> bool {
    jet is Multiply16 || jet is Multiply32 || jet is Multiply64 || jet is Multiply8
}

/// Multiplying takes two integers of one type and returns an integer of twice their width.
pub proof fn law_multiply_doubles_the_width(jet: Core)
    requires
        multiply_jet(jet),
    ensures
        spec_source_type(jet).len() == 2,
        spec_source_type(jet)[0] == spec_source_type(jet)[1],
        spec_source_type(jet)[0] matches TypeModel::UInt(u) && spec_target_type(jet) matches TypeModel::UInt(v) && v.spec_bit_width() == 2 * u.spec_bit_width(),
{
}

/// The jets that multiply two integers and add two more.
pub open spec fn full_multiply_jet(jet: Core) -> bool {
    jet is FullMultiply16 || jet is FullMultiply32 || jet is FullMultiply64 || jet is FullMultiply8
}

/// Full multiplication takes four integers of one type and returns an integer of twice their width.
pub proof fn law_full_multiply_takes_four_and_doubles_the_width(jet: Core)
    requires
        full_multiply_jet(jet),
    ensures
        spec_source_type(jet).len() == 4,
        spec_source_type(jet)[0] == spec_source_type(jet)[1],
        spec_source_type(jet)[1] == spec_source_type(jet)[2],
        spec_source_type(jet)[2] == spec_source_type(jet)[3],
        spec_source_type(jet)[0] matches TypeModel::UInt(u) && spec_target_type(jet) matches TypeModel::UInt(v) && v.spec_bit_width() == 2 * u.spec_bit_width(),
{
}

/// The jets that give quotient and remainder of two integers of one type.
pub open spec fn div_mod_jet(jet: Core) -> bool {
    jet is DivMod16 || jet is DivMod32 || jet is DivMod64 || jet is DivMod8
}

/// Division with remainder takes two integers of one type and returns a pair of that type.
pub proof fn law_div_mod_returns_a_pair_of_its_operands(jet: Core)
    requires
        div_mod_jet(jet),
    ensures
        spec_source_type(jet).len() == 2,
        spec_source_type(jet)[0] == spec_source_type(jet)[1],
        spec_source_type(jet)[0] is UInt,
        spec_target_type(jet) == TypeModel::Tuple(seq![spec_source_type(jet)[0], spec_source_type(jet)[0]]),
{
}

/// The jets that give a constant integer.
pub open spec fn constant_jet(jet: Core) -> bool {
    jet is High1 || jet is High16 || jet is High32 || jet is High64 || jet is High8 || jet is Low1 || jet is Low16 || jet is Low32 || jet is Low64 || jet is Low8 || jet is One16 || jet is One32 || jet is One64 || jet is One8
}

/// A constant jet takes no argument and returns an integer.
pub proof fn law_constant_takes_nothing(jet: Core)
    requires
        constant_jet(jet),
    ensures
        spec_source_type(jet).len() == 0,
        spec_target_type(jet) is UInt,
{
}

/// The jets that take the leftmost or rightmost bits of an integer.
pub open spec fn take_bits_jet(jet: Core) -> bool {
    jet is Leftmost16_1 || jet is Leftmost16_2 || jet is Leftmost16_4 || jet is Leftmost16_8 || jet is Leftmost32_1 || jet is Leftmost32_16 || jet is Leftmost32_2 || jet is Leftmost32_4 || jet is Leftmost32_8 || jet is Leftmost64_1 || jet is Leftmost64_16 || jet is Leftmost64_2 || jet is Leftmost64_32 || jet is Leftmost64_4 || jet is Leftmost64_8 || jet is Leftmost8_1 || jet is Leftmost8_2 || jet is Leftmost8_4 || jet is Rightmost16_1 || jet is Rightmost16_2 || jet is Rightmost16_4 || jet is Rightmost16_8 || jet is Rightmost32_1 || jet is Rightmost32_16 || jet is Rightmost32_2 || jet is Rightmost32_4 || jet is Rightmost32_8 || jet is Rightmost64_1 || jet is Rightmost64_16 || jet is Rightmost64_2 || jet is Rightmost64_32 || jet is Rightmost64_4 || jet is Rightmost64_8 || jet is Rightmost8_1 || jet is Rightmost8_2 || jet is Rightmost8_4
}

/// Taking the leftmost or rightmost bits takes one integer and returns a narrower integer.
pub proof fn law_take_bits_narrows(jet: Core)
    requires
        take_bits_jet(jet),
    ensures
        spec_source_type(jet).len() == 1,
        spec_source_type(jet)[0] matches TypeModel::UInt(u) && spec_target_type(jet) matches TypeModel::UInt(v) && v.spec_bit_width() < u.spec_bit_width(),
{
}

/// The jets that pad or extend an integer to a wider one.
pub open spec fn widen_jet(jet: Core) -> bool {
    jet is LeftExtend16_32 || jet is LeftExtend16_64 || jet is LeftExtend1_16 || jet is LeftExtend1_32 || jet is LeftExtend1_64 || jet is LeftExtend1_8 || jet is LeftExtend32_64 || jet is LeftExtend8_16 || jet is LeftExtend8_32 || jet is LeftExtend8_64 || jet is LeftPadHigh16_32 || jet is LeftPadHigh16_64 || jet is LeftPadHigh1_16 || jet is LeftPadHigh1_32 || jet is LeftPadHigh1_64 || jet is LeftPadHigh1_8 || jet is LeftPadHigh32_64 || jet is LeftPadHigh8_16 || jet is LeftPadHigh8_32 || jet is LeftPadHigh8_64 || jet is LeftPadLow16_32 || jet is LeftPadLow16_64 || jet is LeftPadLow1_16 || jet is LeftPadLow1_32 || jet is LeftPadLow1_64 || jet is LeftPadLow1_8 || jet is LeftPadLow32_64 || jet is LeftPadLow8_16 || jet is LeftPadLow8_32 || jet is LeftPadLow8_64 || jet is RightExtend16_32 || jet is RightExtend16_64 || jet is RightExtend32_64 || jet is RightExtend8_16 || jet is RightExtend8_32 || jet is RightExtend8_64 || jet is RightPadHigh16_32 || jet is RightPadHigh16_64 || jet is RightPadHigh1_16 || jet is RightPadHigh1_32 || jet is RightPadHigh1_64 || jet is RightPadHigh1_8 || jet is RightPadHigh32_64 || jet is RightPadHigh8_16 || jet is RightPadHigh8_32 || jet is RightPadHigh8_64 || jet is RightPadLow16_32 || jet is RightPadLow16_64 || jet is RightPadLow1_16 || jet is RightPadLow1_32 || jet is RightPadLow1_64 || jet is RightPadLow1_8 || jet is RightPadLow32_64 || jet is RightPadLow8_16 || jet is RightPadLow8_32 || jet is RightPadLow8_64
}

/// Padding or extending takes one integer and returns a wider integer.
pub proof fn law_widen_widens(jet: Core)
    requires
        widen_jet(jet),
    ensures
        spec_source_type(jet).len() == 1,
        spec_source_type(jet)[0] matches TypeModel::UInt(u) && spec_target_type(jet) matches TypeModel::UInt(v) && u.spec_bit_width() < v.spec_bit_width(),
{
}

/// The jets that shift bits of a narrower integer in from the right.
pub open spec fn full_left_shift_jet(jet: Core) -> bool {
    jet is FullLeftShift16_1 || jet is FullLeftShift16_2 || jet is FullLeftShift16_4 || jet is FullLeftShift16_8 || jet is FullLeftShift32_1 || jet is FullLeftShift32_16 || jet is FullLeftShift32_2 || jet is FullLeftShift32_4 || jet is FullLeftShift32_8 || jet is FullLeftShift64_1 || jet is FullLeftShift64_16 || jet is FullLeftShift64_2 || jet is FullLeftShift64_32 || jet is FullLeftShift64_4 || jet is FullLeftShift64_8 || jet is FullLeftShift8_1 || jet is FullLeftShift8_2 || jet is FullLeftShift8_4
}

/// A full left shift takes a wide integer and a narrower one, and returns the bits shifted out, of the narrower type, and the wide result.
pub proof fn law_full_left_shift_returns_the_pair_reversed(jet: Core)
    requires
        full_left_shift_jet(jet),
    ensures
        spec_source_type(jet).len() == 2,
        spec_source_type(jet)[0] matches TypeModel::UInt(a) && spec_source_type(jet)[1] matches TypeModel::UInt(b) && b.spec_bit_width() < a.spec_bit_width(),
        spec_target_type(jet) == TypeModel::Tuple(seq![spec_source_type(jet)[1], spec_source_type(jet)[0]]),
{
}

/// The jets that shift bits of a narrower integer in from the left.
pub open spec fn full_right_shift_jet(jet: Core) -> bool {
    jet is FullRightShift16_1 || jet is FullRightShift16_2 || jet is FullRightShift16_4 || jet is FullRightShift16_8 || jet is FullRightShift32_1 || jet is FullRightShift32_16 || jet is FullRightShift32_2 || jet is FullRightShift32_4 || jet is FullRightShift32_8 || jet is FullRightShift64_1 || jet is FullRightShift64_16 || jet is FullRightShift64_2 || jet is FullRightShift64_32 || jet is FullRightShift64_4 || jet is FullRightShift64_8 || jet is FullRightShift8_1 || jet is FullRightShift8_2 || jet is FullRightShift8_4
}

/// A full right shift takes a narrower integer and a wide one, and returns the wide result and the bits shifted out, of the narrower type.
pub proof fn law_full_right_shift_returns_the_pair_reversed(jet: Core)
    requires
        full_right_shift_jet(jet),
    ensures
        spec_source_type(jet).len() == 2,
        spec_source_type(jet)[0] matches TypeModel::UInt(b) && spec_source_type(jet)[1] matches TypeModel::UInt(a) && b.spec_bit_width() < a.spec_bit_width(),
        spec_target_type(jet) == TypeModel::Tuple(seq![spec_source_type(jet)[1], spec_source_type(jet)[0]]),
{
}

/// The jets that shift or rotate an integer by an amount.
pub open spec fn shift_jet(jet: Core) -> bool {
    jet is LeftRotate16 || jet is LeftRotate32 || jet is LeftRotate64 || jet is LeftRotate8 || jet is LeftShift16 || jet is LeftShift32 || jet is LeftShift64 || jet is LeftShift8 || jet is RightRotate16 || jet is RightRotate32 || jet is RightRotate64 || jet is RightRotate8 || jet is RightShift16 || jet is RightShift32 || jet is RightShift64 || jet is RightShift8
}

/// A shift or rotation takes an integer amount and an integer of the type that it returns.
pub proof fn law_shift_takes_amount_and_its_result(jet: Core)
    requires
        shift_jet(jet),
    ensures
        spec_source_type(jet).len() == 2,
        spec_source_type(jet)[0] is UInt,
        spec_source_type(jet)[1] == spec_target_type(jet),
        spec_target_type(jet) is UInt,
{
}

/// The jets that shift an integer by an amount, filling with a given bit.
pub open spec fn shift_with_jet(jet: Core) -> bool {
    jet is LeftShiftWith16 || jet is LeftShiftWith32 || jet is LeftShiftWith64 || jet is LeftShiftWith8 || jet is RightShiftWith16 || jet is RightShiftWith32 || jet is RightShiftWith64 || jet is RightShiftWith8
}

/// A shift with fill takes the fill bit, an integer amount and an integer of the type that it returns.
pub proof fn law_shift_with_takes_bit_amount_and_its_result(jet: Core)
    requires
        shift_with_jet(jet),
    ensures
        spec_source_type(jet).len() == 3,
        spec_source_type(jet)[0] == TypeModel::UInt(UIntType::U1),
        spec_source_type(jet)[1] is UInt,
        spec_source_type(jet)[2] == spec_target_type(jet),
        spec_target_type(jet) is UInt,
{
}

/// The jets named for 1 bits that return an integer of that width.
pub open spec fn returns_1_bits_jet(jet: Core) -> bool {
    jet is And1 || jet is Ch1 || jet is Complement1 || jet is High1 || jet is Low1 || jet is Maj1 || jet is Or1 || jet is Xor1 || jet is XorXor1
}

/// A jet named for 1 bits that computes an integer of that width returns `u1`.
pub proof fn law_1_bit_jets_return_1_bits(jet: Core)
    requires
        returns_1_bits_jet(jet),
    ensures
        spec_target_type(jet) == TypeModel::UInt(UIntType::U1),
{
}

/// The jets named for 1 bits whose last argument is an integer of that width.
pub open spec fn takes_1_bits_jet(jet: Core) -> bool {
    jet is Eq1 || jet is Some1
}

/// A jet named for 1 bits that tests or computes with integers of that width takes `u1` as its last argument.
pub proof fn law_1_bit_jets_take_1_bits(jet: Core)
    requires
        takes_1_bits_jet(jet),
    ensures
        spec_source_type(jet).len() > 0,
        spec_source_type(jet).last() == TypeModel::UInt(UIntType::U1),
{
}

/// The jets named for 8 bits that return an integer of that width.
pub open spec fn returns_8_bits_jet(jet: Core) -> bool {
    jet is And8 || jet is Ch8 || jet is Complement8 || jet is Divide8 || jet is High8 || jet is LeftRotate8 || jet is LeftShift8 || jet is LeftShiftWith8 || jet is Low8 || jet is Maj8 || jet is Max8 || jet is Median8 || jet is Min8 || jet is Modulo8 || jet is One8 || jet is Or8 || jet is RightRotate8 || jet is RightShift8 || jet is RightShiftWith8 || jet is Xor8 || jet is XorXor8
}

/// A jet named for 8 bits that computes an integer of that width returns `u8`.
pub proof fn law_8_bit_jets_return_8_bits(jet: Core)
    requires
        returns_8_bits_jet(jet),
    ensures
        spec_target_type(jet) == TypeModel::UInt(UIntType::U8),
{
}

/// The jets named for 8 bits whose last argument is an integer of that width.
pub open spec fn takes_8_bits_jet(jet: Core) -> bool {
    jet is Add8 || jet is All8 || jet is Decrement8 || jet is DivMod8 || jet is Divides8 || jet is Eq8 || jet is FullAdd8 || jet is FullDecrement8 || jet is FullIncrement8 || jet is FullMultiply8 || jet is FullSubtract8 || jet is Increment8 || jet is IsOne8 || jet is IsZero8 || jet is Le8 || jet is Lt8 || jet is Multiply8 || jet is Negate8 || jet is Some8 || jet is Subtract8
}

/// A jet named for 8 bits that tests or computes with integers of that width takes `u8` as its last argument.
pub proof fn law_8_bit_jets_take_8_bits(jet: Core)
    requires
        takes_8_bits_jet(jet),
    ensures
        spec_source_type(jet).len() > 0,
        spec_source_type(jet).last() == TypeModel::UInt(UIntType::U8),
{
}

/// The jets named for 16 bits that return an integer of that width.
pub open spec fn returns_16_bits_jet(jet: Core) -> bool {
    jet is And16 || jet is Ch16 || jet is Complement16 || jet is Divide16 || jet is High16 || jet is LeftRotate16 || jet is LeftShift16 || jet is LeftShiftWith16 || jet is Low16 || jet is Maj16 || jet is Max16 || jet is Median16 || jet is Min16 || jet is Modulo16 || jet is One16 || jet is Or16 || jet is RightRotate16 || jet is RightShift16 || jet is RightShiftWith16 || jet is Xor16 || jet is XorXor16
}

/// A jet named for 16 bits that computes an integer of that width returns `u16`.
pub proof fn law_16_bit_jets_return_16_bits(jet: Core)
    requires
        returns_16_bits_jet(jet),
    ensures
        spec_target_type(jet) == TypeModel::UInt(UIntType::U16),
{
}

/// The jets named for 16 bits whose last argument is an integer of that width.
pub open spec fn takes_16_bits_jet(jet: Core) -> bool {
    jet is Add16 || jet is All16 || jet is Decrement16 || jet is DivMod16 || jet is Divides16 || jet is Eq16 || jet is FullAdd16 || jet is FullDecrement16 || jet is FullIncrement16 || jet is FullMultiply16 || jet is FullSubtract16 || jet is Increment16 || jet is IsOne16 || jet is IsZero16 || jet is Le16 || jet is Lt16 || jet is Multiply16 || jet is Negate16 || jet is Some16 || jet is Subtract16
}

/// A jet named for 16 bits that tests or computes with integers of that width takes `u16` as its last argument.
pub proof fn law_16_bit_jets_take_16_bits(jet: Core)
    requires
        takes_16_bits_jet(jet),
    ensures
        spec_source_type(jet).len() > 0,
        spec_source_type(jet).last() == TypeModel::UInt(UIntType::U16),
{
}

/// The jets named for 32 bits that return an integer of that width.
pub open spec fn returns_32_bits_jet(jet: Core) -> bool {
    jet is And32 || jet is Ch32 || jet is Complement32 || jet is Divide32 || jet is High32 || jet is LeftRotate32 || jet is LeftShift32 || jet is LeftShiftWith32 || jet is Low32 || jet is Maj32 || jet is Max32 || jet is Median32 || jet is Min32 || jet is Modulo32 || jet is One32 || jet is Or32 || jet is RightRotate32 || jet is RightShift32 || jet is RightShiftWith32 || jet is Xor32 || jet is XorXor32
}

/// A jet named for 32 bits that computes an integer of that width returns `u32`.
pub proof fn law_32_bit_jets_return_32_bits(jet: Core)
    requires
        returns_32_bits_jet(jet),
    ensures
        spec_target_type(jet) == TypeModel::UInt(UIntType::U32),
{
}

/// The jets named for 32 bits whose last argument is an integer of that width.
pub open spec fn takes_32_bits_jet(jet: Core) -> bool {
    jet is Add32 || jet is All32 || jet is Decrement32 || jet is DivMod32 || jet is Divides32 || jet is Eq32 || jet is FullAdd32 || jet is FullDecrement32 || jet is FullIncrement32 || jet is FullMultiply32 || jet is FullSubtract32 || jet is Increment32 || jet is IsOne32 || jet is IsZero32 || jet is Le32 || jet is Lt32 || jet is Multiply32 || jet is Negate32 || jet is Some32 || jet is Subtract32
}

/// A jet named for 32 bits that tests or computes with integers of that width takes `u32` as its last argument.
pub proof fn law_32_bit_jets_take_32_bits(jet: Core)
    requires
        takes_32_bits_jet(jet),
    ensures
        spec_source_type(jet).len() > 0,
        spec_source_type(jet).last() == TypeModel::UInt(UIntType::U32),
{
}

/// The jets named for 64 bits that return an integer of that width.
pub open spec fn returns_64_bits_jet(jet: Core) -> bool {
    jet is And64 || jet is Ch64 || jet is Complement64 || jet is Divide64 || jet is High64 || jet is LeftRotate64 || jet is LeftShift64 || jet is LeftShiftWith64 || jet is Low64 || jet is Maj64 || jet is Max64 || jet is Median64 || jet is Min64 || jet is Modulo64 || jet is One64 || jet is Or64 || jet is RightRotate64 || jet is RightShift64 || jet is RightShiftWith64 || jet is Xor64 || jet is XorXor64
}

/// A jet named for 64 bits that computes an integer of that width returns `u64`.
pub proof fn law_64_bit_jets_return_64_bits(jet: Core)
    requires
        returns_64_bits_jet(jet),
    ensures
        spec_target_type(jet) == TypeModel::UInt(UIntType::U64),
{
}

/// The jets named for 64 bits whose last argument is an integer of that width.
pub open spec fn takes_64_bits_jet(jet: Core) -> bool {
    jet is Add64 || jet is All64 || jet is Decrement64 || jet is DivMod64 || jet is Divides64 || jet is Eq64 || jet is FullAdd64 || jet is FullDecrement64 || jet is FullIncrement64 || jet is FullMultiply64 || jet is FullSubtract64 || jet is Increment64 || jet is IsOne64 || jet is IsZero64 || jet is Le64 || jet is Lt64 || jet is Multiply64 || jet is Negate64 || jet is Some64 || jet is Subtract64
}

/// A jet named for 64 bits that tests or computes with integers of that width takes `u64` as its last argument.
pub proof fn law_64_bit_jets_take_64_bits(jet: Core)
    requires
        takes_64_bits_jet(jet),
    ensures
        spec_source_type(jet).len() > 0,
        spec_source_type(jet).last() == TypeModel::UInt(UIntType::U64),
{
}

/// The jets named for 256 bits whose last argument is an integer of that width.
pub open spec fn takes_256_bits_jet(jet: Core) -> bool {
    jet is Eq256
}

/// A jet named for 256 bits that tests or computes with integers of that width takes `u256` as its last argument.
pub proof fn law_256_bit_jets_take_256_bits(jet: Core)
    requires
        takes_256_bits_jet(jet),
    ensures
        spec_source_type(jet).len() > 0,
        spec_source_type(jet).last() == TypeModel::UInt(UIntType::U256),
{
}

/// The jets that turn a `u1` into a `u8`.
pub open spec fn from_1_to_8_bits_jet(jet: Core) -> bool {
    jet is LeftExtend1_8 || jet is LeftPadHigh1_8 || jet is LeftPadLow1_8 || jet is RightPadHigh1_8 || jet is RightPadLow1_8
}

/// The jets named `..1_8` take one `u1` and return a `u8`.
pub proof fn law_from_1_to_8_bits(jet: Core)
    requires
        from_1_to_8_bits_jet(jet),
    ensures
        spec_source_type(jet) == seq![TypeModel::UInt(UIntType::U1)],
        spec_target_type(jet) == TypeModel::UInt(UIntType::U8),
{
}

/// The jets that turn a `u1` into a `u16`.
pub open spec fn from_1_to_16_bits_jet(jet: Core) -> bool {
    jet is LeftExtend1_16 || jet is LeftPadHigh1_16 || jet is LeftPadLow1_16 || jet is RightPadHigh1_16 || jet is RightPadLow1_16
}

/// The jets named `..1_16` take one `u1` and return a `u16`.
pub proof fn law_from_1_to_16_bits(jet: Core)
    requires
        from_1_to_16_bits_jet(jet),
    ensures
        spec_source_type(jet) == seq![TypeModel::UInt(UIntType::U1)],
        spec_target_type(jet) == TypeModel::UInt(UIntType::U16),
{
}

/// The jets that turn a `u1` into a `u32`.
pub open spec fn from_1_to_32_bits_jet(jet: Core) -> bool {
    jet is LeftExtend1_32 || jet is LeftPadHigh1_32 || jet is LeftPadLow1_32 || jet is RightPadHigh1_32 || jet is RightPadLow1_32
}

/// The jets named `..1_32` take one `u1` and return a `u32`.
pub proof fn law_from_1_to_32_bits(jet: Core)
    requires
        from_1_to_32_bits_jet(jet),
    ensures
        spec_source_type(jet) == seq![TypeModel::UInt(UIntType::U1)],
        spec_target_type(jet) == TypeModel::UInt(UIntType::U32),
{
}

/// The jets that turn a `u1` into a `u64`.
pub open spec fn from_1_to_64_bits_jet(jet: Core) -> bool {
    jet is LeftExtend1_64 || jet is LeftPadHigh1_64 || jet is LeftPadLow1_64 || jet is RightPadHigh1_64 || jet is RightPadLow1_64
}

/// The jets named `..1_64` take one `u1` and return a `u64`.
pub proof fn law_from_1_to_64_bits(jet: Core)
    requires
        from_1_to_64_bits_jet(jet),
    ensures
        spec_source_type(jet) == seq![TypeModel::UInt(UIntType::U1)],
        spec_target_type(jet) == TypeModel::UInt(UIntType::U64),
{
}

/// The jets that turn a `u8` into a `u1`.
pub open spec fn from_8_to_1_bits_jet(jet: Core) -> bool {
    jet is Leftmost8_1 || jet is Rightmost8_1
}

/// The jets named `..8_1` take one `u8` and return a `u1`.
pub proof fn law_from_8_to_1_bits(jet: Core)
    requires
        from_8_to_1_bits_jet(jet),
    ensures
        spec_source_type(jet) == seq![TypeModel::UInt(UIntType::U8)],
        spec_target_type(jet) == TypeModel::UInt(UIntType::U1),
{
}

/// The jets that turn a `u8` into a `u2`.
pub open spec fn from_8_to_2_bits_jet(jet: Core) -> bool {
    jet is Leftmost8_2 || jet is Rightmost8_2
}

/// The jets named `..8_2` take one `u8` and return a `u2`.
pub proof fn law_from_8_to_2_bits(jet: Core)
    requires
        from_8_to_2_bits_jet(jet),
    ensures
        spec_source_type(jet) == seq![TypeModel::UInt(UIntType::U8)],
        spec_target_type(jet) == TypeModel::UInt(UIntType::U2),
{
}

/// The jets that turn a `u8` into a `u4`.
pub open spec fn from_8_to_4_bits_jet(jet: Core) -> bool {
    jet is Leftmost8_4 || jet is Rightmost8_4
}

/// The jets named `..8_4` take one `u8` and return a `u4`.
pub proof fn law_from_8_to_4_bits(jet: Core)
    requires
        from_8_to_4_bits_jet(jet),
    ensures
        spec_source_type(jet) == seq![TypeModel::UInt(UIntType::U8)],
        spec_target_type(jet) == TypeModel::UInt(UIntType::U4),
{
}

/// The jets that turn a `u8` into a `u16`.
pub open spec fn from_8_to_16_bits_jet(jet: Core) -> bool {
    jet is LeftExtend8_16 || jet is LeftPadHigh8_16 || jet is LeftPadLow8_16 || jet is RightExtend8_16 || jet is RightPadHigh8_16 || jet is RightPadLow8_16
}

/// The jets named `..8_16` take one `u8` and return a `u16`.
pub proof fn law_from_8_to_16_bits(jet: Core)
    requires
        from_8_to_16_bits_jet(jet),
    ensures
        spec_source_type(jet) == seq![TypeModel::UInt(UIntType::U8)],
        spec_target_type(jet) == TypeModel::UInt(UIntType::U16),
{
}

/// The jets that turn a `u8` into a `u32`.
pub open spec fn from_8_to_32_bits_jet(jet: Core) -> bool {
    jet is LeftExtend8_32 || jet is LeftPadHigh8_32 || jet is LeftPadLow8_32 || jet is RightExtend8_32 || jet is RightPadHigh8_32 || jet is RightPadLow8_32
}

/// The jets named `..8_32` take one `u8` and return a `u32`.
pub proof fn law_from_8_to_32_bits(jet: Core)
    requires
        from_8_to_32_bits_jet(jet),
    ensures
        spec_source_type(jet) == seq![TypeModel::UInt(UIntType::U8)],
        spec_target_type(jet) == TypeModel::UInt(UIntType::U32),
{
}

/// The jets that turn a `u8` into a `u64`.
pub open spec fn from_8_to_64_bits_jet(jet: Core) -> bool {
    jet is LeftExtend8_64 || jet is LeftPadHigh8_64 || jet is LeftPadLow8_64 || jet is RightExtend8_64 || jet is RightPadHigh8_64 || jet is RightPadLow8_64
}

/// The jets named `..8_64` take one `u8` and return a `u64`.
pub proof fn law_from_8_to_64_bits(jet: Core)
    requires
        from_8_to_64_bits_jet(jet),
    ensures
        spec_source_type(jet) == seq![TypeModel::UInt(UIntType::U8)],
        spec_target_type(jet) == TypeModel::UInt(UIntType::U64),
{
}

/// The jets that turn a `u16` into a `u1`.
pub open spec fn from_16_to_1_bits_jet(jet: Core) -> bool {
    jet is Leftmost16_1 || jet is Rightmost16_1
}

/// The jets named `..16_1` take one `u16` and return a `u1`.
pub proof fn law_from_16_to_1_bits(jet: Core)
    requires
        from_16_to_1_bits_jet(jet),
    ensures
        spec_source_type(jet) == seq![TypeModel::UInt(UIntType::U16)],
        spec_target_type(jet) == TypeModel::UInt(UIntType::U1),
{
}

/// The jets that turn a `u16` into a `u2`.
pub open spec fn from_16_to_2_bits_jet(jet: Core) -> bool {
    jet is Leftmost16_2 || jet is Rightmost16_2
}

/// The jets named `..16_2` take one `u16` and return a `u2`.
pub proof fn law_from_16_to_2_bits(jet: Core)
    requires
        from_16_to_2_bits_jet(jet),
    ensures
        spec_source_type(jet) == seq![TypeModel::UInt(UIntType::U16)],
        spec_target_type(jet) == TypeModel::UInt(UIntType::U2),
{
}

/// The jets that turn a `u16` into a `u4`.
pub open spec fn from_16_to_4_bits_jet(jet: Core) -> bool {
    jet is Leftmost16_4 || jet is Rightmost16_4
}

/// The jets named `..16_4` take one `u16` and return a `u4`.
pub proof fn law_from_16_to_4_bits(jet: Core)
    requires
        from_16_to_4_bits_jet(jet),
    ensures
        spec_source_type(jet) == seq![TypeModel::UInt(UIntType::U16)],
        spec_target_type(jet) == TypeModel::UInt(UIntType::U4),
{
}

/// The jets that turn a `u16` into a `u8`.
pub open spec fn from_16_to_8_bits_jet(jet: Core) -> bool {
    jet is Leftmost16_8 || jet is Rightmost16_8
}

/// The jets named `..16_8` take one `u16` and return a `u8`.
pub proof fn law_from_16_to_8_bits(jet: Core)
    requires
        from_16_to_8_bits_jet(jet),
    ensures
        spec_source_type(jet) == seq![TypeModel::UInt(UIntType::U16)],
        spec_target_type(jet) == TypeModel::UInt(UIntType::U8),
{
}

/// The jets that turn a `u16` into a `u32`.
pub open spec fn from_16_to_32_bits_jet(jet: Core) -> bool {
    jet is LeftExtend16_32 || jet is LeftPadHigh16_32 || jet is LeftPadLow16_32 || jet is RightExtend16_32 || jet is RightPadHigh16_32 || jet is RightPadLow16_32
}

/// The jets named `..16_32` take one `u16` and return a `u32`.
pub proof fn law_from_16_to_32_bits(jet: Core)
    requires
        from_16_to_32_bits_jet(jet),
    ensures
        spec_source_type(jet) == seq![TypeModel::UInt(UIntType::U16)],
        spec_target_type(jet) == TypeModel::UInt(UIntType::U32),
{
}

/// The jets that turn a `u16` into a `u64`.
pub open spec fn from_16_to_64_bits_jet(jet: Core) -> bool {
    jet is LeftExtend16_64 || jet is LeftPadHigh16_64 || jet is LeftPadLow16_64 || jet is RightExtend16_64 || jet is RightPadHigh16_64 || jet is RightPadLow16_64
}

/// The jets named `..16_64` take one `u16` and return a `u64`.
pub proof fn law_from_16_to_64_bits(jet: Core)
    requires
        from_16_to_64_bits_jet(jet),
    ensures
        spec_source_type(jet) == seq![TypeModel::UInt(UIntType::U16)],
        spec_target_type(jet) == TypeModel::UInt(UIntType::U64),
{
}

/// The jets that turn a `u32` into a `u1`.
pub open spec fn from_32_to_1_bits_jet(jet: Core) -> bool {
    jet is Leftmost32_1 || jet is Rightmost32_1
}

/// The jets named `..32_1` take one `u32` and return a `u1`.
pub proof fn law_from_32_to_1_bits(jet: Core)
    requires
        from_32_to_1_bits_jet(jet),
    ensures
        spec_source_type(jet) == seq![TypeModel::UInt(UIntType::U32)],
        spec_target_type(jet) == TypeModel::UInt(UIntType::U1),
{
}

/// The jets that turn a `u32` into a `u2`.
pub open spec fn from_32_to_2_bits_jet(jet: Core) -> bool {
    jet is Leftmost32_2 || jet is Rightmost32_2
}

/// The jets named `..32_2` take one `u32` and return a `u2`.
pub proof fn law_from_32_to_2_bits(jet: Core)
    requires
        from_32_to_2_bits_jet(jet),
    ensures
        spec_source_type(jet) == seq![TypeModel::UInt(UIntType::U32)],
        spec_target_type(jet) == TypeModel::UInt(UIntType::U2),
{
}

/// The jets that turn a `u32` into a `u4`.
pub open spec fn from_32_to_4_bits_jet(jet: Core) -> bool {
    jet is Leftmost32_4 || jet is Rightmost32_4
}

/// The jets named `..32_4` take one `u32` and return a `u4`.
pub proof fn law_from_32_to_4_bits(jet: Core)
    requires
        from_32_to_4_bits_jet(jet),
    ensures
        spec_source_type(jet) == seq![TypeModel::UInt(UIntType::U32)],
        spec_target_type(jet) == TypeModel::UInt(UIntType::U4),
{
}

/// The jets that turn a `u32` into a `u8`.
pub open spec fn from_32_to_8_bits_jet(jet: Core) -> bool {
    jet is Leftmost32_8 || jet is Rightmost32_8
}

/// The jets named `..32_8` take one `u32` and return a `u8`.
pub proof fn law_from_32_to_8_bits(jet: Core)
    requires
        from_32_to_8_bits_jet(jet),
    ensures
        spec_source_type(jet) == seq![TypeModel::UInt(UIntType::U32)],
        spec_target_type(jet) == TypeModel::UInt(UIntType::U8),
{
}

/// The jets that turn a `u32` into a `u16`.
pub open spec fn from_32_to_16_bits_jet(jet: Core) -> bool {
    jet is Leftmost32_16 || jet is Rightmost32_16
}

/// The jets named `..32_16` take one `u32` and return a `u16`.
pub proof fn law_from_32_to_16_bits(jet: Core)
    requires
        from_32_to_16_bits_jet(jet),
    ensures
        spec_source_type(jet) == seq![TypeModel::UInt(UIntType::U32)],
        spec_target_type(jet) == TypeModel::UInt(UIntType::U16),
{
}

/// The jets that turn a `u32` into a `u64`.
pub open spec fn from_32_to_64_bits_jet(jet: Core) -> bool {
    jet is LeftExtend32_64 || jet is LeftPadHigh32_64 || jet is LeftPadLow32_64 || jet is RightExtend32_64 || jet is RightPadHigh32_64 || jet is RightPadLow32_64
}

/// The jets named `..32_64` take one `u32` and return a `u64`.
pub proof fn law_from_32_to_64_bits(jet: Core)
    requires
        from_32_to_64_bits_jet(jet),
    ensures
        spec_source_type(jet) == seq![TypeModel::UInt(UIntType::U32)],
        spec_target_type(jet) == TypeModel::UInt(UIntType::U64),
{
}

/// The jets that turn a `u64` into a `u1`.
pub open spec fn from_64_to_1_bits_jet(jet: Core) -> bool {
    jet is Leftmost64_1 || jet is Rightmost64_1
}

/// The jets named `..64_1` take one `u64` and return a `u1`.
pub proof fn law_from_64_to_1_bits(jet: Core)
    requires
        from_64_to_1_bits_jet(jet),
    ensures
        spec_source_type(jet) == seq![TypeModel::UInt(UIntType::U64)],
        spec_target_type(jet) == TypeModel::UInt(UIntType::U1),
{
}

/// The jets that turn a `u64` into a `u2`.
pub open spec fn from_64_to_2_bits_jet(jet: Core) -> bool {
    jet is Leftmost64_2 || jet is Rightmost64_2
}

/// The jets named `..64_2` take one `u64` and return a `u2`.
pub proof fn law_from_64_to_2_bits(jet: Core)
    requires
        from_64_to_2_bits_jet(jet),
    ensures
        spec_source_type(jet) == seq![TypeModel::UInt(UIntType::U64)],
        spec_target_type(jet) == TypeModel::UInt(UIntType::U2),
{
}

/// The jets that turn a `u64` into a `u4`.
pub open spec fn from_64_to_4_bits_jet(jet: Core) -> bool {
    jet is Leftmost64_4 || jet is Rightmost64_4
}

/// The jets named `..64_4` take one `u64` and return a `u4`.
pub proof fn law_from_64_to_4_bits(jet: Core)
    requires
        from_64_to_4_bits_jet(jet),
    ensures
        spec_source_type(jet) == seq![TypeModel::UInt(UIntType::U64)],
        spec_target_type(jet) == TypeModel::UInt(UIntType::U4),
{
}

/// The jets that turn a `u64` into a `u8`.
pub open spec fn from_64_to_8_bits_jet(jet: Core) -> bool {
    jet is Leftmost64_8 || jet is Rightmost64_8
}

/// The jets named `..64_8` take one `u64` and return a `u8`.
pub proof fn law_from_64_to_8_bits(jet: Core)
    requires
        from_64_to_8_bits_jet(jet),
    ensures
        spec_source_type(jet) == seq![TypeModel::UInt(UIntType::U64)],
        spec_target_type(jet) == TypeModel::UInt(UIntType::U8),
{
}

/// The jets that turn a `u64` into a `u16`.
pub open spec fn from_64_to_16_bits_jet(jet: Core) -> bool {
    jet is Leftmost64_16 || jet is Rightmost64_16
}

/// The jets named `..64_16` take one `u64` and return a `u16`.
pub proof fn law_from_64_to_16_bits(jet: Core)
    requires
        from_64_to_16_bits_jet(jet),
    ensures
        spec_source_type(jet) == seq![TypeModel::UInt(UIntType::U64)],
        spec_target_type(jet) == TypeModel::UInt(UIntType::U16),
{
}

/// The jets that turn a `u64` into a `u32`.
pub open spec fn from_64_to_32_bits_jet(jet: Core) -> bool {
    jet is Leftmost64_32 || jet is Rightmost64_32
}

/// The jets named `..64_32` take one `u64` and return a `u32`.
pub proof fn law_from_64_to_32_bits(jet: Core)
    requires
        from_64_to_32_bits_jet(jet),
    ensures
        spec_source_type(jet) == seq![TypeModel::UInt(UIntType::U64)],
        spec_target_type(jet) == TypeModel::UInt(UIntType::U32),
{
}

/// The full left shift of a `u8` by a `u1`.
pub open spec fn full_left_shift_8_1_jet(jet: Core) -> bool {
    jet is FullLeftShift8_1
}

/// The full left shift named `..8_1` works on a `u8` and a `u1`.
pub proof fn law_full_left_shift_8_1_widths(jet: Core)
    requires
        full_left_shift_8_1_jet(jet),
    ensures
        spec_source_type(jet) == seq![TypeModel::UInt(UIntType::U8), TypeModel::UInt(UIntType::U1)],
{
}

/// The full right shift of a `u8` by a `u1`.
pub open spec fn full_right_shift_8_1_jet(jet: Core) -> bool {
    jet is FullRightShift8_1
}

/// The full right shift named `..8_1` works on a `u8` and a `u1`.
pub proof fn law_full_right_shift_8_1_widths(jet: Core)
    requires
        full_right_shift_8_1_jet(jet),
    ensures
        spec_source_type(jet) == seq![TypeModel::UInt(UIntType::U1), TypeModel::UInt(UIntType::U8)],
{
}

/// The full left shift of a `u8` by a `u2`.
pub open spec fn full_left_shift_8_2_jet(jet: Core) -> bool {
    jet is FullLeftShift8_2
}

/// The full left shift named `..8_2` works on a `u8` and a `u2`.
pub proof fn law_full_left_shift_8_2_widths(jet: Core)
    requires
        full_left_shift_8_2_jet(jet),
    ensures
        spec_source_type(jet) == seq![TypeModel::UInt(UIntType::U8), TypeModel::UInt(UIntType::U2)],
{
}

/// The full right shift of a `u8` by a `u2`.
pub open spec fn full_right_shift_8_2_jet(jet: Core) -> bool {
    jet is FullRightShift8_2
}

/// The full right shift named `..8_2` works on a `u8` and a `u2`.
pub proof fn law_full_right_shift_8_2_widths(jet: Core)
    requires
        full_right_shift_8_2_jet(jet),
    ensures
        spec_source_type(jet) == seq![TypeModel::UInt(UIntType::U2), TypeModel::UInt(UIntType::U8)],
{
}

/// The full left shift of a `u8` by a `u4`.
pub open spec fn full_left_shift_8_4_jet(jet: Core) -> bool {
    jet is FullLeftShift8_4
}

/// The full left shift named `..8_4` works on a `u8` and a `u4`.
pub proof fn law_full_left_shift_8_4_widths(jet: Core)
    requires
        full_left_shift_8_4_jet(jet),
    ensures
        spec_source_type(jet) == seq![TypeModel::UInt(UIntType::U8), TypeModel::UInt(UIntType::U4)],
{
}

/// The full right shift of a `u8` by a `u4`.
pub open spec fn full_right_shift_8_4_jet(jet: Core) -> bool {
    jet is FullRightShift8_4
}

/// The full right shift named `..8_4` works on a `u8` and a `u4`.
pub proof fn law_full_right_shift_8_4_widths(jet: Core)
    requires
        full_right_shift_8_4_jet(jet),
    ensures
        spec_source_type(jet) == seq![TypeModel::UInt(UIntType::U4), TypeModel::UInt(UIntType::U8)],
{
}

/// The full left shift of a `u16` by a `u1`.
pub open spec fn full_left_shift_16_1_jet(jet: Core) -> bool {
    jet is FullLeftShift16_1
}

/// The full left shift named `..16_1` works on a `u16` and a `u1`.
pub proof fn law_full_left_shift_16_1_widths(jet: Core)
    requires
        full_left_shift_16_1_jet(jet),
    ensures
        spec_source_type(jet) == seq![TypeModel::UInt(UIntType::U16), TypeModel::UInt(UIntType::U1)],
{
}

/// The full right shift of a `u16` by a `u1`.
pub open spec fn full_right_shift_16_1_jet(jet: Core) -> bool {
    jet is FullRightShift16_1
}

/// The full right shift named `..16_1` works on a `u16` and a `u1`.
pub proof fn law_full_right_shift_16_1_widths(jet: Core)
    requires
        full_right_shift_16_1_jet(jet),
    ensures
        spec_source_type(jet) == seq![TypeModel::UInt(UIntType::U1), TypeModel::UInt(UIntType::U16)],
{
}

/// The full left shift of a `u16` by a `u2`.
pub open spec fn full_left_shift_16_2_jet(jet: Core) -> bool {
    jet is FullLeftShift16_2
}

/// The full left shift named `..16_2` works on a `u16` and a `u2`.
pub proof fn law_full_left_shift_16_2_widths(jet: Core)
    requires
        full_left_shift_16_2_jet(jet),
    ensures
        spec_source_type(jet) == seq![TypeModel::UInt(UIntType::U16), TypeModel::UInt(UIntType::U2)],
{
}

/// The full right shift of a `u16` by a `u2`.
pub open spec fn full_right_shift_16_2_jet(jet: Core) -> bool {
    jet is FullRightShift16_2
}

/// The full right shift named `..16_2` works on a `u16` and a `u2`.
pub proof fn law_full_right_shift_16_2_widths(jet: Core)
    requires
        full_right_shift_16_2_jet(jet),
    ensures
        spec_source_type(jet) == seq![TypeModel::UInt(UIntType::U2), TypeModel::UInt(UIntType::U16)],
{
}

/// The full left shift of a `u16` by a `u4`.
pub open spec fn full_left_shift_16_4_jet(jet: Core) -> bool {
    jet is FullLeftShift16_4
}

/// The full left shift named `..16_4` works on a `u16` and a `u4`.
pub proof fn law_full_left_shift_16_4_widths(jet: Core)
    requires
        full_left_shift_16_4_jet(jet),
    ensures
        spec_source_type(jet) == seq![TypeModel::UInt(UIntType::U16), TypeModel::UInt(UIntType::U4)],
{
}

/// The full right shift of a `u16` by a `u4`.
pub open spec fn full_right_shift_16_4_jet(jet: Core) -> bool {
    jet is FullRightShift16_4
}

/// The full right shift named `..16_4` works on a `u16` and a `u4`.
pub proof fn law_full_right_shift_16_4_widths(jet: Core)
    requires
        full_right_shift_16_4_jet(jet),
    ensures
        spec_source_type(jet) == seq![TypeModel::UInt(UIntType::U4), TypeModel::UInt(UIntType::U16)],
{
}

/// The full left shift of a `u16` by a `u8`.
pub open spec fn full_left_shift_16_8_jet(jet: Core) -> bool {
    jet is FullLeftShift16_8
}

/// The full left shift named `..16_8` works on a `u16` and a `u8`.
pub proof fn law_full_left_shift_16_8_widths(jet: Core)
    requires
        full_left_shift_16_8_jet(jet),
    ensures
        spec_source_type(jet) == seq![TypeModel::UInt(UIntType::U16), TypeModel::UInt(UIntType::U8)],
{
}

/// The full right shift of a `u16` by a `u8`.
pub open spec fn full_right_shift_16_8_jet(jet: Core) -> bool {
    jet is FullRightShift16_8
}

/// The full right shift named `..16_8` works on a `u16` and a `u8`.
pub proof fn law_full_right_shift_16_8_widths(jet: Core)
    requires
        full_right_shift_16_8_jet(jet),
    ensures
        spec_source_type(jet) == seq![TypeModel::UInt(UIntType::U8), TypeModel::UInt(UIntType::U16)],
{
}

/// The full left shift of a `u32` by a `u1`.
pub open spec fn full_left_shift_32_1_jet(jet: Core) -> bool {
    jet is FullLeftShift32_1
}

/// The full left shift named `..32_1` works on a `u32` and a `u1`.
pub proof fn law_full_left_shift_32_1_widths(jet: Core)
    requires
        full_left_shift_32_1_jet(jet),
    ensures
        spec_source_type(jet) == seq![TypeModel::UInt(UIntType::U32), TypeModel::UInt(UIntType::U1)],
{
}

/// The full right shift of a `u32` by a `u1`.
pub open spec fn full_right_shift_32_1_jet(jet: Core) -> bool {
    jet is FullRightShift32_1
}

/// The full right shift named `..32_1` works on a `u32` and a `u1`.
pub proof fn law_full_right_shift_32_1_widths(jet: Core)
    requires
        full_right_shift_32_1_jet(jet),
    ensures
        spec_source_type(jet) == seq![TypeModel::UInt(UIntType::U1), TypeModel::UInt(UIntType::U32)],
{
}

/// The full left shift of a `u32` by a `u2`.
pub open spec fn full_left_shift_32_2_jet(jet: Core) -> bool {
    jet is FullLeftShift32_2
}

/// The full left shift named `..32_2` works on a `u32` and a `u2`.
pub proof fn law_full_left_shift_32_2_widths(jet: Core)
    requires
        full_left_shift_32_2_jet(jet),
    ensures
        spec_source_type(jet) == seq![TypeModel::UInt(UIntType::U32), TypeModel::UInt(UIntType::U2)],
{
}

/// The full right shift of a `u32` by a `u2`.
pub open spec fn full_right_shift_32_2_jet(jet: Core) -> bool {
    jet is FullRightShift32_2
}

/// The full right shift named `..32_2` works on a `u32` and a `u2`.
pub proof fn law_full_right_shift_32_2_widths(jet: Core)
    requires
        full_right_shift_32_2_jet(jet),
    ensures
        spec_source_type(jet) == seq![TypeModel::UInt(UIntType::U2), TypeModel::UInt(UIntType::U32)],
{
}

/// The full left shift of a `u32` by a `u4`.
pub open spec fn full_left_shift_32_4_jet(jet: Core) -> bool {
    jet is FullLeftShift32_4
}

/// The full left shift named `..32_4` works on a `u32` and a `u4`.
pub proof fn law_full_left_shift_32_4_widths(jet: Core)
    requires
        full_left_shift_32_4_jet(jet),
    ensures
        spec_source_type(jet) == seq![TypeModel::UInt(UIntType::U32), TypeModel::UInt(UIntType::U4)],
{
}

/// The full right shift of a `u32` by a `u4`.
pub open spec fn full_right_shift_32_4_jet(jet: Core) -> bool {
    jet is FullRightShift32_4
}

/// The full right shift named `..32_4` works on a `u32` and a `u4`.
pub proof fn law_full_right_shift_32_4_widths(jet: Core)
    requires
        full_right_shift_32_4_jet(jet),
    ensures
        spec_source_type(jet) == seq![TypeModel::UInt(UIntType::U4), TypeModel::UInt(UIntType::U32)],
{
}

/// The full left shift of a `u32` by a `u8`.
pub open spec fn full_left_shift_32_8_jet(jet: Core) -> bool {
    jet is FullLeftShift32_8
}

/// The full left shift named `..32_8` works on a `u32` and a `u8`.
pub proof fn law_full_left_shift_32_8_widths(jet: Core)
    requires
        full_left_shift_32_8_jet(jet),
    ensures
        spec_source_type(jet) == seq![TypeModel::UInt(UIntType::U32), TypeModel::UInt(UIntType::U8)],
{
}

/// The full right shift of a `u32` by a `u8`.
pub open spec fn full_right_shift_32_8_jet(jet: Core) -> bool {
    jet is FullRightShift32_8
}

/// The full right shift named `..32_8` works on a `u32` and a `u8`.
pub proof fn law_full_right_shift_32_8_widths(jet: Core)
    requires
        full_right_shift_32_8_jet(jet),
    ensures
        spec_source_type(jet) == seq![TypeModel::UInt(UIntType::U8), TypeModel::UInt(UIntType::U32)],
{
}

/// The full left shift of a `u32` by a `u16`.
pub open spec fn full_left_shift_32_16_jet(jet: Core) -> bool {
    jet is FullLeftShift32_16
}

/// The full left shift named `..32_16` works on a `u32` and a `u16`.
pub proof fn law_full_left_shift_32_16_widths(jet: Core)
    requires
        full_left_shift_32_16_jet(jet),
    ensures
        spec_source_type(jet) == seq![TypeModel::UInt(UIntType::U32), TypeModel::UInt(UIntType::U16)],
{
}

/// The full right shift of a `u32` by a `u16`.
pub open spec fn full_right_shift_32_16_jet(jet: Core) -> bool {
    jet is FullRightShift32_16
}

/// The full right shift named `..32_16` works on a `u32` and a `u16`.
pub proof fn law_full_right_shift_32_16_widths(jet: Core)
    requires
        full_right_shift_32_16_jet(jet),
    ensures
        spec_source_type(jet) == seq![TypeModel::UInt(UIntType::U16), TypeModel::UInt(UIntType::U32)],
{
}

/// The full left shift of a `u64` by a `u1`.
pub open spec fn full_left_shift_64_1_jet(jet: Core) -> bool {
    jet is FullLeftShift64_1
}

/// The full left shift named `..64_1` works on a `u64` and a `u1`.
pub proof fn law_full_left_shift_64_1_widths(jet: Core)
    requires
        full_left_shift_64_1_jet(jet),
    ensures
        spec_source_type(jet) == seq![TypeModel::UInt(UIntType::U64), TypeModel::UInt(UIntType::U1)],
{
}

/// The full right shift of a `u64` by a `u1`.
pub open spec fn full_right_shift_64_1_jet(jet: Core) -> bool {
    jet is FullRightShift64_1
}

/// The full right shift named `..64_1` works on a `u64` and a `u1`.
pub proof fn law_full_right_shift_64_1_widths(jet: Core)
    requires
        full_right_shift_64_1_jet(jet),
    ensures
        spec_source_type(jet) == seq![TypeModel::UInt(UIntType::U1), TypeModel::UInt(UIntType::U64)],
{
}

/// The full left shift of a `u64` by a `u2`.
pub open spec fn full_left_shift_64_2_jet(jet: Core) -> bool {
    jet is FullLeftShift64_2
}

/// The full left shift named `..64_2` works on a `u64` and a `u2`.
pub proof fn law_full_left_shift_64_2_widths(jet: Core)
    requires
        full_left_shift_64_2_jet(jet),
    ensures
        spec_source_type(jet) == seq![TypeModel::UInt(UIntType::U64), TypeModel::UInt(UIntType::U2)],
{
}

/// The full right shift of a `u64` by a `u2`.
pub open spec fn full_right_shift_64_2_jet(jet: Core) -> bool {
    jet is FullRightShift64_2
}

/// The full right shift named `..64_2` works on a `u64` and a `u2`.
pub proof fn law_full_right_shift_64_2_widths(jet: Core)
    requires
        full_right_shift_64_2_jet(jet),
    ensures
        spec_source_type(jet) == seq![TypeModel::UInt(UIntType::U2), TypeModel::UInt(UIntType::U64)],
{
}

/// The full left shift of a `u64` by a `u4`.
pub open spec fn full_left_shift_64_4_jet(jet: Core) -> bool {
    jet is FullLeftShift64_4
}

/// The full left shift named `..64_4` works on a `u64` and a `u4`.
pub proof fn law_full_left_shift_64_4_widths(jet: Core)
    requires
        full_left_shift_64_4_jet(jet),
    ensures
        spec_source_type(jet) == seq![TypeModel::UInt(UIntType::U64), TypeModel::UInt(UIntType::U4)],
{
}

/// The full right shift of a `u64` by a `u4`.
pub open spec fn full_right_shift_64_4_jet(jet: Core) -> bool {
    jet is FullRightShift64_4
}

/// The full right shift named `..64_4` works on a `u64` and a `u4`.
pub proof fn law_full_right_shift_64_4_widths(jet: Core)
    requires
        full_right_shift_64_4_jet(jet),
    ensures
        spec_source_type(jet) == seq![TypeModel::UInt(UIntType::U4), TypeModel::UInt(UIntType::U64)],
{
}

/// The full left shift of a `u64` by a `u8`.
pub open spec fn full_left_shift_64_8_jet(jet: Core) -> bool {
    jet is FullLeftShift64_8
}

/// The full left shift named `..64_8` works on a `u64` and a `u8`.
pub proof fn law_full_left_shift_64_8_widths(jet: Core)
    requires
        full_left_shift_64_8_jet(jet),
    ensures
        spec_source_type(jet) == seq![TypeModel::UInt(UIntType::U64), TypeModel::UInt(UIntType::U8)],
{
}

/// The full right shift of a `u64` by a `u8`.
pub open spec fn full_right_shift_64_8_jet(jet: Core) -> bool {
    jet is FullRightShift64_8
}

/// The full right shift named `..64_8` works on a `u64` and a `u8`.
pub proof fn law_full_right_shift_64_8_widths(jet: Core)
    requires
        full_right_shift_64_8_jet(jet),
    ensures
        spec_source_type(jet) == seq![TypeModel::UInt(UIntType::U8), TypeModel::UInt(UIntType::U64)],
{
}

/// The full left shift of a `u64` by a `u16`.
pub open spec fn full_left_shift_64_16_jet(jet: Core) -> bool {
    jet is FullLeftShift64_16
}

/// The full left shift named `..64_16` works on a `u64` and a `u16`.
pub proof fn law_full_left_shift_64_16_widths(jet: Core)
    requires
        full_left_shift_64_16_jet(jet),
    ensures
        spec_source_type(jet) == seq![TypeModel::UInt(UIntType::U64), TypeModel::UInt(UIntType::U16)],
{
}

/// The full right shift of a `u64` by a `u16`.
pub open spec fn full_right_shift_64_16_jet(jet: Core) -> bool {
    jet is FullRightShift64_16
}

/// The full right shift named `..64_16` works on a `u64` and a `u16`.
pub proof fn law_full_right_shift_64_16_widths(jet: Core)
    requires
        full_right_shift_64_16_jet(jet),
    ensures
        spec_source_type(jet) == seq![TypeModel::UInt(UIntType::U16), TypeModel::UInt(UIntType::U64)],
{
}

/// The full left shift of a `u64` by a `u32`.
pub open spec fn full_left_shift_64_32_jet(jet: Core) -> bool {
    jet is FullLeftShift64_32
}

/// The full left shift named `..64_32` works on a `u64` and a `u32`.
pub proof fn law_full_left_shift_64_32_widths(jet: Core)
    requires
        full_left_shift_64_32_jet(jet),
    ensures
        spec_source_type(jet) == seq![TypeModel::UInt(UIntType::U64), TypeModel::UInt(UIntType::U32)],
{
}

/// The full right shift of a `u64` by a `u32`.
pub open spec fn full_right_shift_64_32_jet(jet: Core) -> bool {
    jet is FullRightShift64_32
}

/// The full right shift named `..64_32` works on a `u64` and a `u32`.
pub proof fn law_full_right_shift_64_32_widths(jet: Core)
    requires
        full_right_shift_64_32_jet(jet),
    ensures
        spec_source_type(jet) == seq![TypeModel::UInt(UIntType::U32), TypeModel::UInt(UIntType::U64)],
{
}

/// The field operations of one element that return an element.
pub open spec fn field_unary_op_jet(jet: Core) -> bool {
    jet is FeNormalize || jet is FeNegate || jet is FeSquare || jet is FeMultiplyBeta || jet is FeInvert
}

/// A field operation of one element takes one field element and returns one.
pub proof fn law_field_unary_op(jet: Core)
    requires
        field_unary_op_jet(jet),
    ensures
        spec_source_type(jet) == seq![TypeModel::Builtin(BuiltinAlias::Fe)],
        spec_target_type(jet) == TypeModel::Builtin(BuiltinAlias::Fe),
{
}

/// The field operations of two elements.
pub open spec fn field_binary_op_jet(jet: Core) -> bool {
    jet is FeAdd || jet is FeMultiply
}

/// Adding or multiplying field elements takes two and returns one.
pub proof fn law_field_binary_op(jet: Core)
    requires
        field_binary_op_jet(jet),
    ensures
        spec_source_type(jet) == seq![TypeModel::Builtin(BuiltinAlias::Fe), TypeModel::Builtin(BuiltinAlias::Fe)],
        spec_target_type(jet) == TypeModel::Builtin(BuiltinAlias::Fe),
{
}

/// The tests of a field element.
pub open spec fn field_test_jet(jet: Core) -> bool {
    jet is FeIsZero || jet is FeIsOdd
}

/// A test of a field element takes one and returns a boolean.
pub proof fn law_field_test(jet: Core)
    requires
        field_test_jet(jet),
    ensures
        spec_source_type(jet) == seq![TypeModel::Builtin(BuiltinAlias::Fe)],
        spec_target_type(jet) == TypeModel::Boolean,
{
}

/// The scalar operations of one scalar that return a scalar.
pub open spec fn scalar_unary_op_jet(jet: Core) -> bool {
    jet is ScalarNormalize || jet is ScalarNegate || jet is ScalarSquare || jet is ScalarInvert || jet is ScalarMultiplyLambda
}

/// A scalar operation of one scalar takes one scalar and returns one.
pub proof fn law_scalar_unary_op(jet: Core)
    requires
        scalar_unary_op_jet(jet),
    ensures
        spec_source_type(jet) == seq![TypeModel::Builtin(BuiltinAlias::Scalar)],
        spec_target_type(jet) == TypeModel::Builtin(BuiltinAlias::Scalar),
{
}

/// The scalar operations of two scalars.
pub open spec fn scalar_binary_op_jet(jet: Core) -> bool {
    jet is ScalarAdd || jet is ScalarMultiply
}

/// Adding or multiplying scalars takes two and returns one.
pub proof fn law_scalar_binary_op(jet: Core)
    requires
        scalar_binary_op_jet(jet),
    ensures
        spec_source_type(jet) == seq![TypeModel::Builtin(BuiltinAlias::Scalar), TypeModel::Builtin(BuiltinAlias::Scalar)],
        spec_target_type(jet) == TypeModel::Builtin(BuiltinAlias::Scalar),
{
}

/// The operations of one point in Jacobian coordinates that return such a point.
pub open spec fn gej_unary_op_jet(jet: Core) -> bool {
    jet is GejNegate || jet is GejDouble
}

/// Negating or doubling a point in Jacobian coordinates takes one such point and returns one.
pub proof fn law_gej_unary_op(jet: Core)
    requires
        gej_unary_op_jet(jet),
    ensures
        spec_source_type(jet) == seq![TypeModel::Builtin(BuiltinAlias::Gej)],
        spec_target_type(jet) == TypeModel::Builtin(BuiltinAlias::Gej),
{
}

/// The tests of one point in Jacobian coordinates.
pub open spec fn gej_test_jet(jet: Core) -> bool {
    jet is GejIsInfinity || jet is GejYIsOdd || jet is GejIsOnCurve
}

/// A test of a point in Jacobian coordinates takes one such point and returns a boolean.
pub proof fn law_gej_test(jet: Core)
    requires
        gej_test_jet(jet),
    ensures
        spec_source_type(jet) == seq![TypeModel::Builtin(BuiltinAlias::Gej)],
        spec_target_type(jet) == TypeModel::Boolean,
{
}

/// The jets that add a whole integer of bytes to a hash context.
pub open spec fn sha256_add_word_jet(jet: Core) -> bool {
    jet is Sha256Ctx8Add1 || jet is Sha256Ctx8Add2 || jet is Sha256Ctx8Add4 || jet is Sha256Ctx8Add8 || jet is Sha256Ctx8Add16 || jet is Sha256Ctx8Add32
}

/// Adding bytes to a hash context takes the context and an integer and returns the context.
pub proof fn law_sha256_add_word(jet: Core)
    requires
        sha256_add_word_jet(jet),
    ensures
        spec_source_type(jet).len() == 2,
        spec_source_type(jet)[0] == TypeModel::Builtin(BuiltinAlias::Ctx8),
        spec_source_type(jet)[1] is UInt,
        spec_target_type(jet) == TypeModel::Builtin(BuiltinAlias::Ctx8),
{
}

/// The jets that add an array of bytes to a hash context.
pub open spec fn sha256_add_array_jet(jet: Core) -> bool {
    jet is Sha256Ctx8Add64 || jet is Sha256Ctx8Add128 || jet is Sha256Ctx8Add256 || jet is Sha256Ctx8Add512
}

/// Adding an array of bytes to a hash context takes the context and the array and returns the context.
pub proof fn law_sha256_add_array(jet: Core)
    requires
        sha256_add_array_jet(jet),
    ensures
        spec_source_type(jet).len() == 2,
        spec_source_type(jet)[0] == TypeModel::Builtin(BuiltinAlias::Ctx8),
        spec_source_type(jet)[1] matches TypeModel::Array(e, _) && *e == TypeModel::UInt(UIntType::U8),
        spec_target_type(jet) == TypeModel::Builtin(BuiltinAlias::Ctx8),
{
}

/// The jet `sha_256_ctx_8_add_N` adds `N` bytes to a hash context: an integer
/// of `8 * N` bits for up to 32 bytes, an array of `N` bytes beyond; the
/// buffer jet adds a list of fewer than 512 bytes.
pub proof fn law_sha256_add_byte_count(jet: Core)
    ensures
        jet is Sha256Ctx8Add1 ==> spec_source_type(jet)[1] == TypeModel::UInt(UIntType::U8),
        jet is Sha256Ctx8Add2 ==> spec_source_type(jet)[1] == TypeModel::UInt(UIntType::U16),
        jet is Sha256Ctx8Add4 ==> spec_source_type(jet)[1] == TypeModel::UInt(UIntType::U32),
        jet is Sha256Ctx8Add8 ==> spec_source_type(jet)[1] == TypeModel::UInt(UIntType::U64),
        jet is Sha256Ctx8Add16 ==> spec_source_type(jet)[1] == TypeModel::UInt(UIntType::U128),
        jet is Sha256Ctx8Add32 ==> spec_source_type(jet)[1] == TypeModel::UInt(UIntType::U256),
        jet is Sha256Ctx8Add64 ==> spec_source_type(jet)[1] == model_array(TypeModel::UInt(UIntType::U8), 64),
        jet is Sha256Ctx8Add128 ==> spec_source_type(jet)[1] == model_array(TypeModel::UInt(UIntType::U8), 128),
        jet is Sha256Ctx8Add256 ==> spec_source_type(jet)[1] == model_array(TypeModel::UInt(UIntType::U8), 256),
        jet is Sha256Ctx8Add512 ==> spec_source_type(jet)[1] == model_array(TypeModel::UInt(UIntType::U8), 512),
        jet is Sha256Ctx8AddBuffer511 ==> spec_source_type(jet) == seq![TypeModel::Builtin(BuiltinAlias::Ctx8), model_list(TypeModel::UInt(UIntType::U8), 512)],
{
}

} // verus!
