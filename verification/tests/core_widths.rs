use std::sync::Arc;

use simplicity::jet::{Core as Sc, Jet};
use simplicity::types::Final;
use simplicityhl::core_jets::{self, Core as Lc};
use simplicityhl::types::{ResolvedType, UIntType};

fn to_library(jet: Sc) -> Lc {
    match jet {
        Sc::Add16 => Lc::Add16,
        Sc::Add32 => Lc::Add32,
        Sc::Add64 => Lc::Add64,
        Sc::Add8 => Lc::Add8,
        Sc::All16 => Lc::All16,
        Sc::All32 => Lc::All32,
        Sc::All64 => Lc::All64,
        Sc::All8 => Lc::All8,
        Sc::And1 => Lc::And1,
        Sc::And16 => Lc::And16,
        Sc::And32 => Lc::And32,
        Sc::And64 => Lc::And64,
        Sc::And8 => Lc::And8,
        Sc::Bip0340Verify => Lc::Bip0340Verify,
        Sc::Ch1 => Lc::Ch1,
        Sc::Ch16 => Lc::Ch16,
        Sc::Ch32 => Lc::Ch32,
        Sc::Ch64 => Lc::Ch64,
        Sc::Ch8 => Lc::Ch8,
        Sc::CheckSigVerify => Lc::CheckSigVerify,
        Sc::Complement1 => Lc::Complement1,
        Sc::Complement16 => Lc::Complement16,
        Sc::Complement32 => Lc::Complement32,
        Sc::Complement64 => Lc::Complement64,
        Sc::Complement8 => Lc::Complement8,
        Sc::Decompress => Lc::Decompress,
        Sc::Decrement16 => Lc::Decrement16,
        Sc::Decrement32 => Lc::Decrement32,
        Sc::Decrement64 => Lc::Decrement64,
        Sc::Decrement8 => Lc::Decrement8,
        Sc::DivMod128_64 => Lc::DivMod128_64,
        Sc::DivMod16 => Lc::DivMod16,
        Sc::DivMod32 => Lc::DivMod32,
        Sc::DivMod64 => Lc::DivMod64,
        Sc::DivMod8 => Lc::DivMod8,
        Sc::Divide16 => Lc::Divide16,
        Sc::Divide32 => Lc::Divide32,
        Sc::Divide64 => Lc::Divide64,
        Sc::Divide8 => Lc::Divide8,
        Sc::Divides16 => Lc::Divides16,
        Sc::Divides32 => Lc::Divides32,
        Sc::Divides64 => Lc::Divides64,
        Sc::Divides8 => Lc::Divides8,
        Sc::Eq1 => Lc::Eq1,
        Sc::Eq16 => Lc::Eq16,
        Sc::Eq256 => Lc::Eq256,
        Sc::Eq32 => Lc::Eq32,
        Sc::Eq64 => Lc::Eq64,
        Sc::Eq8 => Lc::Eq8,
        Sc::FeAdd => Lc::FeAdd,
        Sc::FeInvert => Lc::FeInvert,
        Sc::FeIsOdd => Lc::FeIsOdd,
        Sc::FeIsZero => Lc::FeIsZero,
        Sc::FeMultiply => Lc::FeMultiply,
        Sc::FeMultiplyBeta => Lc::FeMultiplyBeta,
        Sc::FeNegate => Lc::FeNegate,
        Sc::FeNormalize => Lc::FeNormalize,
        Sc::FeSquare => Lc::FeSquare,
        Sc::FeSquareRoot => Lc::FeSquareRoot,
        Sc::FullAdd16 => Lc::FullAdd16,
        Sc::FullAdd32 => Lc::FullAdd32,
        Sc::FullAdd64 => Lc::FullAdd64,
        Sc::FullAdd8 => Lc::FullAdd8,
        Sc::FullDecrement16 => Lc::FullDecrement16,
        Sc::FullDecrement32 => Lc::FullDecrement32,
        Sc::FullDecrement64 => Lc::FullDecrement64,
        Sc::FullDecrement8 => Lc::FullDecrement8,
        Sc::FullIncrement16 => Lc::FullIncrement16,
        Sc::FullIncrement32 => Lc::FullIncrement32,
        Sc::FullIncrement64 => Lc::FullIncrement64,
        Sc::FullIncrement8 => Lc::FullIncrement8,
        Sc::FullLeftShift16_1 => Lc::FullLeftShift16_1,
        Sc::FullLeftShift16_2 => Lc::FullLeftShift16_2,
        Sc::FullLeftShift16_4 => Lc::FullLeftShift16_4,
        Sc::FullLeftShift16_8 => Lc::FullLeftShift16_8,
        Sc::FullLeftShift32_1 => Lc::FullLeftShift32_1,
        Sc::FullLeftShift32_16 => Lc::FullLeftShift32_16,
        Sc::FullLeftShift32_2 => Lc::FullLeftShift32_2,
        Sc::FullLeftShift32_4 => Lc::FullLeftShift32_4,
        Sc::FullLeftShift32_8 => Lc::FullLeftShift32_8,
        Sc::FullLeftShift64_1 => Lc::FullLeftShift64_1,
        Sc::FullLeftShift64_16 => Lc::FullLeftShift64_16,
        Sc::FullLeftShift64_2 => Lc::FullLeftShift64_2,
        Sc::FullLeftShift64_32 => Lc::FullLeftShift64_32,
        Sc::FullLeftShift64_4 => Lc::FullLeftShift64_4,
        Sc::FullLeftShift64_8 => Lc::FullLeftShift64_8,
        Sc::FullLeftShift8_1 => Lc::FullLeftShift8_1,
        Sc::FullLeftShift8_2 => Lc::FullLeftShift8_2,
        Sc::FullLeftShift8_4 => Lc::FullLeftShift8_4,
        Sc::FullMultiply16 => Lc::FullMultiply16,
        Sc::FullMultiply32 => Lc::FullMultiply32,
        Sc::FullMultiply64 => Lc::FullMultiply64,
        Sc::FullMultiply8 => Lc::FullMultiply8,
        Sc::FullRightShift16_1 => Lc::FullRightShift16_1,
        Sc::FullRightShift16_2 => Lc::FullRightShift16_2,
        Sc::FullRightShift16_4 => Lc::FullRightShift16_4,
        Sc::FullRightShift16_8 => Lc::FullRightShift16_8,
        Sc::FullRightShift32_1 => Lc::FullRightShift32_1,
        Sc::FullRightShift32_16 => Lc::FullRightShift32_16,
        Sc::FullRightShift32_2 => Lc::FullRightShift32_2,
        Sc::FullRightShift32_4 => Lc::FullRightShift32_4,
        Sc::FullRightShift32_8 => Lc::FullRightShift32_8,
        Sc::FullRightShift64_1 => Lc::FullRightShift64_1,
        Sc::FullRightShift64_16 => Lc::FullRightShift64_16,
        Sc::FullRightShift64_2 => Lc::FullRightShift64_2,
        Sc::FullRightShift64_32 => Lc::FullRightShift64_32,
        Sc::FullRightShift64_4 => Lc::FullRightShift64_4,
        Sc::FullRightShift64_8 => Lc::FullRightShift64_8,
        Sc::FullRightShift8_1 => Lc::FullRightShift8_1,
        Sc::FullRightShift8_2 => Lc::FullRightShift8_2,
        Sc::FullRightShift8_4 => Lc::FullRightShift8_4,
        Sc::FullSubtract16 => Lc::FullSubtract16,
        Sc::FullSubtract32 => Lc::FullSubtract32,
        Sc::FullSubtract64 => Lc::FullSubtract64,
        Sc::FullSubtract8 => Lc::FullSubtract8,
        Sc::GeIsOnCurve => Lc::GeIsOnCurve,
        Sc::GeNegate => Lc::GeNegate,
        Sc::GejAdd => Lc::GejAdd,
        Sc::GejDouble => Lc::GejDouble,
        Sc::GejEquiv => Lc::GejEquiv,
        Sc::GejGeAdd => Lc::GejGeAdd,
        Sc::GejGeAddEx => Lc::GejGeAddEx,
        Sc::GejGeEquiv => Lc::GejGeEquiv,
        Sc::GejInfinity => Lc::GejInfinity,
        Sc::GejIsInfinity => Lc::GejIsInfinity,
        Sc::GejIsOnCurve => Lc::GejIsOnCurve,
        Sc::GejNegate => Lc::GejNegate,
        Sc::GejNormalize => Lc::GejNormalize,
        Sc::GejRescale => Lc::GejRescale,
        Sc::GejXEquiv => Lc::GejXEquiv,
        Sc::GejYIsOdd => Lc::GejYIsOdd,
        Sc::Generate => Lc::Generate,
        Sc::HashToCurve => Lc::HashToCurve,
        Sc::High1 => Lc::High1,
        Sc::High16 => Lc::High16,
        Sc::High32 => Lc::High32,
        Sc::High64 => Lc::High64,
        Sc::High8 => Lc::High8,
        Sc::Increment16 => Lc::Increment16,
        Sc::Increment32 => Lc::Increment32,
        Sc::Increment64 => Lc::Increment64,
        Sc::Increment8 => Lc::Increment8,
        Sc::IsOne16 => Lc::IsOne16,
        Sc::IsOne32 => Lc::IsOne32,
        Sc::IsOne64 => Lc::IsOne64,
        Sc::IsOne8 => Lc::IsOne8,
        Sc::IsZero16 => Lc::IsZero16,
        Sc::IsZero32 => Lc::IsZero32,
        Sc::IsZero64 => Lc::IsZero64,
        Sc::IsZero8 => Lc::IsZero8,
        Sc::Le16 => Lc::Le16,
        Sc::Le32 => Lc::Le32,
        Sc::Le64 => Lc::Le64,
        Sc::Le8 => Lc::Le8,
        Sc::LeftExtend16_32 => Lc::LeftExtend16_32,
        Sc::LeftExtend16_64 => Lc::LeftExtend16_64,
        Sc::LeftExtend1_16 => Lc::LeftExtend1_16,
        Sc::LeftExtend1_32 => Lc::LeftExtend1_32,
        Sc::LeftExtend1_64 => Lc::LeftExtend1_64,
        Sc::LeftExtend1_8 => Lc::LeftExtend1_8,
        Sc::LeftExtend32_64 => Lc::LeftExtend32_64,
        Sc::LeftExtend8_16 => Lc::LeftExtend8_16,
        Sc::LeftExtend8_32 => Lc::LeftExtend8_32,
        Sc::LeftExtend8_64 => Lc::LeftExtend8_64,
        Sc::LeftPadHigh16_32 => Lc::LeftPadHigh16_32,
        Sc::LeftPadHigh16_64 => Lc::LeftPadHigh16_64,
        Sc::LeftPadHigh1_16 => Lc::LeftPadHigh1_16,
        Sc::LeftPadHigh1_32 => Lc::LeftPadHigh1_32,
        Sc::LeftPadHigh1_64 => Lc::LeftPadHigh1_64,
        Sc::LeftPadHigh1_8 => Lc::LeftPadHigh1_8,
        Sc::LeftPadHigh32_64 => Lc::LeftPadHigh32_64,
        Sc::LeftPadHigh8_16 => Lc::LeftPadHigh8_16,
        Sc::LeftPadHigh8_32 => Lc::LeftPadHigh8_32,
        Sc::LeftPadHigh8_64 => Lc::LeftPadHigh8_64,
        Sc::LeftPadLow16_32 => Lc::LeftPadLow16_32,
        Sc::LeftPadLow16_64 => Lc::LeftPadLow16_64,
        Sc::LeftPadLow1_16 => Lc::LeftPadLow1_16,
        Sc::LeftPadLow1_32 => Lc::LeftPadLow1_32,
        Sc::LeftPadLow1_64 => Lc::LeftPadLow1_64,
        Sc::LeftPadLow1_8 => Lc::LeftPadLow1_8,
        Sc::LeftPadLow32_64 => Lc::LeftPadLow32_64,
        Sc::LeftPadLow8_16 => Lc::LeftPadLow8_16,
        Sc::LeftPadLow8_32 => Lc::LeftPadLow8_32,
        Sc::LeftPadLow8_64 => Lc::LeftPadLow8_64,
        Sc::LeftRotate16 => Lc::LeftRotate16,
        Sc::LeftRotate32 => Lc::LeftRotate32,
        Sc::LeftRotate64 => Lc::LeftRotate64,
        Sc::LeftRotate8 => Lc::LeftRotate8,
        Sc::LeftShift16 => Lc::LeftShift16,
        Sc::LeftShift32 => Lc::LeftShift32,
        Sc::LeftShift64 => Lc::LeftShift64,
        Sc::LeftShift8 => Lc::LeftShift8,
        Sc::LeftShiftWith16 => Lc::LeftShiftWith16,
        Sc::LeftShiftWith32 => Lc::LeftShiftWith32,
        Sc::LeftShiftWith64 => Lc::LeftShiftWith64,
        Sc::LeftShiftWith8 => Lc::LeftShiftWith8,
        Sc::Leftmost16_1 => Lc::Leftmost16_1,
        Sc::Leftmost16_2 => Lc::Leftmost16_2,
        Sc::Leftmost16_4 => Lc::Leftmost16_4,
        Sc::Leftmost16_8 => Lc::Leftmost16_8,
        Sc::Leftmost32_1 => Lc::Leftmost32_1,
        Sc::Leftmost32_16 => Lc::Leftmost32_16,
        Sc::Leftmost32_2 => Lc::Leftmost32_2,
        Sc::Leftmost32_4 => Lc::Leftmost32_4,
        Sc::Leftmost32_8 => Lc::Leftmost32_8,
        Sc::Leftmost64_1 => Lc::Leftmost64_1,
        Sc::Leftmost64_16 => Lc::Leftmost64_16,
        Sc::Leftmost64_2 => Lc::Leftmost64_2,
        Sc::Leftmost64_32 => Lc::Leftmost64_32,
        Sc::Leftmost64_4 => Lc::Leftmost64_4,
        Sc::Leftmost64_8 => Lc::Leftmost64_8,
        Sc::Leftmost8_1 => Lc::Leftmost8_1,
        Sc::Leftmost8_2 => Lc::Leftmost8_2,
        Sc::Leftmost8_4 => Lc::Leftmost8_4,
        Sc::LinearCombination1 => Lc::LinearCombination1,
        Sc::LinearVerify1 => Lc::LinearVerify1,
        Sc::Low1 => Lc::Low1,
        Sc::Low16 => Lc::Low16,
        Sc::Low32 => Lc::Low32,
        Sc::Low64 => Lc::Low64,
        Sc::Low8 => Lc::Low8,
        Sc::Lt16 => Lc::Lt16,
        Sc::Lt32 => Lc::Lt32,
        Sc::Lt64 => Lc::Lt64,
        Sc::Lt8 => Lc::Lt8,
        Sc::Maj1 => Lc::Maj1,
        Sc::Maj16 => Lc::Maj16,
        Sc::Maj32 => Lc::Maj32,
        Sc::Maj64 => Lc::Maj64,
        Sc::Maj8 => Lc::Maj8,
        Sc::Max16 => Lc::Max16,
        Sc::Max32 => Lc::Max32,
        Sc::Max64 => Lc::Max64,
        Sc::Max8 => Lc::Max8,
        Sc::Median16 => Lc::Median16,
        Sc::Median32 => Lc::Median32,
        Sc::Median64 => Lc::Median64,
        Sc::Median8 => Lc::Median8,
        Sc::Min16 => Lc::Min16,
        Sc::Min32 => Lc::Min32,
        Sc::Min64 => Lc::Min64,
        Sc::Min8 => Lc::Min8,
        Sc::Modulo16 => Lc::Modulo16,
        Sc::Modulo32 => Lc::Modulo32,
        Sc::Modulo64 => Lc::Modulo64,
        Sc::Modulo8 => Lc::Modulo8,
        Sc::Multiply16 => Lc::Multiply16,
        Sc::Multiply32 => Lc::Multiply32,
        Sc::Multiply64 => Lc::Multiply64,
        Sc::Multiply8 => Lc::Multiply8,
        Sc::Negate16 => Lc::Negate16,
        Sc::Negate32 => Lc::Negate32,
        Sc::Negate64 => Lc::Negate64,
        Sc::Negate8 => Lc::Negate8,
        Sc::One16 => Lc::One16,
        Sc::One32 => Lc::One32,
        Sc::One64 => Lc::One64,
        Sc::One8 => Lc::One8,
        Sc::Or1 => Lc::Or1,
        Sc::Or16 => Lc::Or16,
        Sc::Or32 => Lc::Or32,
        Sc::Or64 => Lc::Or64,
        Sc::Or8 => Lc::Or8,
        Sc::ParseLock => Lc::ParseLock,
        Sc::ParseSequence => Lc::ParseSequence,
        Sc::PointVerify1 => Lc::PointVerify1,
        Sc::RightExtend16_32 => Lc::RightExtend16_32,
        Sc::RightExtend16_64 => Lc::RightExtend16_64,
        Sc::RightExtend32_64 => Lc::RightExtend32_64,
        Sc::RightExtend8_16 => Lc::RightExtend8_16,
        Sc::RightExtend8_32 => Lc::RightExtend8_32,
        Sc::RightExtend8_64 => Lc::RightExtend8_64,
        Sc::RightPadHigh16_32 => Lc::RightPadHigh16_32,
        Sc::RightPadHigh16_64 => Lc::RightPadHigh16_64,
        Sc::RightPadHigh1_16 => Lc::RightPadHigh1_16,
        Sc::RightPadHigh1_32 => Lc::RightPadHigh1_32,
        Sc::RightPadHigh1_64 => Lc::RightPadHigh1_64,
        Sc::RightPadHigh1_8 => Lc::RightPadHigh1_8,
        Sc::RightPadHigh32_64 => Lc::RightPadHigh32_64,
        Sc::RightPadHigh8_16 => Lc::RightPadHigh8_16,
        Sc::RightPadHigh8_32 => Lc::RightPadHigh8_32,
        Sc::RightPadHigh8_64 => Lc::RightPadHigh8_64,
        Sc::RightPadLow16_32 => Lc::RightPadLow16_32,
        Sc::RightPadLow16_64 => Lc::RightPadLow16_64,
        Sc::RightPadLow1_16 => Lc::RightPadLow1_16,
        Sc::RightPadLow1_32 => Lc::RightPadLow1_32,
        Sc::RightPadLow1_64 => Lc::RightPadLow1_64,
        Sc::RightPadLow1_8 => Lc::RightPadLow1_8,
        Sc::RightPadLow32_64 => Lc::RightPadLow32_64,
        Sc::RightPadLow8_16 => Lc::RightPadLow8_16,
        Sc::RightPadLow8_32 => Lc::RightPadLow8_32,
        Sc::RightPadLow8_64 => Lc::RightPadLow8_64,
        Sc::RightRotate16 => Lc::RightRotate16,
        Sc::RightRotate32 => Lc::RightRotate32,
        Sc::RightRotate64 => Lc::RightRotate64,
        Sc::RightRotate8 => Lc::RightRotate8,
        Sc::RightShift16 => Lc::RightShift16,
        Sc::RightShift32 => Lc::RightShift32,
        Sc::RightShift64 => Lc::RightShift64,
        Sc::RightShift8 => Lc::RightShift8,
        Sc::RightShiftWith16 => Lc::RightShiftWith16,
        Sc::RightShiftWith32 => Lc::RightShiftWith32,
        Sc::RightShiftWith64 => Lc::RightShiftWith64,
        Sc::RightShiftWith8 => Lc::RightShiftWith8,
        Sc::Rightmost16_1 => Lc::Rightmost16_1,
        Sc::Rightmost16_2 => Lc::Rightmost16_2,
        Sc::Rightmost16_4 => Lc::Rightmost16_4,
        Sc::Rightmost16_8 => Lc::Rightmost16_8,
        Sc::Rightmost32_1 => Lc::Rightmost32_1,
        Sc::Rightmost32_16 => Lc::Rightmost32_16,
        Sc::Rightmost32_2 => Lc::Rightmost32_2,
        Sc::Rightmost32_4 => Lc::Rightmost32_4,
        Sc::Rightmost32_8 => Lc::Rightmost32_8,
        Sc::Rightmost64_1 => Lc::Rightmost64_1,
        Sc::Rightmost64_16 => Lc::Rightmost64_16,
        Sc::Rightmost64_2 => Lc::Rightmost64_2,
        Sc::Rightmost64_32 => Lc::Rightmost64_32,
        Sc::Rightmost64_4 => Lc::Rightmost64_4,
        Sc::Rightmost64_8 => Lc::Rightmost64_8,
        Sc::Rightmost8_1 => Lc::Rightmost8_1,
        Sc::Rightmost8_2 => Lc::Rightmost8_2,
        Sc::Rightmost8_4 => Lc::Rightmost8_4,
        Sc::ScalarAdd => Lc::ScalarAdd,
        Sc::ScalarInvert => Lc::ScalarInvert,
        Sc::ScalarIsZero => Lc::ScalarIsZero,
        Sc::ScalarMultiply => Lc::ScalarMultiply,
        Sc::ScalarMultiplyLambda => Lc::ScalarMultiplyLambda,
        Sc::ScalarNegate => Lc::ScalarNegate,
        Sc::ScalarNormalize => Lc::ScalarNormalize,
        Sc::ScalarSquare => Lc::ScalarSquare,
        Sc::Scale => Lc::Scale,
        Sc::Sha256Block => Lc::Sha256Block,
        Sc::Sha256Ctx8Add1 => Lc::Sha256Ctx8Add1,
        Sc::Sha256Ctx8Add128 => Lc::Sha256Ctx8Add128,
        Sc::Sha256Ctx8Add16 => Lc::Sha256Ctx8Add16,
        Sc::Sha256Ctx8Add2 => Lc::Sha256Ctx8Add2,
        Sc::Sha256Ctx8Add256 => Lc::Sha256Ctx8Add256,
        Sc::Sha256Ctx8Add32 => Lc::Sha256Ctx8Add32,
        Sc::Sha256Ctx8Add4 => Lc::Sha256Ctx8Add4,
        Sc::Sha256Ctx8Add512 => Lc::Sha256Ctx8Add512,
        Sc::Sha256Ctx8Add64 => Lc::Sha256Ctx8Add64,
        Sc::Sha256Ctx8Add8 => Lc::Sha256Ctx8Add8,
        Sc::Sha256Ctx8AddBuffer511 => Lc::Sha256Ctx8AddBuffer511,
        Sc::Sha256Ctx8Finalize => Lc::Sha256Ctx8Finalize,
        Sc::Sha256Ctx8Init => Lc::Sha256Ctx8Init,
        Sc::Sha256Iv => Lc::Sha256Iv,
        Sc::Some1 => Lc::Some1,
        Sc::Some16 => Lc::Some16,
        Sc::Some32 => Lc::Some32,
        Sc::Some64 => Lc::Some64,
        Sc::Some8 => Lc::Some8,
        Sc::Subtract16 => Lc::Subtract16,
        Sc::Subtract32 => Lc::Subtract32,
        Sc::Subtract64 => Lc::Subtract64,
        Sc::Subtract8 => Lc::Subtract8,
        Sc::Swu => Lc::Swu,
        Sc::TapdataInit => Lc::TapdataInit,
        Sc::Verify => Lc::Verify,
        Sc::Xor1 => Lc::Xor1,
        Sc::Xor16 => Lc::Xor16,
        Sc::Xor32 => Lc::Xor32,
        Sc::Xor64 => Lc::Xor64,
        Sc::Xor8 => Lc::Xor8,
        Sc::XorXor1 => Lc::XorXor1,
        Sc::XorXor16 => Lc::XorXor16,
        Sc::XorXor32 => Lc::XorXor32,
        Sc::XorXor64 => Lc::XorXor64,
        Sc::XorXor8 => Lc::XorXor8,
    }
}

fn uint_width(u: UIntType) -> usize {
    u.bit_width()
}

/// The Simplicity type that a SimplicityHL type stands for: a tuple is a
/// balanced tree of products whose left half holds the smaller half of its
/// elements, an array a balanced tree
/// of products, a list of fewer than `2^(k+1)` elements an optional block of
/// `2^k` elements beside a list of fewer than `2^k`, an option the sum of unit
/// and its type.
fn structural(ty: &ResolvedType) -> Arc<Final> {
    match ty {
        ResolvedType::Boolean => Final::u1(),
        ResolvedType::UInt(u) => Final::two_two_n(uint_width(*u).trailing_zeros() as usize).expect("small word"),
        ResolvedType::Tuple(es) => {
            let parts: Vec<Arc<Final>> = es.iter().map(structural).collect();
            tuple(&parts)
        }
        ResolvedType::Array(e, n) => array(&structural(e), *n),
        ResolvedType::List(e, bound) => list(&structural(e), *bound),
        ResolvedType::Either(l, r) => Final::sum(structural(l), structural(r)),
        ResolvedType::Option(e) => Final::sum(Final::unit(), structural(e)),
    }
}

fn tuple(parts: &[Arc<Final>]) -> Arc<Final> {
    match parts.len() {
        0 => Final::unit(),
        1 => parts[0].clone(),
        n => Final::product(tuple(&parts[..n / 2]), tuple(&parts[n / 2..])),
    }
}

fn array(element: &Arc<Final>, size: usize) -> Arc<Final> {
    match size {
        0 => Final::unit(),
        1 => element.clone(),
        n => {
            let half = n.next_power_of_two() / 2;
            Final::product(array(element, half), array(element, n - half))
        }
    }
}

fn list(element: &Arc<Final>, bound: usize) -> Arc<Final> {
    if bound <= 2 {
        Final::sum(Final::unit(), element.clone())
    } else {
        let half = bound / 2;
        Final::product(Final::sum(Final::unit(), array(element, half)), list(element, half))
    }
}

#[test]
fn core_compatible_source_type() {
    for jet in Sc::ALL {
        let args: Vec<ResolvedType> = core_jets::source_type(to_library(jet))
            .iter()
            .map(|t| t.resolve_builtin().expect("core jet types use builtin aliases only"))
            .collect();
        let ours = structural(&ResolvedType::Tuple(args));
        let theirs = jet.source_ty().to_final();
        assert!(ours.as_ref() == theirs.as_ref(), "{jet}");
    }
}

#[test]
fn core_compatible_target_type() {
    for jet in Sc::ALL {
        let ty = core_jets::target_type(to_library(jet));
        let ours = structural(&ty.resolve_builtin().expect("core jet types use builtin aliases only"));
        let theirs = jet.target_ty().to_final();
        assert!(ours.as_ref() == theirs.as_ref(), "{jet}");
    }
}
