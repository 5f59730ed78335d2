//! Reading SimplicityHL types from their canonical text form.
use vstd::prelude::*;

use crate::text::{
    bool_word, comma_space, decimal, digit_byte, either_word, list_word, option_word,
    semicolon_space, type_text, items_text, write_decimal,
};
use crate::types::{AliasName, AliasedType, BuiltinAlias, TypeModel, UIntType, is_list_bound};

verus! {

/// Byte that may start an identifier: an ASCII letter or an underscore.
pub open spec fn is_ident_start(b: u8) -> bool {
    (65 <= b <= 90) || (97 <= b <= 122) || b == 95
}

/// Byte that may continue an identifier: an ASCII letter, digit or underscore.
pub open spec fn is_ident_char(b: u8) -> bool {
    is_ident_start(b) || (48 <= b <= 57)
}

pub open spec fn is_digit(b: u8) -> bool {
    48 <= b <= 57
}

/// A nonempty identifier.
pub open spec fn is_word(w: Seq<u8>) -> bool {
    &&& w.len() > 0
    &&& is_ident_start(w[0])
    &&& forall|i: int| 0 <= i < w.len() ==> is_ident_char(#[trigger] w[i])
}

/// The integer type with the given name.
pub open spec fn uint_of_word(w: Seq<u8>) -> Option<UIntType> {
    if w.len() == 2 && w[0] == 117u8 && w[1] == 49u8 {
        Some(UIntType::U1)
    } else if w.len() == 2 && w[0] == 117u8 && w[1] == 50u8 {
        Some(UIntType::U2)
    } else if w.len() == 2 && w[0] == 117u8 && w[1] == 52u8 {
        Some(UIntType::U4)
    } else if w.len() == 2 && w[0] == 117u8 && w[1] == 56u8 {
        Some(UIntType::U8)
    } else if w.len() == 3 && w[0] == 117u8 && w[1] == 49u8 && w[2] == 54u8 {
        Some(UIntType::U16)
    } else if w.len() == 3 && w[0] == 117u8 && w[1] == 51u8 && w[2] == 50u8 {
        Some(UIntType::U32)
    } else if w.len() == 3 && w[0] == 117u8 && w[1] == 54u8 && w[2] == 52u8 {
        Some(UIntType::U64)
    } else if w.len() == 4 && w[0] == 117u8 && w[1] == 49u8 && w[2] == 50u8 && w[3] == 56u8 {
        Some(UIntType::U128)
    } else if w.len() == 4 && w[0] == 117u8 && w[1] == 50u8 && w[2] == 53u8 && w[3] == 54u8 {
        Some(UIntType::U256)
    } else {
        None
    }
}

/// The builtin alias with the given name.
pub open spec fn builtin_of_word(w: Seq<u8>) -> Option<BuiltinAlias> {
    if w.len() == 4 && w[0] == 67u8 && w[1] == 116u8 && w[2] == 120u8 && w[3] == 56u8 {
        Some(BuiltinAlias::Ctx8)
    } else if w.len() == 6 && w[0] == 80u8 && w[1] == 117u8 && w[2] == 98u8 && w[3] == 107u8 && w[4] == 101u8 && w[5] == 121u8 {
        Some(BuiltinAlias::Pubkey)
    } else if w.len() == 9 && w[0] == 77u8 && w[1] == 101u8 && w[2] == 115u8 && w[3] == 115u8 && w[4] == 97u8 && w[5] == 103u8 && w[6] == 101u8 && w[7] == 54u8 && w[8] == 52u8 {
        Some(BuiltinAlias::Message64)
    } else if w.len() == 7 && w[0] == 77u8 && w[1] == 101u8 && w[2] == 115u8 && w[3] == 115u8 && w[4] == 97u8 && w[5] == 103u8 && w[6] == 101u8 {
        Some(BuiltinAlias::Message)
    } else if w.len() == 9 && w[0] == 83u8 && w[1] == 105u8 && w[2] == 103u8 && w[3] == 110u8 && w[4] == 97u8 && w[5] == 116u8 && w[6] == 117u8 && w[7] == 114u8 && w[8] == 101u8 {
        Some(BuiltinAlias::Signature)
    } else if w.len() == 6 && w[0] == 83u8 && w[1] == 99u8 && w[2] == 97u8 && w[3] == 108u8 && w[4] == 97u8 && w[5] == 114u8 {
        Some(BuiltinAlias::Scalar)
    } else if w.len() == 2 && w[0] == 70u8 && w[1] == 101u8 {
        Some(BuiltinAlias::Fe)
    } else if w.len() == 3 && w[0] == 71u8 && w[1] == 101u8 && w[2] == 106u8 {
        Some(BuiltinAlias::Gej)
    } else if w.len() == 2 && w[0] == 71u8 && w[1] == 101u8 {
        Some(BuiltinAlias::Ge)
    } else if w.len() == 5 && w[0] == 80u8 && w[1] == 111u8 && w[2] == 105u8 && w[3] == 110u8 && w[4] == 116u8 {
        Some(BuiltinAlias::Point)
    } else if w.len() == 6 && w[0] == 72u8 && w[1] == 101u8 && w[2] == 105u8 && w[3] == 103u8 && w[4] == 104u8 && w[5] == 116u8 {
        Some(BuiltinAlias::Height)
    } else if w.len() == 4 && w[0] == 84u8 && w[1] == 105u8 && w[2] == 109u8 && w[3] == 101u8 {
        Some(BuiltinAlias::Time)
    } else if w.len() == 8 && w[0] == 68u8 && w[1] == 105u8 && w[2] == 115u8 && w[3] == 116u8 && w[4] == 97u8 && w[5] == 110u8 && w[6] == 99u8 && w[7] == 101u8 {
        Some(BuiltinAlias::Distance)
    } else if w.len() == 8 && w[0] == 68u8 && w[1] == 117u8 && w[2] == 114u8 && w[3] == 97u8 && w[4] == 116u8 && w[5] == 105u8 && w[6] == 111u8 && w[7] == 110u8 {
        Some(BuiltinAlias::Duration)
    } else if w.len() == 4 && w[0] == 76u8 && w[1] == 111u8 && w[2] == 99u8 && w[3] == 107u8 {
        Some(BuiltinAlias::Lock)
    } else if w.len() == 8 && w[0] == 79u8 && w[1] == 117u8 && w[2] == 116u8 && w[3] == 112u8 && w[4] == 111u8 && w[5] == 105u8 && w[6] == 110u8 && w[7] == 116u8 {
        Some(BuiltinAlias::Outpoint)
    } else if w.len() == 13 && w[0] == 67u8 && w[1] == 111u8 && w[2] == 110u8 && w[3] == 102u8 && w[4] == 105u8 && w[5] == 100u8 && w[6] == 101u8 && w[7] == 110u8 && w[8] == 116u8 && w[9] == 105u8 && w[10] == 97u8 && w[11] == 108u8 && w[12] == 49u8 {
        Some(BuiltinAlias::Confidential1)
    } else if w.len() == 13 && w[0] == 69u8 && w[1] == 120u8 && w[2] == 112u8 && w[3] == 108u8 && w[4] == 105u8 && w[5] == 99u8 && w[6] == 105u8 && w[7] == 116u8 && w[8] == 65u8 && w[9] == 115u8 && w[10] == 115u8 && w[11] == 101u8 && w[12] == 116u8 {
        Some(BuiltinAlias::ExplicitAsset)
    } else if w.len() == 6 && w[0] == 65u8 && w[1] == 115u8 && w[2] == 115u8 && w[3] == 101u8 && w[4] == 116u8 && w[5] == 49u8 {
        Some(BuiltinAlias::Asset1)
    } else if w.len() == 14 && w[0] == 69u8 && w[1] == 120u8 && w[2] == 112u8 && w[3] == 108u8 && w[4] == 105u8 && w[5] == 99u8 && w[6] == 105u8 && w[7] == 116u8 && w[8] == 65u8 && w[9] == 109u8 && w[10] == 111u8 && w[11] == 117u8 && w[12] == 110u8 && w[13] == 116u8 {
        Some(BuiltinAlias::ExplicitAmount)
    } else if w.len() == 7 && w[0] == 65u8 && w[1] == 109u8 && w[2] == 111u8 && w[3] == 117u8 && w[4] == 110u8 && w[5] == 116u8 && w[6] == 49u8 {
        Some(BuiltinAlias::Amount1)
    } else if w.len() == 13 && w[0] == 69u8 && w[1] == 120u8 && w[2] == 112u8 && w[3] == 108u8 && w[4] == 105u8 && w[5] == 99u8 && w[6] == 105u8 && w[7] == 116u8 && w[8] == 78u8 && w[9] == 111u8 && w[10] == 110u8 && w[11] == 99u8 && w[12] == 101u8 {
        Some(BuiltinAlias::ExplicitNonce)
    } else if w.len() == 5 && w[0] == 78u8 && w[1] == 111u8 && w[2] == 110u8 && w[3] == 99u8 && w[4] == 101u8 {
        Some(BuiltinAlias::Nonce)
    } else if w.len() == 12 && w[0] == 84u8 && w[1] == 111u8 && w[2] == 107u8 && w[3] == 101u8 && w[4] == 110u8 && w[5] == 65u8 && w[6] == 109u8 && w[7] == 111u8 && w[8] == 117u8 && w[9] == 110u8 && w[10] == 116u8 && w[11] == 49u8 {
        Some(BuiltinAlias::TokenAmount1)
    } else {
        None
    }
}

/// The word `bool`.
pub open spec fn is_bool_word(w: Seq<u8>) -> bool {
    w.len() == 4 && w[0] == 98u8 && w[1] == 111u8 && w[2] == 111u8 && w[3] == 108u8
}

/// The word `List`.
pub open spec fn is_list_word(w: Seq<u8>) -> bool {
    w.len() == 4 && w[0] == 76u8 && w[1] == 105u8 && w[2] == 115u8 && w[3] == 116u8
}

/// The word `Either`.
pub open spec fn is_either_word(w: Seq<u8>) -> bool {
    w.len() == 6 && w[0] == 69u8 && w[1] == 105u8 && w[2] == 116u8 && w[3] == 104u8 && w[4] == 101u8 && w[5] == 114u8
}

/// The word `Option`.
pub open spec fn is_option_word(w: Seq<u8>) -> bool {
    w.len() == 6 && w[0] == 79u8 && w[1] == 112u8 && w[2] == 116u8 && w[3] == 105u8 && w[4] == 111u8 && w[5] == 110u8
}

/// The type that a reserved word denotes on its own.
pub open spec fn word_type(w: Seq<u8>) -> Option<TypeModel> {
    if is_bool_word(w) {
        Some(TypeModel::Boolean)
    } else if uint_of_word(w) is Some {
        Some(TypeModel::UInt(uint_of_word(w)->0))
    } else if builtin_of_word(w) is Some {
        Some(TypeModel::Builtin(builtin_of_word(w)->0))
    } else {
        None
    }
}

/// A word that opens a generic type: `List`, `Either` or `Option`.
pub open spec fn is_generic_word(w: Seq<u8>) -> bool {
    is_list_word(w) || is_either_word(w) || is_option_word(w)
}

/// A valid name of a user-defined alias: an identifier that is not reserved.
pub open spec fn is_alias_name(w: Seq<u8>) -> bool {
    is_word(w) && word_type(w) is None && !is_generic_word(w)
}

/// The word denotes the given type on its own.
pub proof fn lemma_word_types()
    ensures
        word_type(bool_word()) == Some(TypeModel::Boolean),
        is_word(bool_word()),
        forall|u: UIntType| word_type(#[trigger] u.spec_name()) == Some(TypeModel::UInt(u)) && is_word(u.spec_name()),
        forall|b: BuiltinAlias| word_type(#[trigger] b.spec_name()) == Some(TypeModel::Builtin(b)) && is_word(b.spec_name()),
        word_type(list_word()) is None,
        word_type(either_word()) is None,
        word_type(option_word()) is None,
        is_list_word(list_word()),
        is_either_word(either_word()),
        is_option_word(option_word()),
        !is_either_word(list_word()) && !is_option_word(list_word()),
        !is_list_word(either_word()) && !is_option_word(either_word()),
        !is_list_word(option_word()) && !is_either_word(option_word()),
        is_word(list_word()),
        is_word(either_word()),
        is_word(option_word()),
{
    assert forall|u: UIntType| word_type(#[trigger] u.spec_name()) == Some(TypeModel::UInt(u)) && is_word(u.spec_name()) by {
        match u {
            UIntType::U1 => {},
            UIntType::U2 => {},
            UIntType::U4 => {},
            UIntType::U8 => {},
            UIntType::U16 => {},
            UIntType::U32 => {},
            UIntType::U64 => {},
            UIntType::U128 => {},
            UIntType::U256 => {},
        }
    }
    assert forall|b: BuiltinAlias| word_type(#[trigger] b.spec_name()) == Some(TypeModel::Builtin(b)) && is_word(b.spec_name()) by {
        lemma_builtin_word(b);
    }
}

proof fn lemma_builtin_word(b: BuiltinAlias)
    ensures
        word_type(b.spec_name()) == Some(TypeModel::Builtin(b)),
        is_word(b.spec_name()),
{
    match b {
        BuiltinAlias::Ctx8 => {},
        BuiltinAlias::Pubkey => {},
        BuiltinAlias::Message64 => {},
        BuiltinAlias::Message => {},
        BuiltinAlias::Signature => {},
        BuiltinAlias::Scalar => {},
        BuiltinAlias::Fe => {},
        BuiltinAlias::Gej => {},
        BuiltinAlias::Ge => {},
        BuiltinAlias::Point => {},
        BuiltinAlias::Height => {},
        BuiltinAlias::Time => {},
        BuiltinAlias::Distance => {},
        BuiltinAlias::Duration => {},
        BuiltinAlias::Lock => {},
        BuiltinAlias::Outpoint => {},
        BuiltinAlias::Confidential1 => {},
        BuiltinAlias::ExplicitAsset => {},
        BuiltinAlias::Asset1 => {},
        BuiltinAlias::ExplicitAmount => {},
        BuiltinAlias::Amount1 => {},
        BuiltinAlias::ExplicitNonce => {},
        BuiltinAlias::Nonce => {},
        BuiltinAlias::TokenAmount1 => {},
    }
}

fn uint_of_range(s: &[u8], start: usize, end: usize) -> (r: Option<UIntType>)
    requires
        start <= end <= s.len(),
    ensures
        r == uint_of_word(s@.subrange(start as int, end as int)),
{
    if end - start == 2 && s[start + 0] == 117u8 && s[start + 1] == 49u8 {
        Some(UIntType::U1)
    } else if end - start == 2 && s[start + 0] == 117u8 && s[start + 1] == 50u8 {
        Some(UIntType::U2)
    } else if end - start == 2 && s[start + 0] == 117u8 && s[start + 1] == 52u8 {
        Some(UIntType::U4)
    } else if end - start == 2 && s[start + 0] == 117u8 && s[start + 1] == 56u8 {
        Some(UIntType::U8)
    } else if end - start == 3 && s[start + 0] == 117u8 && s[start + 1] == 49u8 && s[start + 2] == 54u8 {
        Some(UIntType::U16)
    } else if end - start == 3 && s[start + 0] == 117u8 && s[start + 1] == 51u8 && s[start + 2] == 50u8 {
        Some(UIntType::U32)
    } else if end - start == 3 && s[start + 0] == 117u8 && s[start + 1] == 54u8 && s[start + 2] == 52u8 {
        Some(UIntType::U64)
    } else if end - start == 4 && s[start + 0] == 117u8 && s[start + 1] == 49u8 && s[start + 2] == 50u8 && s[start + 3] == 56u8 {
        Some(UIntType::U128)
    } else if end - start == 4 && s[start + 0] == 117u8 && s[start + 1] == 50u8 && s[start + 2] == 53u8 && s[start + 3] == 54u8 {
        Some(UIntType::U256)
    } else {
        None
    }
}

fn builtin_of_range(s: &[u8], start: usize, end: usize) -> (r: Option<BuiltinAlias>)
    requires
        start <= end <= s.len(),
    ensures
        r == builtin_of_word(s@.subrange(start as int, end as int)),
{
    if end - start == 4 && s[start + 0] == 67u8 && s[start + 1] == 116u8 && s[start + 2] == 120u8 && s[start + 3] == 56u8 {
        Some(BuiltinAlias::Ctx8)
    } else if end - start == 6 && s[start + 0] == 80u8 && s[start + 1] == 117u8 && s[start + 2] == 98u8 && s[start + 3] == 107u8 && s[start + 4] == 101u8 && s[start + 5] == 121u8 {
        Some(BuiltinAlias::Pubkey)
    } else if end - start == 9 && s[start + 0] == 77u8 && s[start + 1] == 101u8 && s[start + 2] == 115u8 && s[start + 3] == 115u8 && s[start + 4] == 97u8 && s[start + 5] == 103u8 && s[start + 6] == 101u8 && s[start + 7] == 54u8 && s[start + 8] == 52u8 {
        Some(BuiltinAlias::Message64)
    } else if end - start == 7 && s[start + 0] == 77u8 && s[start + 1] == 101u8 && s[start + 2] == 115u8 && s[start + 3] == 115u8 && s[start + 4] == 97u8 && s[start + 5] == 103u8 && s[start + 6] == 101u8 {
        Some(BuiltinAlias::Message)
    } else if end - start == 9 && s[start + 0] == 83u8 && s[start + 1] == 105u8 && s[start + 2] == 103u8 && s[start + 3] == 110u8 && s[start + 4] == 97u8 && s[start + 5] == 116u8 && s[start + 6] == 117u8 && s[start + 7] == 114u8 && s[start + 8] == 101u8 {
        Some(BuiltinAlias::Signature)
    } else if end - start == 6 && s[start + 0] == 83u8 && s[start + 1] == 99u8 && s[start + 2] == 97u8 && s[start + 3] == 108u8 && s[start + 4] == 97u8 && s[start + 5] == 114u8 {
        Some(BuiltinAlias::Scalar)
    } else if end - start == 2 && s[start + 0] == 70u8 && s[start + 1] == 101u8 {
        Some(BuiltinAlias::Fe)
    } else if end - start == 3 && s[start + 0] == 71u8 && s[start + 1] == 101u8 && s[start + 2] == 106u8 {
        Some(BuiltinAlias::Gej)
    } else if end - start == 2 && s[start + 0] == 71u8 && s[start + 1] == 101u8 {
        Some(BuiltinAlias::Ge)
    } else if end - start == 5 && s[start + 0] == 80u8 && s[start + 1] == 111u8 && s[start + 2] == 105u8 && s[start + 3] == 110u8 && s[start + 4] == 116u8 {
        Some(BuiltinAlias::Point)
    } else if end - start == 6 && s[start + 0] == 72u8 && s[start + 1] == 101u8 && s[start + 2] == 105u8 && s[start + 3] == 103u8 && s[start + 4] == 104u8 && s[start + 5] == 116u8 {
        Some(BuiltinAlias::Height)
    } else if end - start == 4 && s[start + 0] == 84u8 && s[start + 1] == 105u8 && s[start + 2] == 109u8 && s[start + 3] == 101u8 {
        Some(BuiltinAlias::Time)
    } else if end - start == 8 && s[start + 0] == 68u8 && s[start + 1] == 105u8 && s[start + 2] == 115u8 && s[start + 3] == 116u8 && s[start + 4] == 97u8 && s[start + 5] == 110u8 && s[start + 6] == 99u8 && s[start + 7] == 101u8 {
        Some(BuiltinAlias::Distance)
    } else if end - start == 8 && s[start + 0] == 68u8 && s[start + 1] == 117u8 && s[start + 2] == 114u8 && s[start + 3] == 97u8 && s[start + 4] == 116u8 && s[start + 5] == 105u8 && s[start + 6] == 111u8 && s[start + 7] == 110u8 {
        Some(BuiltinAlias::Duration)
    } else if end - start == 4 && s[start + 0] == 76u8 && s[start + 1] == 111u8 && s[start + 2] == 99u8 && s[start + 3] == 107u8 {
        Some(BuiltinAlias::Lock)
    } else if end - start == 8 && s[start + 0] == 79u8 && s[start + 1] == 117u8 && s[start + 2] == 116u8 && s[start + 3] == 112u8 && s[start + 4] == 111u8 && s[start + 5] == 105u8 && s[start + 6] == 110u8 && s[start + 7] == 116u8 {
        Some(BuiltinAlias::Outpoint)
    } else if end - start == 13 && s[start + 0] == 67u8 && s[start + 1] == 111u8 && s[start + 2] == 110u8 && s[start + 3] == 102u8 && s[start + 4] == 105u8 && s[start + 5] == 100u8 && s[start + 6] == 101u8 && s[start + 7] == 110u8 && s[start + 8] == 116u8 && s[start + 9] == 105u8 && s[start + 10] == 97u8 && s[start + 11] == 108u8 && s[start + 12] == 49u8 {
        Some(BuiltinAlias::Confidential1)
    } else if end - start == 13 && s[start + 0] == 69u8 && s[start + 1] == 120u8 && s[start + 2] == 112u8 && s[start + 3] == 108u8 && s[start + 4] == 105u8 && s[start + 5] == 99u8 && s[start + 6] == 105u8 && s[start + 7] == 116u8 && s[start + 8] == 65u8 && s[start + 9] == 115u8 && s[start + 10] == 115u8 && s[start + 11] == 101u8 && s[start + 12] == 116u8 {
        Some(BuiltinAlias::ExplicitAsset)
    } else if end - start == 6 && s[start + 0] == 65u8 && s[start + 1] == 115u8 && s[start + 2] == 115u8 && s[start + 3] == 101u8 && s[start + 4] == 116u8 && s[start + 5] == 49u8 {
        Some(BuiltinAlias::Asset1)
    } else if end - start == 14 && s[start + 0] == 69u8 && s[start + 1] == 120u8 && s[start + 2] == 112u8 && s[start + 3] == 108u8 && s[start + 4] == 105u8 && s[start + 5] == 99u8 && s[start + 6] == 105u8 && s[start + 7] == 116u8 && s[start + 8] == 65u8 && s[start + 9] == 109u8 && s[start + 10] == 111u8 && s[start + 11] == 117u8 && s[start + 12] == 110u8 && s[start + 13] == 116u8 {
        Some(BuiltinAlias::ExplicitAmount)
    } else if end - start == 7 && s[start + 0] == 65u8 && s[start + 1] == 109u8 && s[start + 2] == 111u8 && s[start + 3] == 117u8 && s[start + 4] == 110u8 && s[start + 5] == 116u8 && s[start + 6] == 49u8 {
        Some(BuiltinAlias::Amount1)
    } else if end - start == 13 && s[start + 0] == 69u8 && s[start + 1] == 120u8 && s[start + 2] == 112u8 && s[start + 3] == 108u8 && s[start + 4] == 105u8 && s[start + 5] == 99u8 && s[start + 6] == 105u8 && s[start + 7] == 116u8 && s[start + 8] == 78u8 && s[start + 9] == 111u8 && s[start + 10] == 110u8 && s[start + 11] == 99u8 && s[start + 12] == 101u8 {
        Some(BuiltinAlias::ExplicitNonce)
    } else if end - start == 5 && s[start + 0] == 78u8 && s[start + 1] == 111u8 && s[start + 2] == 110u8 && s[start + 3] == 99u8 && s[start + 4] == 101u8 {
        Some(BuiltinAlias::Nonce)
    } else if end - start == 12 && s[start + 0] == 84u8 && s[start + 1] == 111u8 && s[start + 2] == 107u8 && s[start + 3] == 101u8 && s[start + 4] == 110u8 && s[start + 5] == 65u8 && s[start + 6] == 109u8 && s[start + 7] == 111u8 && s[start + 8] == 117u8 && s[start + 9] == 110u8 && s[start + 10] == 116u8 && s[start + 11] == 49u8 {
        Some(BuiltinAlias::TokenAmount1)
    } else {
        None
    }
}

fn is_bool_range(s: &[u8], start: usize, end: usize) -> (r: bool)
    requires
        start <= end <= s.len(),
    ensures
        r == is_bool_word(s@.subrange(start as int, end as int)),
{
    end - start == 4 && s[start + 0] == 98u8 && s[start + 1] == 111u8 && s[start + 2] == 111u8 && s[start + 3] == 108u8
}

fn is_list_range(s: &[u8], start: usize, end: usize) -> (r: bool)
    requires
        start <= end <= s.len(),
    ensures
        r == is_list_word(s@.subrange(start as int, end as int)),
{
    end - start == 4 && s[start + 0] == 76u8 && s[start + 1] == 105u8 && s[start + 2] == 115u8 && s[start + 3] == 116u8
}

fn is_either_range(s: &[u8], start: usize, end: usize) -> (r: bool)
    requires
        start <= end <= s.len(),
    ensures
        r == is_either_word(s@.subrange(start as int, end as int)),
{
    end - start == 6 && s[start + 0] == 69u8 && s[start + 1] == 105u8 && s[start + 2] == 116u8 && s[start + 3] == 104u8 && s[start + 4] == 101u8 && s[start + 5] == 114u8
}

fn is_option_range(s: &[u8], start: usize, end: usize) -> (r: bool)
    requires
        start <= end <= s.len(),
    ensures
        r == is_option_word(s@.subrange(start as int, end as int)),
{
    end - start == 6 && s[start + 0] == 79u8 && s[start + 1] == 112u8 && s[start + 2] == 116u8 && s[start + 3] == 105u8 && s[start + 4] == 111u8 && s[start + 5] == 110u8
}


/// The bytes are ASCII digits.
pub open spec fn all_digits(ds: Seq<u8>) -> bool {
    forall|i: int| 0 <= i < ds.len() ==> is_digit(#[trigger] ds[i])
}

/// Numeric value of a sequence of ASCII digits.
pub open spec fn digits_value(ds: Seq<u8>) -> nat
    decreases ds.len(),
{
    if ds.len() == 0 {
        0
    } else {
        digits_value(ds.drop_last()) * 10 + (ds.last() - 48) as nat
    }
}

/// A nonempty digit sequence without leading zeros.
pub open spec fn canonical_digits(ds: Seq<u8>) -> bool {
    ds.len() > 0 && all_digits(ds) && (ds.len() == 1 || ds[0] != 48)
}

/// The bytes `t` stand in `s` at position `pos`.
pub open spec fn text_at(s: Seq<u8>, pos: int, t: Seq<u8>) -> bool {
    0 <= pos && pos + t.len() <= s.len() && s.subrange(pos, pos + t.len()) == t
}

pub proof fn lemma_decimal(n: nat)
    ensures
        canonical_digits(decimal(n)),
        digits_value(decimal(n)) == n,
    decreases n,
{
    assert(digits_value(Seq::<u8>::empty()) == 0);
    if n < 10 {
        assert(decimal(n).drop_last() =~= Seq::<u8>::empty());
    } else {
        lemma_decimal(n / 10);
        let d = decimal(n / 10);
        let x = digit_byte(n % 10);
        assert(decimal(n) == d.push(x));
        assert(decimal(n).drop_last() =~= d);
        assert(n == (n / 10) * 10 + n % 10) by (nonlinear_arith);
        assert(n % 10 < 10) by (nonlinear_arith);
        assert(n / 10 >= 1) by (nonlinear_arith)
            requires
                n >= 10,
        ;
        if d.len() == 1 {
            assert(d.drop_last() =~= Seq::<u8>::empty());
            assert(digits_value(d) == (d[0] - 48) as nat);
        }
        assert(decimal(n)[0] == d[0]);
        assert forall|i: int| 0 <= i < decimal(n).len() implies is_digit(#[trigger] decimal(n)[i]) by {
            if i < d.len() {
                assert(decimal(n)[i] == d[i]);
            }
        }
    }
}

proof fn lemma_value_at_least_ten(ds: Seq<u8>)
    requires
        canonical_digits(ds),
        ds.len() >= 2,
    ensures
        digits_value(ds) >= 10,
    decreases ds.len(),
{
    let p = ds.drop_last();
    if p.len() == 1 {
        assert(p.drop_last() =~= Seq::<u8>::empty());
        assert(p[0] == ds[0]);
    } else {
        assert(p[0] == ds[0]);
        assert forall|i: int| 0 <= i < p.len() implies is_digit(#[trigger] p[i]) by {
            assert(p[i] == ds[i]);
        }
        lemma_value_at_least_ten(p);
    }
}

pub proof fn lemma_canonical_decimal(ds: Seq<u8>)
    requires
        canonical_digits(ds),
    ensures
        decimal(digits_value(ds)) == ds,
    decreases ds.len(),
{
    if ds.len() == 1 {
        assert(ds.drop_last() =~= Seq::<u8>::empty());
        assert(digits_value(Seq::<u8>::empty()) == 0);
        assert(is_digit(ds[0]));
        assert(digits_value(ds) == (ds[0] - 48) as nat);
        assert(digits_value(ds) < 10);
        assert(digit_byte(digits_value(ds)) == ds[0]);
        assert(decimal(digits_value(ds)) =~= ds);
    } else {
        let p = ds.drop_last();
        assert(p[0] == ds[0]);
        assert forall|i: int| 0 <= i < p.len() implies is_digit(#[trigger] p[i]) by {
            assert(p[i] == ds[i]);
        }
        lemma_canonical_decimal(p);
        lemma_value_at_least_ten(ds);
        let v = digits_value(ds);
        let vp = digits_value(p);
        let d = (ds.last() - 48) as nat;
        assert(is_digit(ds[ds.len() - 1]));
        assert(d < 10);
        assert(v == vp * 10 + d);
        assert(v / 10 == vp && v % 10 == d) by (nonlinear_arith)
            requires
                v == vp * 10 + d,
                d < 10,
        ;
        assert(decimal(v) =~= ds);
    }
}

pub(crate) proof fn lemma_value_prefix(ds: Seq<u8>, k: int)
    requires
        0 <= k <= ds.len(),
    ensures
        digits_value(ds.take(k)) <= digits_value(ds),
    decreases ds.len(),
{
    if k < ds.len() {
        let p = ds.drop_last();
        lemma_value_prefix(p, k);
        assert(p.take(k) =~= ds.take(k));
    } else {
        assert(ds.take(k) =~= ds);
    }
}

/// Position after the longest run of digits that starts at `pos`.
fn digit_run_end(s: &[u8], pos: usize) -> (e: usize)
    requires
        pos <= s.len(),
    ensures
        pos <= e <= s.len(),
        forall|i: int| pos <= i < e ==> is_digit(#[trigger] s@[i]),
        e == s.len() || !is_digit(s@[e as int]),
{
    let mut e = pos;
    while e < s.len() && 48 <= s[e] && s[e] <= 57
        invariant
            pos <= e <= s.len(),
            forall|i: int| pos <= i < e ==> is_digit(#[trigger] s@[i]),
        decreases s.len() - e,
    {
        e = e + 1;
    }
    e
}

/// Read a decimal number without leading zeros that fits into `usize`.
///
/// The number must not be followed by a further digit.
pub fn parse_decimal(s: &[u8], pos: usize) -> (r: Option<(usize, usize)>)
    requires
        pos <= s.len(),
    ensures
        r matches Some((n, p)) ==> {
            &&& p == pos + decimal(n as nat).len()
            &&& text_at(s@, pos as int, decimal(n as nat))
            &&& (p == s.len() || !is_digit(s@[p as int]))
        },
        forall|n: nat|
            n <= usize::MAX && #[trigger] text_at(s@, pos as int, decimal(n)) && (pos + decimal(n).len()
                == s.len() || !is_digit(s@[pos + decimal(n).len()])) ==> r == Some(
                (n as usize, (pos + decimal(n).len()) as usize),
            ),
{
    let e = digit_run_end(s, pos);
    let ghost ds = s@.subrange(pos as int, e as int);
    // Any number written at `pos` is exactly the digit run.
    assert forall|n: nat|
        n <= usize::MAX && #[trigger] text_at(s@, pos as int, decimal(n)) && (pos + decimal(n).len()
            == s.len() || !is_digit(s@[pos + decimal(n).len()])) implies ds == decimal(n) by {
        lemma_decimal(n);
        let l = decimal(n).len();
        assert forall|i: int| pos <= i < pos + l implies is_digit(s@[i]) by {
            assert(s@[i] == decimal(n)[i - pos]);
        }
        if e < pos + l {
            assert(is_digit(s@[e as int]));
        }
        if e > pos + l {
            assert(is_digit(s@[pos + l]));
        }
        assert(ds =~= decimal(n));
    }
    if e == pos {
        assert forall|n: nat|
            n <= usize::MAX && #[trigger] text_at(s@, pos as int, decimal(n)) && (pos + decimal(n).len()
                == s.len() || !is_digit(s@[pos + decimal(n).len()])) implies false by {
            lemma_decimal(n);
        }
        return None;
    }
    if s[pos] == 48 && e > pos + 1 {
        assert forall|n: nat|
            n <= usize::MAX && #[trigger] text_at(s@, pos as int, decimal(n)) && (pos + decimal(n).len()
                == s.len() || !is_digit(s@[pos + decimal(n).len()])) implies false by {
            lemma_decimal(n);
            assert(ds[0] == s@[pos as int]);
        }
        return None;
    }
    let mut v: usize = 0;
    let mut i: usize = pos;
    while i < e
        invariant
            pos <= i <= e <= s.len(),
            ds == s@.subrange(pos as int, e as int),
            forall|j: int| pos <= j < e ==> is_digit(#[trigger] s@[j]),
            v == digits_value(s@.subrange(pos as int, i as int)),
            forall|n: nat|
                n <= usize::MAX && #[trigger] text_at(s@, pos as int, decimal(n)) && (pos
                    + decimal(n).len() == s.len() || !is_digit(s@[pos + decimal(n).len()]))
                    ==> ds == decimal(n),
        decreases e - i,
    {
        let d = (s[i] - 48) as usize;
        assert(is_digit(s@[i as int]));
        let ghost next = s@.subrange(pos as int, i + 1);
        proof {
            assert(next.drop_last() =~= s@.subrange(pos as int, i as int));
            assert(next =~= ds.take(i + 1 - pos));
        }
        if v > (usize::MAX - d) / 10 {
            proof {
                assert(v * 10 + d > usize::MAX) by (nonlinear_arith)
                    requires
                        v > (usize::MAX - d) / 10,
                        d < 10,
                ;
                assert(digits_value(next) > usize::MAX);
                assert forall|n: nat|
                    n <= usize::MAX && #[trigger] text_at(s@, pos as int, decimal(n)) && (pos
                        + decimal(n).len() == s.len() || !is_digit(s@[pos + decimal(n).len()])) implies false by {
                    lemma_decimal(n);
                    lemma_value_prefix(ds, i + 1 - pos);
                }
            }
            return None;
        }
        assert(v * 10 + d <= usize::MAX) by (nonlinear_arith)
            requires
                v <= (usize::MAX - d) / 10,
                d < 10,
        ;
        v = v * 10 + d;
        i = i + 1;
    }
    proof {
        assert(s@.subrange(pos as int, i as int) =~= ds);
        assert(ds[0] == s@[pos as int]);
        assert forall|j: int| 0 <= j < ds.len() implies is_digit(#[trigger] ds[j]) by {
            assert(ds[j] == s@[pos + j]);
        }
        lemma_canonical_decimal(ds);
        assert forall|n: nat|
            n <= usize::MAX && #[trigger] text_at(s@, pos as int, decimal(n)) && (pos + decimal(n).len()
                == s.len() || !is_digit(s@[pos + decimal(n).len()])) implies Some((v, e)) == Some(
            (n as usize, (pos + decimal(n).len()) as usize),
        ) by {
            lemma_decimal(n);
        }
    }
    Some((v, e))
}


/// Position `p` ends the input or holds a byte that cannot continue an identifier.
pub open spec fn at_boundary(s: Seq<u8>, p: int) -> bool {
    p == s.len() || (0 <= p < s.len() && !is_ident_char(s[p]))
}

/// The canonical text of `m` stands in `s` at `pos`, and no identifier byte follows it.
pub open spec fn type_at(s: Seq<u8>, pos: int, m: TypeModel) -> bool {
    text_at(s, pos, type_text(m)) && at_boundary(s, pos + type_text(m).len())
}

/// A type that has a canonical text form: alias names are identifiers that are not
/// reserved, list bounds are powers of two of at least two, and every number fits
/// into `usize`.
pub open spec fn valid_type(m: TypeModel) -> bool
    decreases m,
{
    match m {
        TypeModel::Alias(name) => is_alias_name(name),
        TypeModel::Builtin(_) => true,
        TypeModel::Boolean => true,
        TypeModel::UInt(_) => true,
        TypeModel::Tuple(es) => es.len() <= usize::MAX && forall|i: int|
            0 <= i < es.len() ==> valid_type(#[trigger] es[i]),
        TypeModel::Array(e, n) => valid_type(*e) && n <= usize::MAX,
        TypeModel::List(e, b) => valid_type(*e) && is_list_bound(b) && b <= usize::MAX,
        TypeModel::Either(l, r) => valid_type(*l) && valid_type(*r),
        TypeModel::Option(e) => valid_type(*e),
    }
}

pub proof fn lemma_text_at_concat(s: Seq<u8>, pos: int, a: Seq<u8>, b: Seq<u8>)
    ensures
        text_at(s, pos, a + b) <==> text_at(s, pos, a) && text_at(s, pos + a.len(), b),
{
    if text_at(s, pos, a + b) {
        let whole = s.subrange(pos, pos + (a + b).len());
        assert(whole == a + b);
        assert(s.subrange(pos, pos + a.len()) =~= a) by {
            assert forall|i: int| 0 <= i < a.len() implies s.subrange(pos, pos + a.len())[i] == a[i] by {
                assert(whole[i] == (a + b)[i]);
            }
        }
        assert(s.subrange(pos + a.len(), pos + a.len() + b.len()) =~= b) by {
            assert forall|i: int| 0 <= i < b.len() implies s.subrange(
                pos + a.len(),
                pos + a.len() + b.len(),
            )[i] == b[i] by {
                assert(whole[a.len() + i] == (a + b)[a.len() + i]);
            }
        }
    }
    if text_at(s, pos, a) && text_at(s, pos + a.len(), b) {
        assert(s.subrange(pos, pos + (a + b).len()) =~= a + b) by {
            assert forall|i: int| 0 <= i < (a + b).len() implies s.subrange(
                pos,
                pos + (a + b).len(),
            )[i] == (a + b)[i] by {
                if i < a.len() {
                    assert(s.subrange(pos, pos + a.len())[i] == a[i]);
                } else {
                    assert(s.subrange(pos + a.len(), pos + a.len() + b.len())[i - a.len()] == b[i
                        - a.len()]);
                }
            }
        }
    }
}

proof fn lemma_text_at_byte(s: Seq<u8>, pos: int, t: Seq<u8>, i: int)
    requires
        text_at(s, pos, t),
        0 <= i < t.len(),
    ensures
        s[pos + i] == t[i],
{
    assert(s.subrange(pos, pos + t.len())[i] == s[pos + i]);
}

proof fn lemma_items_front(es: Seq<TypeModel>)
    requires
        es.len() >= 2,
    ensures
        items_text(es) == type_text(es[0]) + comma_space() + items_text(es.drop_first()),
    decreases es.len(),
{
    if es.len() == 2 {
        assert(es.drop_last() =~= seq![es[0]]);
        assert(es.drop_first() =~= seq![es[1]]);
        assert(items_text(seq![es[0]]) == type_text(es[0]));
        assert(items_text(seq![es[1]]) == type_text(es[1]));
        assert(items_text(es) =~= type_text(es[0]) + comma_space() + items_text(es.drop_first()));
    } else {
        lemma_items_front(es.drop_last());
        assert(es.drop_last().drop_first() =~= es.drop_first().drop_last());
        assert(es.drop_first().last() == es.last());
        assert(es.drop_last()[0] == es[0]);
        assert(items_text(es) =~= type_text(es[0]) + comma_space() + items_text(es.drop_first()));
    }
}

/// Shape of the canonical text of a valid type.
pub proof fn lemma_text_shape(m: TypeModel)
    requires
        valid_type(m),
    ensures
        type_text(m).len() >= 1,
        (m is Tuple) <==> type_text(m)[0] == 40,
        (m is Array) <==> type_text(m)[0] == 91,
        !(m is Tuple) && !(m is Array) ==> is_ident_start(type_text(m)[0]),
        (m is Alias || m is Builtin || m is Boolean || m is UInt) ==> is_word(type_text(m)),
        m is List ==> text_at(type_text(m), 0, list_word() + seq![60u8]),
        m is Either ==> text_at(type_text(m), 0, either_word() + seq![60u8]),
        m is Option ==> text_at(type_text(m), 0, option_word() + seq![60u8]),
{
    lemma_word_types();
    let t = type_text(m);
    match m {
        TypeModel::List(e, b) => {
            assert(t.subrange(0, 5) =~= list_word() + seq![60u8]);
        },
        TypeModel::Either(l, r) => {
            assert(t.subrange(0, 7) =~= either_word() + seq![60u8]);
        },
        TypeModel::Option(e) => {
            assert(t.subrange(0, 7) =~= option_word() + seq![60u8]);
        },
        TypeModel::Builtin(b) => {
            lemma_builtin_word(b);
        },
        TypeModel::UInt(u) => {
            assert(is_word(u.spec_name()));
        },
        _ => {},
    }
}

/// A word recognized as a reserved word is exactly that word.
proof fn lemma_reserved_word(w: Seq<u8>)
    ensures
        uint_of_word(w) matches Some(u) ==> w == u.spec_name(),
        builtin_of_word(w) matches Some(b) ==> w == b.spec_name(),
        is_bool_word(w) ==> w == bool_word(),
        is_list_word(w) ==> w == list_word(),
        is_either_word(w) ==> w == either_word(),
        is_option_word(w) ==> w == option_word(),
{
    if let Some(u) = uint_of_word(w) {
        assert(w =~= u.spec_name());
    }
    if let Some(b) = builtin_of_word(w) {
        assert(w =~= b.spec_name());
    }
    if is_bool_word(w) {
        assert(w =~= bool_word());
    }
    if is_list_word(w) {
        assert(w =~= list_word());
    }
    if is_either_word(w) {
        assert(w =~= either_word());
    }
    if is_option_word(w) {
        assert(w =~= option_word());
    }
}

/// Position after the longest run of identifier bytes that starts at `pos`.
fn word_end(s: &[u8], pos: usize) -> (e: usize)
    requires
        pos <= s.len(),
    ensures
        pos <= e <= s.len(),
        forall|i: int| pos <= i < e ==> is_ident_char(#[trigger] s@[i]),
        at_boundary(s@, e as int),
{
    let mut e = pos;
    while e < s.len() && ((65 <= s[e] && s[e] <= 90) || (97 <= s[e] && s[e] <= 122) || s[e] == 95
        || (48 <= s[e] && s[e] <= 57))
        invariant
            pos <= e <= s.len(),
            forall|i: int| pos <= i < e ==> is_ident_char(#[trigger] s@[i]),
        decreases s.len() - e,
    {
        e = e + 1;
    }
    e
}

proof fn lemma_word_run(s: Seq<u8>, pos: int, e: int, w: Seq<u8>)
    requires
        0 <= pos <= e <= s.len(),
        forall|i: int| pos <= i < e ==> is_ident_char(#[trigger] s[i]),
        at_boundary(s, e),
        text_at(s, pos, w),
        forall|i: int| 0 <= i < w.len() ==> is_ident_char(#[trigger] w[i]),
        at_boundary(s, pos + w.len()),
    ensures
        e == pos + w.len(),
        s.subrange(pos, e) == w,
{
    if e < pos + w.len() {
        lemma_text_at_byte(s, pos, w, e - pos);
        assert(is_ident_char(w[e - pos]));
    }
    if e > pos + w.len() {
        assert(is_ident_char(s[pos + w.len()]));
    }
}

fn is_list_bound_exec(b: usize) -> (r: bool)
    ensures
        r == is_list_bound(b as nat),
    decreases b,
{
    if b < 2 {
        false
    } else if b == 2 {
        true
    } else {
        b % 2 == 0 && is_list_bound_exec(b / 2)
    }
}

fn byte_at(s: &[u8], p: usize, b: u8) -> (r: bool)
    ensures
        r == (p < s.len() && s@[p as int] == b),
{
    p < s.len() && s[p] == b
}

fn boundary_exec(s: &[u8], p: usize) -> (r: bool)
    requires
        p <= s.len(),
    ensures
        r == at_boundary(s@, p as int),
{
    if p == s.len() {
        true
    } else {
        let b = s[p];
        !((65 <= b && b <= 90) || (97 <= b && b <= 122) || b == 95 || (48 <= b && b <= 57))
    }
}

/// Result of reading a type at `pos`: a returned type is valid and stands at `pos`,
/// and every valid type that stands at `pos` is the one returned.
pub open spec fn read_type_spec(s: Seq<u8>, pos: int, r: Option<(AliasedType, usize)>) -> bool {
    &&& r matches Some((t, p)) ==> {
        &&& valid_type(t@)
        &&& p == pos + type_text(t@).len()
        &&& type_at(s, pos, t@)
    }
    &&& forall|m: TypeModel| valid_type(m) && #[trigger] type_at(s, pos, m) ==> {
        &&& r is Some
        &&& r.unwrap().0@ == m
    }
}

proof fn lemma_byte_text_at(s: Seq<u8>, pos: int, b: u8)
    ensures
        text_at(s, pos, seq![b]) <==> (0 <= pos < s.len() && s[pos] == b),
{
    if 0 <= pos < s.len() && s[pos] == b {
        assert(s.subrange(pos, pos + 1) =~= seq![b]);
    }
    if text_at(s, pos, seq![b]) {
        assert(s.subrange(pos, pos + 1)[0] == s[pos]);
    }
}

proof fn lemma_two_bytes_text_at(s: Seq<u8>, pos: int, a: u8, b: u8)
    ensures
        text_at(s, pos, seq![a, b]) <==> (0 <= pos && pos + 1 < s.len() && s[pos] == a && s[pos
            + 1] == b),
{
    assert(seq![a, b] =~= seq![a] + seq![b]);
    lemma_text_at_concat(s, pos, seq![a], seq![b]);
    lemma_byte_text_at(s, pos, a);
    lemma_byte_text_at(s, pos + 1, b);
}

/// Decomposition of the text of an array type.
proof fn lemma_array_text_at(s: Seq<u8>, pos: int, e: TypeModel, n: nat)
    ensures
        text_at(s, pos, type_text(TypeModel::Array(Box::new(e), n))) <==> {
            &&& text_at(s, pos, seq![91u8])
            &&& text_at(s, pos + 1, type_text(e))
            &&& text_at(s, pos + 1 + type_text(e).len(), semicolon_space())
            &&& text_at(s, pos + 3 + type_text(e).len(), decimal(n))
            &&& text_at(s, pos + 3 + type_text(e).len() + decimal(n).len(), seq![93u8])
        },
{
    let a = seq![91u8];
    let b = type_text(e);
    let c = semicolon_space();
    let d = decimal(n);
    let f = seq![93u8];
    lemma_text_at_concat(s, pos, a + b + c + d, f);
    lemma_text_at_concat(s, pos, a + b + c, d);
    lemma_text_at_concat(s, pos, a + b, c);
    lemma_text_at_concat(s, pos, a, b);
}

/// Decomposition of the text of a generic type `W<x, y>` or `W<x>`.
proof fn lemma_generic_text_at(s: Seq<u8>, pos: int, w: Seq<u8>, x: Seq<u8>, y: Option<Seq<u8>>)
    ensures
        ({
            let t = match y {
                Some(y) => w + seq![60u8] + x + comma_space() + y + seq![62u8],
                None => w + seq![60u8] + x + seq![62u8],
            };
            text_at(s, pos, t) <==> {
                &&& text_at(s, pos, w + seq![60u8])
                &&& text_at(s, pos + w.len() + 1, x)
                &&& match y {
                    Some(y) => {
                        &&& text_at(s, pos + w.len() + 1 + x.len(), comma_space())
                        &&& text_at(s, pos + w.len() + 3 + x.len(), y)
                        &&& text_at(s, pos + w.len() + 3 + x.len() + y.len(), seq![62u8])
                    },
                    None => text_at(s, pos + w.len() + 1 + x.len(), seq![62u8]),
                }
            }
        }),
{
    let a = w + seq![60u8];
    match y {
        Some(y) => {
            lemma_text_at_concat(s, pos, a + x + comma_space() + y, seq![62u8]);
            lemma_text_at_concat(s, pos, a + x + comma_space(), y);
            lemma_text_at_concat(s, pos, a + x, comma_space());
            lemma_text_at_concat(s, pos, a, x);
        },
        None => {
            lemma_text_at_concat(s, pos, a + x, seq![62u8]);
            lemma_text_at_concat(s, pos, a, x);
        },
    }
}

proof fn lemma_items_split(es: Seq<TypeModel>, k: int)
    requires
        1 <= k < es.len(),
    ensures
        items_text(es) == items_text(es.take(k)) + comma_space() + items_text(es.skip(k)),
    decreases es.len(),
{
    if k == es.len() - 1 {
        assert(es.take(k) =~= es.drop_last());
        assert(es.skip(k) =~= seq![es.last()]);
        assert(items_text(seq![es.last()]) == type_text(es.last()));
    } else {
        let p = es.drop_last();
        lemma_items_split(p, k);
        assert(p.take(k) =~= es.take(k));
        assert(es.skip(k).drop_last() =~= p.skip(k));
        assert(es.skip(k).last() == es.last());
        assert(items_text(es) =~= items_text(es.take(k)) + comma_space() + items_text(es.skip(k)));
    }
}

/// What the text of a tuple with at least two elements says about its elements.
proof fn lemma_tuple_item(s: Seq<u8>, pos: int, es: Seq<TypeModel>, k: int)
    requires
        es.len() >= 2,
        valid_type(TypeModel::Tuple(es)),
        type_at(s, pos, TypeModel::Tuple(es)),
        1 <= k <= es.len(),
    ensures
        text_at(s, pos + 1, items_text(es.take(k))),
        k < es.len() ==> {
            let q = pos + 1 + items_text(es.take(k)).len();
            &&& text_at(s, q, comma_space())
            &&& type_at(s, q + 2, es[k])
            &&& valid_type(es[k])
        },
        k == es.len() ==> {
            let q = pos + 1 + items_text(es.take(k)).len();
            &&& text_at(s, q, seq![41u8])
            &&& at_boundary(s, q + 1)
        },
{
    let t = type_text(TypeModel::Tuple(es));
    assert(t == seq![40u8] + items_text(es) + seq![41u8]);
    lemma_text_at_concat(s, pos, seq![40u8] + items_text(es), seq![41u8]);
    lemma_text_at_concat(s, pos, seq![40u8], items_text(es));
    if k == es.len() {
        assert(es.take(k) =~= es);
    } else {
        lemma_items_split(es, k);
        let rest = es.skip(k);
        let q = pos + 1 + items_text(es.take(k)).len();
        lemma_text_at_concat(s, pos + 1, items_text(es.take(k)) + comma_space(), items_text(rest));
        lemma_text_at_concat(s, pos + 1, items_text(es.take(k)), comma_space());
        assert(rest[0] == es[k]);
        let after = q + 2 + type_text(es[k]).len();
        if rest.len() == 1 {
            assert(items_text(rest) == type_text(rest[0]));
            // `)` follows the last element.
            assert(after == pos + 1 + items_text(es).len());
            lemma_byte_text_at(s, after, 41u8);
        } else {
            lemma_items_front(rest);
            lemma_text_at_concat(s, q + 2, type_text(rest[0]) + comma_space(), items_text(rest.drop_first()));
            lemma_text_at_concat(s, q + 2, type_text(rest[0]), comma_space());
            lemma_two_bytes_text_at(s, after, 44u8, 32u8);
        }
    }
}

/// What the text of a tuple with at most one element says.
proof fn lemma_short_tuple(s: Seq<u8>, pos: int, es: Seq<TypeModel>)
    requires
        valid_type(TypeModel::Tuple(es)),
        type_at(s, pos, TypeModel::Tuple(es)),
    ensures
        es.len() == 0 <==> (pos + 1 < s.len() && s[pos + 1] == 41),
        es.len() == 0 ==> at_boundary(s, pos + 2),
        es.len() >= 1 ==> type_at(s, pos + 1, es[0]) && valid_type(es[0]),
        es.len() == 1 ==> {
            let q = pos + 1 + type_text(es[0]).len();
            &&& text_at(s, q, seq![44u8, 41u8])
            &&& at_boundary(s, q + 2)
        },
        es.len() >= 2 ==> {
            let q = pos + 1 + type_text(es[0]).len();
            text_at(s, q, seq![44u8, 32u8])
        },
{
    let t = type_text(TypeModel::Tuple(es));
    if es.len() == 0 {
        lemma_two_bytes_text_at(s, pos, 40u8, 41u8);
    } else {
        assert(valid_type(es[0]));
        lemma_text_shape(es[0]);
        let q = pos + 1 + type_text(es[0]).len();
        if es.len() == 1 {
            lemma_text_at_concat(s, pos, seq![40u8] + type_text(es[0]), seq![44u8, 41u8]);
            lemma_text_at_concat(s, pos, seq![40u8], type_text(es[0]));
            lemma_two_bytes_text_at(s, q, 44u8, 41u8);
        } else {
            lemma_tuple_item(s, pos, es, 1);
            assert(es.take(1) =~= seq![es[0]]);
            assert(items_text(seq![es[0]]) == type_text(es[0]));
            lemma_items_front(es);
            lemma_text_at_concat(s, pos, seq![40u8] + items_text(es), seq![41u8]);
            lemma_text_at_concat(s, pos, seq![40u8], items_text(es));
            lemma_text_at_concat(s, pos + 1, type_text(es[0]) + comma_space(), items_text(es.drop_first()));
            lemma_text_at_concat(s, pos + 1, type_text(es[0]), comma_space());
            lemma_two_bytes_text_at(s, q, 44u8, 32u8);
        }
        lemma_text_at_byte(s, pos + 1, type_text(es[0]), 0);
        lemma_text_at_byte(s, pos, t, 0);
    }
    if pos + 1 < s.len() && s[pos + 1] == 41 && es.len() >= 1 {
        assert(false);
    }
}


proof fn lemma_first_byte(s: Seq<u8>, pos: int, m: TypeModel)
    requires
        valid_type(m),
        type_at(s, pos, m),
    ensures
        0 <= pos < s.len(),
        s[pos] == type_text(m)[0],
        (m is Tuple) <==> s[pos] == 40,
        (m is Array) <==> s[pos] == 91,
        !(m is Tuple) && !(m is Array) ==> is_ident_start(s[pos]),
{
    lemma_text_shape(m);
    lemma_text_at_byte(s, pos, type_text(m), 0);
}

/// Read the type whose canonical text starts at `pos`.
fn parse_type_at(s: &[u8], pos: usize) -> (r: Option<(AliasedType, usize)>)
    requires
        pos <= s.len(),
    ensures
        read_type_spec(s@, pos as int, r),
    decreases s.len() - pos, 2nat,
{
    if pos == s.len() {
        proof {
            assert forall|m: TypeModel| valid_type(m) && #[trigger] type_at(s@, pos as int, m) implies false by {
                lemma_first_byte(s@, pos as int, m);
            }
        }
        return None;
    }
    let b = s[pos];
    if b == 40 {
        parse_tuple_at(s, pos)
    } else if b == 91 {
        parse_array_at(s, pos)
    } else if (65 <= b && b <= 90) || (97 <= b && b <= 122) || b == 95 {
        parse_word_type_at(s, pos)
    } else {
        proof {
            assert forall|m: TypeModel| valid_type(m) && #[trigger] type_at(s@, pos as int, m) implies false by {
                lemma_first_byte(s@, pos as int, m);
            }
        }
        None
    }
}

fn parse_tuple_at(s: &[u8], pos: usize) -> (r: Option<(AliasedType, usize)>)
    requires
        pos < s.len(),
        s@[pos as int] == 40,
    ensures
        read_type_spec(s@, pos as int, r),
    decreases s.len() - pos, 0nat,
{
    let ghost sv = s@;
    proof {
        assert forall|m: TypeModel| valid_type(m) && #[trigger] type_at(sv, pos as int, m) implies (m is Tuple) by {
            lemma_first_byte(sv, pos as int, m);
        }
    }
    if byte_at(s, pos + 1, 41) {
        let p = pos + 2;
        if !boundary_exec(s, p) {
            proof {
                assert forall|m: TypeModel| valid_type(m) && #[trigger] type_at(sv, pos as int, m) implies false by {
                    lemma_short_tuple(sv, pos as int, m->Tuple_0);
                }
            }
            return None;
        }
        let t = AliasedType::Tuple(Vec::new());
        proof {
            AliasedType::lemma_models(Seq::<AliasedType>::empty());
            assert(t@ == TypeModel::Tuple(Seq::empty()));
            assert(type_text(t@) == seq![40u8, 41u8]);
            lemma_two_bytes_text_at(sv, pos as int, 40u8, 41u8);
            assert forall|m: TypeModel| valid_type(m) && #[trigger] type_at(sv, pos as int, m) implies m
                == t@ by {
                lemma_short_tuple(sv, pos as int, m->Tuple_0);
                assert(m->Tuple_0 =~= Seq::<TypeModel>::empty());
            }
        }
        return Some((t, p));
    }
    let first = parse_type_at(s, pos + 1);
    let (t0, q) = match first {
        None => {
            proof {
                assert forall|m: TypeModel| valid_type(m) && #[trigger] type_at(sv, pos as int, m) implies false by {
                    lemma_short_tuple(sv, pos as int, m->Tuple_0);
                }
            }
            return None;
        },
        Some(x) => x,
    };
    let ghost m0 = t0@;
    // Every tuple at `pos` starts with `t0`.
    proof {
        assert forall|m: TypeModel| valid_type(m) && #[trigger] type_at(sv, pos as int, m) implies m->Tuple_0.len() >= 1 && m->Tuple_0[0] == m0 by {
            lemma_short_tuple(sv, pos as int, m->Tuple_0);
        }
    }
    if byte_at(s, q, 44) && byte_at(s, q + 1, 41) {
        let p = q + 2;
        if !boundary_exec(s, p) {
            proof {
                assert forall|m: TypeModel| valid_type(m) && #[trigger] type_at(sv, pos as int, m) implies false by {
                    lemma_short_tuple(sv, pos as int, m->Tuple_0);
                    if m->Tuple_0.len() >= 2 {
                        lemma_two_bytes_text_at(sv, q as int, 44u8, 32u8);
                    }
                }
            }
            return None;
        }
        let mut v: Vec<AliasedType> = Vec::new();
        v.push(t0);
        let t = AliasedType::Tuple(v);
        proof {
            AliasedType::lemma_models(v@);
            assert(AliasedType::models(v@) =~= seq![m0]);
            assert(t@ == TypeModel::Tuple(seq![m0]));
            let txt = type_text(t@);
            assert(txt == seq![40u8] + type_text(m0) + seq![44u8, 41u8]);
            lemma_byte_text_at(sv, pos as int, 40u8);
            lemma_two_bytes_text_at(sv, q as int, 44u8, 41u8);
            lemma_text_at_concat(sv, pos as int, seq![40u8], type_text(m0));
            lemma_text_at_concat(sv, pos as int, seq![40u8] + type_text(m0), seq![44u8, 41u8]);
            assert(valid_type(t@)) by {
                assert(forall|i: int| 0 <= i < 1 ==> seq![m0][i] == m0);
            }
            assert forall|m: TypeModel| valid_type(m) && #[trigger] type_at(sv, pos as int, m) implies m
                == t@ by {
                lemma_short_tuple(sv, pos as int, m->Tuple_0);
                if m->Tuple_0.len() >= 2 {
                    lemma_two_bytes_text_at(sv, q as int, 44u8, 32u8);
                }
                assert(m->Tuple_0 =~= seq![m0]);
            }
        }
        return Some((t, p));
    }
    proof {
        assert forall|m: TypeModel| valid_type(m) && #[trigger] type_at(sv, pos as int, m) implies m->Tuple_0.len() >= 2 by {
            lemma_short_tuple(sv, pos as int, m->Tuple_0);
            if m->Tuple_0.len() == 1 {
                lemma_two_bytes_text_at(sv, q as int, 44u8, 41u8);
            }
        }
    }
    let mut elems: Vec<AliasedType> = Vec::new();
    elems.push(t0);
    let mut q = q;
    proof {
        AliasedType::lemma_models(elems@);
        assert(AliasedType::models(elems@) =~= seq![m0]);
        assert(items_text(seq![m0]) == type_text(m0));
        lemma_text_shape(m0);
    }
    while byte_at(s, q, 44) && byte_at(s, q + 1, 32)
        invariant
            sv == s@,
            pos < q <= s.len(),
            elems.len() >= 1,
            text_at(sv, pos as int + 1, items_text(AliasedType::models(elems@))),
            q == pos + 1 + items_text(AliasedType::models(elems@)).len(),
            forall|i: int| 0 <= i < elems.len() ==> valid_type(#[trigger] AliasedType::models(elems@)[i]),
            AliasedType::models(elems@).len() == elems.len(),
            forall|m: TypeModel| valid_type(m) && #[trigger] type_at(sv, pos as int, m) ==> {
                &&& m is Tuple
                &&& m->Tuple_0.len() >= 2
                &&& elems.len() <= m->Tuple_0.len()
                &&& AliasedType::models(elems@) == m->Tuple_0.take(elems.len() as int)
            },
        decreases s.len() - q,
    {
        let ghost ms = AliasedType::models(elems@);
        let ghost k = elems.len() as int;
        let ghost q0 = q as int;
        let ghost v0 = elems@;
        proof {
            lemma_two_bytes_text_at(sv, q as int, 44u8, 32u8);
            // A tuple at `pos` has an element at `q + 2`.
            assert forall|m: TypeModel| valid_type(m) && #[trigger] type_at(sv, pos as int, m) implies k
                < m->Tuple_0.len() && type_at(sv, q + 2, m->Tuple_0[k]) && valid_type(m->Tuple_0[k]) by {
                let es = m->Tuple_0;
                lemma_tuple_item(sv, pos as int, es, k);
                if k == es.len() {
                    assert(es.take(k) =~= es);
                    lemma_byte_text_at(sv, q as int, 41u8);
                }
            }
        }
        let next = parse_type_at(s, q + 2);
        let (t, q2) = match next {
            None => {
                proof {
                    assert forall|m: TypeModel| valid_type(m) && #[trigger] type_at(sv, pos as int, m) implies false by {
                        assert(type_at(sv, q + 2, m->Tuple_0[k]));
                    }
                }
                return None;
            },
            Some(x) => x,
        };
        let ghost mt = t@;
        elems.push(t);
        q = q2;
        proof {
            AliasedType::lemma_models(elems@);
            let ms2 = AliasedType::models(elems@);
            assert(elems@.drop_last() =~= v0);
            assert(ms2 == ms.push(mt));
            assert(ms2.drop_last() =~= ms);
            assert(items_text(ms2) == items_text(ms) + comma_space() + type_text(mt));
            lemma_text_at_concat(sv, pos + 1, items_text(ms), comma_space());
            lemma_text_at_concat(sv, pos + 1, items_text(ms) + comma_space(), type_text(mt));
            assert forall|m: TypeModel| valid_type(m) && #[trigger] type_at(sv, pos as int, m) implies ms2
                == m->Tuple_0.take(k + 1) by {
                assert(type_at(sv, q0 + 2, m->Tuple_0[k]));
                assert(ms2 =~= m->Tuple_0.take(k + 1));
            }
        }
    }
    if elems.len() >= 2 && byte_at(s, q, 41) && boundary_exec(s, q + 1) {
        let ghost ms = AliasedType::models(elems@);
        let t = AliasedType::Tuple(elems);
        proof {
            assert(t@ == TypeModel::Tuple(ms));
            assert(type_text(t@) == seq![40u8] + items_text(ms) + seq![41u8]);
            lemma_byte_text_at(sv, pos as int, 40u8);
            lemma_byte_text_at(sv, q as int, 41u8);
            lemma_text_at_concat(sv, pos as int, seq![40u8], items_text(ms));
            lemma_text_at_concat(sv, pos as int, seq![40u8] + items_text(ms), seq![41u8]);
            assert forall|m: TypeModel| valid_type(m) && #[trigger] type_at(sv, pos as int, m) implies m
                == t@ by {
                let es = m->Tuple_0;
                if ms.len() < es.len() {
                    lemma_tuple_item(sv, pos as int, es, ms.len() as int);
                    lemma_two_bytes_text_at(sv, q as int, 44u8, 32u8);
                }
                assert(es.take(ms.len() as int) =~= es);
            }
        }
        return Some((t, q + 1));
    }
    proof {
        assert forall|m: TypeModel| valid_type(m) && #[trigger] type_at(sv, pos as int, m) implies false by {
            let es = m->Tuple_0;
            let k = elems.len() as int;
            lemma_tuple_item(sv, pos as int, es, k);
            if k < es.len() {
                lemma_two_bytes_text_at(sv, q as int, 44u8, 32u8);
            } else {
                assert(es.take(k) =~= es);
                lemma_byte_text_at(sv, q as int, 41u8);
            }
        }
    }
    None
}

fn parse_array_at(s: &[u8], pos: usize) -> (r: Option<(AliasedType, usize)>)
    requires
        pos < s.len(),
        s@[pos as int] == 91,
    ensures
        read_type_spec(s@, pos as int, r),
    decreases s.len() - pos, 0nat,
{
    let ghost sv = s@;
    proof {
        assert forall|m: TypeModel| valid_type(m) && #[trigger] type_at(sv, pos as int, m) implies ({
            let e = *m->Array_0;
            let n = m->Array_1;
            let q = pos + 1 + type_text(e).len();
            let q2 = q + 2 + decimal(n).len();
            &&& m is Array
            &&& valid_type(e)
            &&& n <= usize::MAX
            &&& type_at(sv, pos + 1, e)
            &&& text_at(sv, q, semicolon_space())
            &&& text_at(sv, q + 2, decimal(n))
            &&& q2 < sv.len() && sv[q2] == 93
            &&& at_boundary(sv, q2 + 1)
        }) by {
            lemma_first_byte(sv, pos as int, m);
            let e = *m->Array_0;
            let n = m->Array_1;
            lemma_array_text_at(sv, pos as int, e, n);
            let q = pos + 1 + type_text(e).len();
            lemma_two_bytes_text_at(sv, q, 59u8, 32u8);
            lemma_byte_text_at(sv, q + 2 + decimal(n).len(), 93u8);
        }
    }
    let (elem, q) = match parse_type_at(s, pos + 1) {
        None => return None,
        Some(x) => x,
    };
    if !(byte_at(s, q, 59) && byte_at(s, q + 1, 32)) {
        proof {
            assert forall|m: TypeModel| valid_type(m) && #[trigger] type_at(sv, pos as int, m) implies false by {
                lemma_two_bytes_text_at(sv, q as int, 59u8, 32u8);
            }
        }
        return None;
    }
    let (n, q2) = match parse_decimal(s, q + 2) {
        None => {
            proof {
                assert forall|m: TypeModel| valid_type(m) && #[trigger] type_at(sv, pos as int, m) implies false by {
                    let n = m->Array_1;
                    assert(text_at(sv, q + 2, decimal(n)));
                }
            }
            return None;
        },
        Some(x) => x,
    };
    if !(byte_at(s, q2, 93) && boundary_exec(s, q2 + 1)) {
        proof {
            assert forall|m: TypeModel| valid_type(m) && #[trigger] type_at(sv, pos as int, m) implies false by {
                let n = m->Array_1;
                assert(text_at(sv, q + 2, decimal(n)));
            }
        }
        return None;
    }
    let ghost me = elem@;
    let t = AliasedType::Array(Box::new(elem), n);
    proof {
        assert(t@ == TypeModel::Array(Box::new(me), n as nat));
        lemma_array_text_at(sv, pos as int, me, n as nat);
        lemma_byte_text_at(sv, pos as int, 91u8);
        lemma_two_bytes_text_at(sv, q as int, 59u8, 32u8);
        lemma_byte_text_at(sv, q2 as int, 93u8);
        assert forall|m: TypeModel| valid_type(m) && #[trigger] type_at(sv, pos as int, m) implies m
            == t@ by {
            let n2 = m->Array_1;
            assert(text_at(sv, q + 2, decimal(n2)));
            assert(*m->Array_0 == me);
        }
    }
    Some((t, q2 + 1))
}

fn parse_list_at(s: &[u8], pos: usize) -> (r: Option<(AliasedType, usize)>)
    requires
        pos + 4 <= s.len(),
        s@.subrange(pos as int, pos + 4) == list_word(),
    ensures
        r matches Some((t, p)) ==> {
            &&& valid_type(t@)
            &&& p == pos + type_text(t@).len()
            &&& type_at(s@, pos as int, t@)
        },
        forall|m: TypeModel| valid_type(m) && #[trigger] type_at(s@, pos as int, m) && m is List ==> {
            &&& r is Some
            &&& r.unwrap().0@ == m
        },
    decreases s.len() - pos, 0nat,
{
    let ghost sv = s@;
    proof {
        assert forall|m: TypeModel| valid_type(m) && #[trigger] type_at(sv, pos as int, m) && m is List implies ({
            let e = *m->List_0;
            let b = m->List_1;
            let q = pos + 5 + type_text(e).len();
            let q2 = q + 2 + decimal(b).len();
            &&& valid_type(e)
            &&& is_list_bound(b) && b <= usize::MAX
            &&& pos + 4 < sv.len() && sv[pos + 4] == 60
            &&& type_at(sv, pos + 5, e)
            &&& text_at(sv, q, comma_space())
            &&& text_at(sv, q + 2, decimal(b))
            &&& q2 < sv.len() && sv[q2] == 62
            &&& at_boundary(sv, q2 + 1)
        }) by {
            let e = *m->List_0;
            let b = m->List_1;
            lemma_generic_text_at(sv, pos as int, list_word(), type_text(e), Some(decimal(b)));
            lemma_text_at_concat(sv, pos as int, list_word(), seq![60u8]);
            lemma_byte_text_at(sv, pos + 4, 60u8);
            let q = pos + 5 + type_text(e).len();
            lemma_two_bytes_text_at(sv, q, 44u8, 32u8);
            lemma_byte_text_at(sv, q + 2 + decimal(b).len(), 62u8);
        }
    }
    if !byte_at(s, pos + 4, 60) {
        return None;
    }
    let (elem, q) = match parse_type_at(s, pos + 5) {
        None => return None,
        Some(x) => x,
    };
    if !(byte_at(s, q, 44) && byte_at(s, q + 1, 32)) {
        proof {
            assert forall|m: TypeModel| valid_type(m) && #[trigger] type_at(sv, pos as int, m) && m is List implies false by {
                lemma_two_bytes_text_at(sv, q as int, 44u8, 32u8);
            }
        }
        return None;
    }
    let (b, q2) = match parse_decimal(s, q + 2) {
        None => {
            proof {
                assert forall|m: TypeModel| valid_type(m) && #[trigger] type_at(sv, pos as int, m) && m is List implies false by {
                    assert(text_at(sv, q + 2, decimal(m->List_1)));
                }
            }
            return None;
        },
        Some(x) => x,
    };
    if !(is_list_bound_exec(b) && byte_at(s, q2, 62) && boundary_exec(s, q2 + 1)) {
        proof {
            assert forall|m: TypeModel| valid_type(m) && #[trigger] type_at(sv, pos as int, m) && m is List implies false by {
                assert(text_at(sv, q + 2, decimal(m->List_1)));
            }
        }
        return None;
    }
    let ghost me = elem@;
    let t = AliasedType::List(Box::new(elem), b);
    proof {
        assert(t@ == TypeModel::List(Box::new(me), b as nat));
        lemma_generic_text_at(sv, pos as int, list_word(), type_text(me), Some(decimal(b as nat)));
        assert(sv.subrange(pos as int, pos + 4) == list_word());
        lemma_byte_text_at(sv, pos + 4, 60u8);
        lemma_text_at_concat(sv, pos as int, list_word(), seq![60u8]);
        lemma_two_bytes_text_at(sv, q as int, 44u8, 32u8);
        lemma_byte_text_at(sv, q2 as int, 62u8);
        assert forall|m: TypeModel| valid_type(m) && #[trigger] type_at(sv, pos as int, m) && m is List implies m
            == t@ by {
            assert(text_at(sv, q + 2, decimal(m->List_1)));
            assert(*m->List_0 == me);
        }
    }
    Some((t, q2 + 1))
}

fn parse_either_at(s: &[u8], pos: usize) -> (r: Option<(AliasedType, usize)>)
    requires
        pos + 6 <= s.len(),
        s@.subrange(pos as int, pos + 6) == either_word(),
    ensures
        r matches Some((t, p)) ==> {
            &&& valid_type(t@)
            &&& p == pos + type_text(t@).len()
            &&& type_at(s@, pos as int, t@)
        },
        forall|m: TypeModel| valid_type(m) && #[trigger] type_at(s@, pos as int, m) && m is Either ==> {
            &&& r is Some
            &&& r.unwrap().0@ == m
        },
    decreases s.len() - pos, 0nat,
{
    let ghost sv = s@;
    proof {
        assert forall|m: TypeModel| valid_type(m) && #[trigger] type_at(sv, pos as int, m) && m is Either implies ({
            let a = *m->Either_0;
            let b = *m->Either_1;
            let q = pos + 7 + type_text(a).len();
            let q2 = q + 2 + type_text(b).len();
            &&& valid_type(a) && valid_type(b)
            &&& pos + 6 < sv.len() && sv[pos + 6] == 60
            &&& type_at(sv, pos + 7, a)
            &&& text_at(sv, q, comma_space())
            &&& type_at(sv, q + 2, b)
            &&& q2 < sv.len() && sv[q2] == 62
            &&& at_boundary(sv, q2 + 1)
        }) by {
            let a = *m->Either_0;
            let b = *m->Either_1;
            lemma_generic_text_at(sv, pos as int, either_word(), type_text(a), Some(type_text(b)));
            lemma_text_at_concat(sv, pos as int, either_word(), seq![60u8]);
            lemma_byte_text_at(sv, pos + 6, 60u8);
            let q = pos + 7 + type_text(a).len();
            lemma_two_bytes_text_at(sv, q, 44u8, 32u8);
            lemma_byte_text_at(sv, q + 2 + type_text(b).len(), 62u8);
        }
    }
    if !byte_at(s, pos + 6, 60) {
        return None;
    }
    let (left, q) = match parse_type_at(s, pos + 7) {
        None => return None,
        Some(x) => x,
    };
    if !(byte_at(s, q, 44) && byte_at(s, q + 1, 32)) {
        proof {
            assert forall|m: TypeModel| valid_type(m) && #[trigger] type_at(sv, pos as int, m) && m is Either implies false by {
                lemma_two_bytes_text_at(sv, q as int, 44u8, 32u8);
            }
        }
        return None;
    }
    let (right, q2) = match parse_type_at(s, q + 2) {
        None => {
            proof {
                assert forall|m: TypeModel| valid_type(m) && #[trigger] type_at(sv, pos as int, m) && m is Either implies false by {
                    assert(type_at(sv, q + 2, *m->Either_1));
                }
            }
            return None;
        },
        Some(x) => x,
    };
    if !(byte_at(s, q2, 62) && boundary_exec(s, q2 + 1)) {
        proof {
            assert forall|m: TypeModel| valid_type(m) && #[trigger] type_at(sv, pos as int, m) && m is Either implies false by {
                assert(type_at(sv, q + 2, *m->Either_1));
            }
        }
        return None;
    }
    let ghost (ml, mr) = (left@, right@);
    let t = AliasedType::Either(Box::new(left), Box::new(right));
    proof {
        assert(t@ == TypeModel::Either(Box::new(ml), Box::new(mr)));
        lemma_generic_text_at(sv, pos as int, either_word(), type_text(ml), Some(type_text(mr)));
        lemma_byte_text_at(sv, pos + 6, 60u8);
        lemma_text_at_concat(sv, pos as int, either_word(), seq![60u8]);
        lemma_two_bytes_text_at(sv, q as int, 44u8, 32u8);
        lemma_byte_text_at(sv, q2 as int, 62u8);
        assert forall|m: TypeModel| valid_type(m) && #[trigger] type_at(sv, pos as int, m) && m is Either implies m
            == t@ by {
            assert(type_at(sv, q + 2, *m->Either_1));
            assert(*m->Either_0 == ml);
            assert(*m->Either_1 == mr);
        }
    }
    Some((t, q2 + 1))
}

fn parse_option_at(s: &[u8], pos: usize) -> (r: Option<(AliasedType, usize)>)
    requires
        pos + 6 <= s.len(),
        s@.subrange(pos as int, pos + 6) == option_word(),
    ensures
        r matches Some((t, p)) ==> {
            &&& valid_type(t@)
            &&& p == pos + type_text(t@).len()
            &&& type_at(s@, pos as int, t@)
        },
        forall|m: TypeModel| valid_type(m) && #[trigger] type_at(s@, pos as int, m) && m is Option ==> {
            &&& r is Some
            &&& r.unwrap().0@ == m
        },
    decreases s.len() - pos, 0nat,
{
    let ghost sv = s@;
    proof {
        assert forall|m: TypeModel| valid_type(m) && #[trigger] type_at(sv, pos as int, m) && m is Option implies ({
            let a = *m->Option_0;
            let q = pos + 7 + type_text(a).len();
            &&& valid_type(a)
            &&& pos + 6 < sv.len() && sv[pos + 6] == 60
            &&& type_at(sv, pos + 7, a)
            &&& q < sv.len() && sv[q] == 62
            &&& at_boundary(sv, q + 1)
        }) by {
            let a = *m->Option_0;
            lemma_generic_text_at(sv, pos as int, option_word(), type_text(a), None);
            lemma_text_at_concat(sv, pos as int, option_word(), seq![60u8]);
            lemma_byte_text_at(sv, pos + 6, 60u8);
            lemma_byte_text_at(sv, pos + 7 + type_text(a).len(), 62u8);
        }
    }
    if !byte_at(s, pos + 6, 60) {
        return None;
    }
    let (inner, q) = match parse_type_at(s, pos + 7) {
        None => return None,
        Some(x) => x,
    };
    if !(byte_at(s, q, 62) && boundary_exec(s, q + 1)) {
        return None;
    }
    let ghost mi = inner@;
    let t = AliasedType::Option(Box::new(inner));
    proof {
        assert(t@ == TypeModel::Option(Box::new(mi)));
        lemma_generic_text_at(sv, pos as int, option_word(), type_text(mi), None);
        lemma_byte_text_at(sv, pos + 6, 60u8);
        lemma_text_at_concat(sv, pos as int, option_word(), seq![60u8]);
        lemma_byte_text_at(sv, q as int, 62u8);
        assert forall|m: TypeModel| valid_type(m) && #[trigger] type_at(sv, pos as int, m) && m is Option implies m
            == t@ by {
            assert(*m->Option_0 == mi);
        }
    }
    Some((t, q + 1))
}

fn copy_range(s: &[u8], start: usize, end: usize) -> (r: Vec<u8>)
    requires
        start <= end <= s.len(),
    ensures
        r@ == s@.subrange(start as int, end as int),
{
    let mut out: Vec<u8> = Vec::new();
    let mut i = start;
    while i < end
        invariant
            start <= i <= end <= s.len(),
            out@ == s@.subrange(start as int, i as int),
        decreases end - i,
    {
        out.push(s[i]);
        i = i + 1;
        proof {
            assert(out@ =~= s@.subrange(start as int, i as int));
        }
    }
    out
}

fn parse_word_type_at(s: &[u8], pos: usize) -> (r: Option<(AliasedType, usize)>)
    requires
        pos < s.len(),
        is_ident_start(s@[pos as int]),
    ensures
        read_type_spec(s@, pos as int, r),
    decreases s.len() - pos, 1nat,
{
    let ghost sv = s@;
    let e = word_end(s, pos);
    let ghost w = sv.subrange(pos as int, e as int);
    proof {
        lemma_word_types();
        lemma_reserved_word(w);
        assert(is_ident_char(sv[pos as int]));
        assert(e > pos);
        assert(w[0] == sv[pos as int]);
        assert forall|i: int| 0 <= i < w.len() implies is_ident_char(#[trigger] w[i]) by {
            assert(w[i] == sv[pos + i]);
        }
        assert(is_word(w));
        // Every type at `pos` is named by the word `w`.
        assert forall|m: TypeModel| valid_type(m) && #[trigger] type_at(sv, pos as int, m) implies ({
            &&& !(m is Tuple) && !(m is Array)
            &&& (m is Alias || m is Builtin || m is Boolean || m is UInt) ==> w == type_text(m)
            &&& m is List ==> w == list_word()
            &&& m is Either ==> w == either_word()
            &&& m is Option ==> w == option_word()
        }) by {
            lemma_first_byte(sv, pos as int, m);
            lemma_text_shape(m);
            let t = type_text(m);
            if m is Alias || m is Builtin || m is Boolean || m is UInt {
                lemma_word_run(sv, pos as int, e as int, t);
            } else {
                let g = if m is List {
                    list_word()
                } else if m is Either {
                    either_word()
                } else {
                    option_word()
                };
                lemma_text_at_concat(t, 0, g, seq![60u8]);
                assert(t.subrange(0, g.len() + 1int) == g + seq![60u8]);
                assert(text_at(sv, pos as int, g + seq![60u8])) by {
                    assert(sv.subrange(pos as int, pos + g.len() + 1) =~= t.subrange(0, g.len() + 1int));
                }
                lemma_text_at_concat(sv, pos as int, g, seq![60u8]);
                lemma_byte_text_at(sv, pos + g.len(), 60u8);
                lemma_word_run(sv, pos as int, e as int, g);
            }
        }
    }
    let word: Option<AliasedType> = if is_bool_range(s, pos, e) {
        Some(AliasedType::Boolean)
    } else {
        match uint_of_range(s, pos, e) {
            Some(u) => Some(AliasedType::UInt(u)),
            None => match builtin_of_range(s, pos, e) {
                Some(b) => Some(AliasedType::Builtin(b)),
                None => None,
            },
        }
    };
    match word {
        Some(t) => {
            proof {
                assert(word_type(w) == Some(t@));
                assert forall|m: TypeModel| valid_type(m) && #[trigger] type_at(sv, pos as int, m) implies m
                    == t@ by {
                    if m is Alias {
                        assert(is_alias_name(m->Alias_0));
                    }
                    if m is Builtin {
                        assert(word_type(m->Builtin_0.spec_name()) == Some(m));
                    }
                    if m is UInt {
                        assert(word_type(m->UInt_0.spec_name()) == Some(m));
                    }
                }
                assert(type_text(t@) == w) by {
                    if t@ is UInt {
                        assert(w == t@->UInt_0.spec_name());
                    }
                    if t@ is Builtin {
                        assert(w == t@->Builtin_0.spec_name());
                    }
                }
                assert(text_at(sv, pos as int, w));
            }
            return Some((t, e));
        },
        None => {},
    }
    if is_list_range(s, pos, e) {
        let r = parse_list_at(s, pos);
        proof {
            assert forall|m: TypeModel| valid_type(m) && #[trigger] type_at(sv, pos as int, m) implies m is List by {
                if m is Alias {
                    assert(is_alias_name(m->Alias_0));
                }
                if m is Builtin {
                    assert(word_type(m->Builtin_0.spec_name()) == Some(m));
                }
                if m is UInt {
                    assert(word_type(m->UInt_0.spec_name()) == Some(m));
                }
            }
        }
        return r;
    }
    if is_either_range(s, pos, e) {
        let r = parse_either_at(s, pos);
        proof {
            assert forall|m: TypeModel| valid_type(m) && #[trigger] type_at(sv, pos as int, m) implies m is Either by {
                if m is Alias {
                    assert(is_alias_name(m->Alias_0));
                }
                if m is Builtin {
                    assert(word_type(m->Builtin_0.spec_name()) == Some(m));
                }
                if m is UInt {
                    assert(word_type(m->UInt_0.spec_name()) == Some(m));
                }
            }
        }
        return r;
    }
    if is_option_range(s, pos, e) {
        let r = parse_option_at(s, pos);
        proof {
            assert forall|m: TypeModel| valid_type(m) && #[trigger] type_at(sv, pos as int, m) implies m is Option by {
                if m is Alias {
                    assert(is_alias_name(m->Alias_0));
                }
                if m is Builtin {
                    assert(word_type(m->Builtin_0.spec_name()) == Some(m));
                }
                if m is UInt {
                    assert(word_type(m->UInt_0.spec_name()) == Some(m));
                }
            }
        }
        return r;
    }
    let name = AliasName::new(copy_range(s, pos, e));
    let t = AliasedType::Alias(name);
    proof {
        assert(is_alias_name(w));
        assert(t@ == TypeModel::Alias(w));
        assert forall|m: TypeModel| valid_type(m) && #[trigger] type_at(sv, pos as int, m) implies m
            == t@ by {
            if m is Builtin {
                assert(word_type(m->Builtin_0.spec_name()) == Some(m));
            }
            if m is UInt {
                assert(word_type(m->UInt_0.spec_name()) == Some(m));
            }
        }
    }
    Some((t, e))
}

/// Read a type from its canonical text.
///
/// Returns the type whose canonical text is exactly `bytes`, and `None` when no
/// valid type has that text.
pub fn parse_aliased_type(bytes: &[u8]) -> (r: Option<AliasedType>)
    ensures
        r matches Some(t) ==> valid_type(t@) && type_text(t@) == bytes@,
        forall|m: TypeModel| #[trigger] valid_type(m) ==> (type_text(m) == bytes@ <==> (r matches Some(t)
            && t@ == m)),
{
    let r = parse_type_at(bytes, 0);
    proof {
        assert forall|m: TypeModel| valid_type(m) && type_text(m) == bytes@ implies type_at(bytes@, 0, m) by {
            assert(bytes@.subrange(0, bytes@.len() as int) =~= bytes@);
        }
    }
    match r {
        Some((t, p)) => {
            if p == bytes.len() {
                proof {
                    assert(bytes@.subrange(0, p as int) =~= bytes@);
                }
                Some(t)
            } else {
                None
            }
        },
        None => None,
    }
}

} // verus!
