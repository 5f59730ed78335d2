//! Canonical text form of SimplicityHL types.
//!
//! The text form is the one that the compiler displays:
//! `bool`, `u32`, `Pubkey`, `()`, `(u8,)`, `(u8, u16)`, `[u8; 4]`,
//! `List<u8, 8>`, `Either<u8, bool>`, `Option<u8>` and alias names.
use vstd::prelude::*;

use crate::types::{AliasedType, TypeModel};

verus! {

/// ASCII digit for a number below ten.
pub open spec fn digit_byte(d: nat) -> u8 {
    (48 + d) as u8
}

/// Decimal representation of a natural number, without leading zeros.
pub open spec fn decimal(n: nat) -> Seq<u8>
    decreases n,
{
    if n < 10 {
        seq![digit_byte(n)]
    } else {
        decimal(n / 10).push(digit_byte(n % 10))
    }
}

pub open spec fn bool_word() -> Seq<u8> {
    seq![98u8, 111u8, 111u8, 108u8]
}

pub open spec fn list_word() -> Seq<u8> {
    seq![76u8, 105u8, 115u8, 116u8]
}

pub open spec fn either_word() -> Seq<u8> {
    seq![69u8, 105u8, 116u8, 104u8, 101u8, 114u8]
}

pub open spec fn option_word() -> Seq<u8> {
    seq![79u8, 112u8, 116u8, 105u8, 111u8, 110u8]
}

/// `", "`
pub open spec fn comma_space() -> Seq<u8> {
    seq![44u8, 32u8]
}

/// `"; "`
pub open spec fn semicolon_space() -> Seq<u8> {
    seq![59u8, 32u8]
}

/// Canonical text of a type.
pub open spec fn type_text(m: TypeModel) -> Seq<u8>
    decreases m,
{
    match m {
        TypeModel::Alias(name) => name,
        TypeModel::Builtin(b) => b.spec_name(),
        TypeModel::Boolean => bool_word(),
        TypeModel::UInt(u) => u.spec_name(),
        TypeModel::Tuple(es) => if es.len() == 0 {
            seq![40u8, 41u8]
        } else if es.len() == 1 {
            seq![40u8] + type_text(es[0]) + seq![44u8, 41u8]
        } else {
            seq![40u8] + items_text(es) + seq![41u8]
        },
        TypeModel::Array(e, n) => seq![91u8] + type_text(*e) + semicolon_space() + decimal(n)
            + seq![93u8],
        TypeModel::List(e, b) => list_word() + seq![60u8] + type_text(*e) + comma_space()
            + decimal(b) + seq![62u8],
        TypeModel::Either(l, r) => either_word() + seq![60u8] + type_text(*l) + comma_space()
            + type_text(*r) + seq![62u8],
        TypeModel::Option(e) => option_word() + seq![60u8] + type_text(*e) + seq![62u8],
    }
}

/// Texts of the given types, separated by `", "`.
pub open spec fn items_text(es: Seq<TypeModel>) -> Seq<u8>
    decreases es,
{
    if es.len() == 0 {
        Seq::empty()
    } else if es.len() == 1 {
        type_text(es[0])
    } else {
        items_text(es.drop_last()) + comma_space() + type_text(es.last())
    }
}

/// Append the decimal representation of `n` to `out`.
pub fn write_decimal(out: &mut Vec<u8>, n: usize)
    ensures
        final(out)@ == old(out)@ + decimal(n as nat),
    decreases n,
{
    if n < 10 {
        out.push(48u8 + n as u8);
    } else {
        write_decimal(out, n / 10);
        out.push(48u8 + (n % 10) as u8);
    }
}

fn write_bytes(out: &mut Vec<u8>, bytes: &[u8])
    ensures
        final(out)@ == old(out)@ + bytes@,
{
    let ghost start = out@;
    let mut i: usize = 0;
    while i < bytes.len()
        invariant
            i <= bytes.len(),
            out@ == start + bytes@.take(i as int),
        decreases bytes.len() - i,
    {
        out.push(bytes[i]);
        i = i + 1;
        proof {
            assert(bytes@.take(i as int) =~= bytes@.take(i - 1).push(bytes@[i - 1]));
        }
    }
    proof {
        assert(bytes@.take(i as int) =~= bytes@);
    }
}

/// Append the canonical text of `ty` to `out`.
pub fn write_type(out: &mut Vec<u8>, ty: &AliasedType)
    ensures
        final(out)@ == old(out)@ + type_text(ty@),
    decreases ty,
{
    let ghost start = out@;
    match ty {
        AliasedType::Alias(name) => {
            write_bytes(out, name.as_bytes());
        },
        AliasedType::Builtin(b) => {
            let name = b.name();
            write_bytes(out, name.as_slice());
        },
        AliasedType::Boolean => {
            out.push(98u8);
            out.push(111u8);
            out.push(111u8);
            out.push(108u8);
            assert(out@ =~= start + bool_word());
        },
        AliasedType::UInt(u) => {
            let name = u.name();
            write_bytes(out, name.as_slice());
        },
        AliasedType::Tuple(es) => {
            proof {
                AliasedType::lemma_models(es@);
            }
            let ghost ms = AliasedType::models(es@);
            out.push(40u8);
            if es.len() == 0 {
                out.push(41u8);
                assert(out@ =~= start + type_text(ty@));
            } else if es.len() == 1 {
                write_type(out, &es[0]);
                out.push(44u8);
                out.push(41u8);
                assert(out@ =~= start + type_text(ty@));
            } else {
                let mut i: usize = 0;
                while i < es.len()
                    invariant
                        i <= es.len(),
                        es.len() >= 2,
                        ms == AliasedType::models(es@),
                        ms.len() == es.len(),
                        forall|j: int| 0 <= j < es.len() ==> #[trigger] ms[j] == es@[j].model(),
                        out@ == start + seq![40u8] + items_text(ms.take(i as int)),
                        *ty == AliasedType::Tuple(*es),
                    decreases es.len() - i,
                {
                    proof {
                        assert((*ty)->Tuple_0 == *es);
                        assert(decreases_to!(*ty => (*ty)->Tuple_0));
                        assert(decreases_to!(*es => es@));
                        assert(decreases_to!(es@ => es@[i as int]));
                        assert(decreases_to!(*ty => es@[i as int]));
                    }
                    if i > 0 {
                        out.push(44u8);
                        out.push(32u8);
                    }
                    write_type(out, &es[i]);
                    i = i + 1;
                    proof {
                        let t = ms.take(i as int);
                        assert(t.drop_last() =~= ms.take(i - 1));
                        assert(t.last() == ms[i - 1]);
                        if i == 1 {
                            assert(items_text(t) == type_text(ms[0]));
                            assert(ms.take(0) =~= Seq::<TypeModel>::empty());
                        }
                        assert(out@ =~= start + seq![40u8] + items_text(t));
                    }
                }
                out.push(41u8);
                proof {
                    assert(ms.take(es.len() as int) =~= ms);
                }
                assert(out@ =~= start + type_text(ty@));
            }
        },
        AliasedType::Array(e, n) => {
            out.push(91u8);
            write_type(out, e);
            out.push(59u8);
            out.push(32u8);
            write_decimal(out, *n);
            out.push(93u8);
            assert(out@ =~= start + type_text(ty@));
        },
        AliasedType::List(e, b) => {
            out.push(76u8);
            out.push(105u8);
            out.push(115u8);
            out.push(116u8);
            out.push(60u8);
            write_type(out, e);
            out.push(44u8);
            out.push(32u8);
            write_decimal(out, *b);
            out.push(62u8);
            assert(out@ =~= start + type_text(ty@));
        },
        AliasedType::Either(l, r) => {
            out.push(69u8);
            out.push(105u8);
            out.push(116u8);
            out.push(104u8);
            out.push(101u8);
            out.push(114u8);
            out.push(60u8);
            write_type(out, l);
            out.push(44u8);
            out.push(32u8);
            write_type(out, r);
            out.push(62u8);
            assert(out@ =~= start + type_text(ty@));
        },
        AliasedType::Option(e) => {
            out.push(79u8);
            out.push(112u8);
            out.push(116u8);
            out.push(105u8);
            out.push(111u8);
            out.push(110u8);
            out.push(60u8);
            write_type(out, e);
            out.push(62u8);
            assert(out@ =~= start + type_text(ty@));
        },
    }
}

/// Return the canonical text of `ty`.
pub fn type_to_bytes(ty: &AliasedType) -> (r: Vec<u8>)
    ensures
        r@ == type_text(ty@),
{
    let mut out: Vec<u8> = Vec::new();
    write_type(&mut out, ty);
    assert(out@ =~= type_text(ty@));
    out
}

} // verus!
