//! Portable byte format of jet classifications.
//!
//! Classifications cross module boundaries (for example between a compiler and a
//! jet plugin with separate memories) in this format:
//!
//! - [`SourceJetClassification`]: one tag byte, `0` Unary, `1` Binary, `2`
//!   Ternary, `3` Quaternary, `4` Custom. For `Custom`, a little-endian `u32`
//!   count follows, then each type as a little-endian `u32` byte length and the
//!   canonical text of the type.
//! - [`TargetJetClassification`]: one tag byte, `0` Unary, `1` Custom. For
//!   `Custom`, the type follows as a length and its canonical text.
use vstd::prelude::*;
use vstd::bytes::{spec_u32_from_le_bytes, spec_u32_to_le_bytes, u32_from_le_bytes, u32_to_le_bytes};

use crate::jet::{SourceJetClassification, SourceModel, TargetJetClassification, TargetModel};
use crate::parse::{parse_aliased_type, text_at, valid_type, lemma_text_at_concat};
use crate::text::{type_text, type_to_bytes};
use crate::types::{AliasedType, TypeModel};

verus! {

/// ABI version implemented by external jet hosts and plugins.
pub const EXTERNAL_JET_ABI_VERSION: u32 = 1;

/// Little-endian bytes of a number below 2^32.
pub open spec fn le32(n: nat) -> Seq<u8> {
    spec_u32_to_le_bytes(n as u32)
}

/// A type as it is written on the wire: the length of its text, then the text.
pub open spec fn type_record(m: TypeModel) -> Seq<u8> {
    le32(type_text(m).len()) + type_text(m)
}

/// The records of the given types, one after the other.
pub open spec fn type_records(ts: Seq<TypeModel>) -> Seq<u8>
    decreases ts.len(),
{
    if ts.len() == 0 {
        Seq::empty()
    } else {
        type_records(ts.drop_last()) + type_record(ts.last())
    }
}

/// The type can be written on the wire: its text is at most `u32::MAX` bytes long.
pub open spec fn writable_type(m: TypeModel) -> bool {
    type_text(m).len() <= u32::MAX
}

/// The classification can be written on the wire.
pub open spec fn writable_source(c: SourceModel) -> bool {
    match c {
        SourceModel::Custom(ts) => ts.len() <= u32::MAX && forall|i: int|
            0 <= i < ts.len() ==> writable_type(#[trigger] ts[i]),
        _ => true,
    }
}

/// The classification can be written on the wire and read back: its types are valid.
pub open spec fn portable_source(c: SourceModel) -> bool {
    writable_source(c) && match c {
        SourceModel::Custom(ts) => forall|i: int| 0 <= i < ts.len() ==> valid_type(#[trigger] ts[i]),
        _ => true,
    }
}

pub open spec fn writable_target(c: TargetModel) -> bool {
    match c {
        TargetModel::Custom(t) => writable_type(t),
        TargetModel::Unary => true,
    }
}

pub open spec fn portable_target(c: TargetModel) -> bool {
    writable_target(c) && match c {
        TargetModel::Custom(t) => valid_type(t),
        TargetModel::Unary => true,
    }
}

/// Wire bytes of a source classification.
pub open spec fn source_wire(c: SourceModel) -> Seq<u8> {
    match c {
        SourceModel::Unary => seq![0u8],
        SourceModel::Binary => seq![1u8],
        SourceModel::Ternary => seq![2u8],
        SourceModel::Quaternary => seq![3u8],
        SourceModel::Custom(ts) => seq![4u8] + le32(ts.len()) + type_records(ts),
    }
}

/// Wire bytes of a target classification.
pub open spec fn target_wire(c: TargetModel) -> Seq<u8> {
    match c {
        TargetModel::Unary => seq![0u8],
        TargetModel::Custom(t) => seq![1u8] + type_record(t),
    }
}

proof fn lemma_le32(n: nat)
    requires
        n <= u32::MAX,
    ensures
        le32(n).len() == 4,
        spec_u32_from_le_bytes(le32(n)) == n,
{
    vstd::bytes::lemma_auto_spec_u32_to_from_le_bytes();
    assert((n as u32) as nat == n);
}

fn push_u32(out: &mut Vec<u8>, x: u32)
    ensures
        final(out)@ == old(out)@ + le32(x as nat),
{
    let bytes = u32_to_le_bytes(x);
    let mut i: usize = 0;
    let ghost start = out@;
    while i < 4
        invariant
            bytes@ == spec_u32_to_le_bytes(x),
            bytes@.len() == 4,
            i <= 4,
            out@ == start + bytes@.take(i as int),
        decreases 4 - i,
    {
        out.push(bytes[i]);
        i = i + 1;
        proof {
            assert(bytes@.take(i as int) =~= bytes@.take(i - 1).push(bytes@[i - 1]));
        }
    }
    proof {
        assert(bytes@.take(4) =~= bytes@);
        assert((x as nat) as u32 == x);
    }
}

/// Append the record of `ty`: the length of its canonical text as a little-endian
/// `u32`, then the text.
pub fn write_aliased_type(out: &mut Vec<u8>, ty: &AliasedType)
    requires
        writable_type(ty@),
    ensures
        final(out)@ == old(out)@ + type_record(ty@),
{
    let s = type_to_bytes(ty);
    let len = s.len() as u32;
    let ghost start = out@;
    push_u32(out, len);
    let mut i: usize = 0;
    let ghost mid = out@;
    while i < s.len()
        invariant
            i <= s.len(),
            out@ == mid + s@.take(i as int),
        decreases s.len() - i,
    {
        out.push(s[i]);
        i = i + 1;
        proof {
            assert(s@.take(i as int) =~= s@.take(i - 1).push(s@[i - 1]));
        }
    }
    proof {
        assert(s@.take(s@.len() as int) =~= s@);
        assert(out@ =~= start + type_record(ty@));
    }
}

/// Serialize a [`SourceJetClassification`] into its wire bytes.
pub fn serialize_source_jet_classification(classification: &SourceJetClassification) -> (r: Vec<u8>)
    requires
        writable_source(classification@),
    ensures
        r@ == source_wire(classification@),
{
    let mut out: Vec<u8> = Vec::new();
    match classification {
        SourceJetClassification::Unary => out.push(0),
        SourceJetClassification::Binary => out.push(1),
        SourceJetClassification::Ternary => out.push(2),
        SourceJetClassification::Quaternary => out.push(3),
        SourceJetClassification::Custom(types) => {
            proof {
                AliasedType::lemma_models(types@);
            }
            let ghost ms = AliasedType::models(types@);
            out.push(4);
            push_u32(&mut out, types.len() as u32);
            let mut i: usize = 0;
            while i < types.len()
                invariant
                    i <= types.len(),
                    ms == AliasedType::models(types@),
                    ms.len() == types.len(),
                    forall|j: int| 0 <= j < types.len() ==> #[trigger] ms[j] == types@[j].model(),
                    forall|j: int| 0 <= j < ms.len() ==> writable_type(#[trigger] ms[j]),
                    out@ == seq![4u8] + le32(types.len() as nat) + type_records(ms.take(i as int)),
                decreases types.len() - i,
            {
                assert(writable_type(ms[i as int]));
                write_aliased_type(&mut out, &types[i]);
                i = i + 1;
                proof {
                    assert(ms.take(i as int).drop_last() =~= ms.take(i - 1));
                }
            }
            proof {
                assert(ms.take(types.len() as int) =~= ms);
            }
        },
    }
    out
}

/// Serialize a [`TargetJetClassification`] into its wire bytes.
pub fn serialize_target_jet_classification(classification: &TargetJetClassification) -> (r: Vec<u8>)
    requires
        writable_target(classification@),
    ensures
        r@ == target_wire(classification@),
{
    let mut out: Vec<u8> = Vec::new();
    match classification {
        TargetJetClassification::Unary => out.push(0),
        TargetJetClassification::Custom(ty) => {
            out.push(1);
            write_aliased_type(&mut out, ty);
        },
    }
    out
}


/// Read a little-endian `u32` at `pos`.
pub fn read_u32(bytes: &[u8], pos: usize) -> (r: Option<(u32, usize)>)
    requires
        pos <= bytes.len(),
    ensures
        r is Some <==> pos + 4 <= bytes.len(),
        r matches Some((x, p)) ==> p == pos + 4 && text_at(bytes@, pos as int, le32(x as nat)),
{
    if bytes.len() - pos < 4 {
        return None;
    }
    let mut head: Vec<u8> = Vec::new();
    let mut i: usize = 0;
    while i < 4
        invariant
            i <= 4,
            pos + 4 <= bytes.len(),
            head@ == bytes@.subrange(pos as int, pos + i),
        decreases 4 - i,
    {
        head.push(bytes[pos + i]);
        i = i + 1;
        proof {
            assert(head@ =~= bytes@.subrange(pos as int, pos + i));
        }
    }
    let x = u32_from_le_bytes(head.as_slice());
    proof {
        vstd::bytes::lemma_auto_spec_u32_to_from_le_bytes();
        assert((x as nat) as u32 == x);
        assert(spec_u32_to_le_bytes(x) == head@);
    }
    Some((x, pos + 4))
}

proof fn lemma_record_at(bytes: Seq<u8>, pos: int, m: TypeModel)
    ensures
        text_at(bytes, pos, type_record(m)) <==> text_at(bytes, pos, le32(type_text(m).len()))
            && text_at(bytes, pos + le32(type_text(m).len()).len(), type_text(m)),
{
    lemma_text_at_concat(bytes, pos, le32(type_text(m).len()), type_text(m));
}

fn copy_range(s: &[u8], start: usize, end: usize) -> (r: Vec<u8>)
    requires
        start <= end <= s.len(),
    ensures
        r@ == s@.subrange(start as int, end as int),
{
    let mut out: Vec<u8> = Vec::new();
    let mut i = start;
    while i < end
        invariant
            start <= i <= end <= s.len(),
            out@ == s@.subrange(start as int, i as int),
        decreases end - i,
    {
        out.push(s[i]);
        i = i + 1;
        proof {
            assert(out@ =~= s@.subrange(start as int, i as int));
        }
    }
    out
}

/// Read the record of a type (its length, then its canonical text) at `pos`.
///
/// Returns the type and the position after the record, or `None` if the bytes are
/// truncated or the text is not the canonical text of a valid type.
pub fn read_aliased_type(bytes: &[u8], pos: usize) -> (r: Option<(AliasedType, usize)>)
    requires
        pos <= bytes.len(),
    ensures
        r matches Some((t, p)) ==> {
            &&& valid_type(t@) && writable_type(t@)
            &&& text_at(bytes@, pos as int, type_record(t@))
            &&& p == pos + type_record(t@).len()
        },
        forall|m: TypeModel|
            valid_type(m) && writable_type(m) && #[trigger] text_at(bytes@, pos as int, type_record(m))
                ==> (r matches Some((t, p)) && t@ == m),
{
    proof {
        vstd::bytes::lemma_auto_spec_u32_to_from_le_bytes();
        assert forall|m: TypeModel|
            valid_type(m) && writable_type(m) && #[trigger] text_at(bytes@, pos as int, type_record(m))
            implies text_at(bytes@, pos as int, le32(type_text(m).len())) && text_at(
            bytes@,
            pos + 4,
            type_text(m),
        ) && le32(type_text(m).len()).len() == 4 by {
            lemma_le32(type_text(m).len());
            lemma_record_at(bytes@, pos as int, m);
        }
    }
    let (len, q) = match read_u32(bytes, pos) {
        None => return None,
        Some(x) => x,
    };
    let len = len as usize;
    proof {
        // The length field of any record at `pos` is `len`.
        assert forall|m: TypeModel|
            valid_type(m) && writable_type(m) && #[trigger] text_at(bytes@, pos as int, type_record(m))
            implies type_text(m).len() == len by {
            lemma_le32(type_text(m).len());
            lemma_le32(len as nat);
            assert(bytes@.subrange(pos as int, pos + 4) == le32(type_text(m).len()));
        }
    }
    if bytes.len() - q < len {
        return None;
    }
    let text = copy_range(bytes, q, q + len);
    match parse_aliased_type(text.as_slice()) {
        None => {
            proof {
                assert forall|m: TypeModel|
                    valid_type(m) && writable_type(m) && #[trigger] text_at(bytes@, pos as int, type_record(m))
                    implies false by {
                    assert(type_text(m) == text@);
                }
            }
            None
        },
        Some(t) => {
            proof {
                lemma_le32(len as nat);
                lemma_record_at(bytes@, pos as int, t@);
                assert(bytes@.subrange(q as int, q + len) == type_text(t@));
                assert forall|m: TypeModel|
                    valid_type(m) && writable_type(m) && #[trigger] text_at(bytes@, pos as int, type_record(m))
                    implies t@ == m by {
                    assert(type_text(m) == text@);
                }
            }
            Some((t, q + len))
        },
    }
}

proof fn lemma_records_at(bytes: Seq<u8>, p: int, ts: Seq<TypeModel>, k: int)
    requires
        text_at(bytes, p, type_records(ts)),
        0 <= k <= ts.len(),
    ensures
        text_at(bytes, p, type_records(ts.take(k))),
        k < ts.len() ==> text_at(bytes, p + type_records(ts.take(k)).len(), type_record(ts[k])),
    decreases ts.len(),
{
    if k == ts.len() {
        assert(ts.take(k) =~= ts);
    } else {
        let dl = ts.drop_last();
        lemma_text_at_concat(bytes, p, type_records(dl), type_record(ts.last()));
        lemma_records_at(bytes, p, dl, k);
        assert(dl.take(k) =~= ts.take(k));
        if k < dl.len() {
            assert(dl[k] == ts[k]);
        } else {
            assert(dl.take(k) =~= dl);
        }
    }
}

/// Read a [`SourceJetClassification`] from the start of `bytes`.
///
/// Returns `None` if the buffer is truncated, carries an unknown tag, or holds a
/// type text that is not the canonical text of a valid type. Bytes after the
/// classification are ignored.
pub fn deserialize_source_jet_classification(bytes: &[u8]) -> (r: Option<SourceJetClassification>)
    ensures
        r matches Some(c) ==> portable_source(c@) && text_at(bytes@, 0, source_wire(c@)),
        forall|c: SourceModel|
            portable_source(c) && #[trigger] text_at(bytes@, 0, source_wire(c)) ==> (r matches Some(d)
                && d@ == c),
        source_read_result(bytes@, match r { Some(c) => Some(c@), None => None }),
{
    proof {
        assert forall|c: SourceModel| portable_source(c) && #[trigger] text_at(bytes@, 0, source_wire(c))
            implies bytes@.len() >= 1 && bytes@[0] == source_wire(c)[0] by {
            assert(bytes@.subrange(0, source_wire(c).len() as int)[0] == bytes@[0]);
        }
    }
    if bytes.len() == 0 {
        return None;
    }
    let tag = bytes[0];
    if tag == 0 {
        proof {
            assert(bytes@.subrange(0, 1) =~= seq![0u8]);
        }
        return Some(SourceJetClassification::Unary);
    } else if tag == 1 {
        proof {
            assert(bytes@.subrange(0, 1) =~= seq![1u8]);
        }
        return Some(SourceJetClassification::Binary);
    } else if tag == 2 {
        proof {
            assert(bytes@.subrange(0, 1) =~= seq![2u8]);
        }
        return Some(SourceJetClassification::Ternary);
    } else if tag == 3 {
        proof {
            assert(bytes@.subrange(0, 1) =~= seq![3u8]);
        }
        return Some(SourceJetClassification::Quaternary);
    } else if tag != 4 {
        return None;
    }
    let ghost bv = bytes@;
    proof {
        vstd::bytes::lemma_auto_spec_u32_to_from_le_bytes();
        assert forall|c: SourceModel| portable_source(c) && #[trigger] text_at(bv, 0, source_wire(c)) implies ({
            let ts = c->Custom_0;
            &&& c is Custom
            &&& text_at(bv, 1, le32(ts.len()))
            &&& text_at(bv, 5, type_records(ts))
        }) by {
            let ts = c->Custom_0;
            lemma_le32(ts.len());
            lemma_text_at_concat(bv, 0, seq![4u8] + le32(ts.len()), type_records(ts));
            lemma_text_at_concat(bv, 0, seq![4u8], le32(ts.len()));
        }
    }
    let (count, mut p) = match read_u32(bytes, 1) {
        None => return None,
        Some(x) => x,
    };
    proof {
        assert forall|c: SourceModel| portable_source(c) && #[trigger] text_at(bv, 0, source_wire(c)) implies c->Custom_0.len()
            == count by {
            lemma_le32(c->Custom_0.len());
            lemma_le32(count as nat);
            assert(bv.subrange(1, 5) == le32(c->Custom_0.len()));
        }
    }
    let mut types: Vec<AliasedType> = Vec::new();
    let mut i: u32 = 0;
    proof {
        AliasedType::lemma_models(types@);
        assert(bv.subrange(5, 5) =~= Seq::<u8>::empty());
        assert(type_records(AliasedType::models(types@)) =~= Seq::<u8>::empty());
    }
    while i < count
        invariant
            bv == bytes@,
            5 <= p <= bytes.len(),
            types.len() == i <= count,
            AliasedType::models(types@).len() == types.len(),
            text_at(bv, 1, le32(count as nat)),
            text_at(bv, 5, type_records(AliasedType::models(types@))),
            p == 5 + type_records(AliasedType::models(types@)).len(),
            forall|j: int| 0 <= j < types.len() ==> valid_type(#[trigger] AliasedType::models(types@)[j])
                && writable_type(AliasedType::models(types@)[j]),
            forall|c: SourceModel| portable_source(c) && #[trigger] text_at(bv, 0, source_wire(c)) ==> {
                &&& c is Custom
                &&& c->Custom_0.len() == count
                &&& text_at(bv, 5, type_records(c->Custom_0))
                &&& AliasedType::models(types@) == c->Custom_0.take(i as int)
            },
        decreases count - i,
    {
        let ghost ms = AliasedType::models(types@);
        let ghost v0 = types@;
        let ghost p0 = p as int;
        proof {
            assert forall|c: SourceModel| portable_source(c) && #[trigger] text_at(bv, 0, source_wire(c)) implies ({
                let ts = c->Custom_0;
                &&& text_at(bv, p0, type_record(ts[i as int]))
                &&& valid_type(ts[i as int]) && writable_type(ts[i as int])
            }) by {
                let ts = c->Custom_0;
                lemma_records_at(bv, 5, ts, i as int);
            }
        }
        let (t, next) = match read_aliased_type(bytes, p) {
            None => {
                proof {
                    assert forall|c: SourceModel| portable_source(c) && #[trigger] text_at(bv, 0, source_wire(c)) implies false by {
                        let ts = c->Custom_0;
                        assert(text_at(bv, p0, type_record(ts[i as int])));
                    }
                }
                return None;
            },
            Some(x) => x,
        };
        let ghost mt = t@;
        types.push(t);
        p = next;
        i = i + 1;
        proof {
            AliasedType::lemma_models(types@);
            assert(types@.drop_last() =~= v0);
            let ms2 = AliasedType::models(types@);
            assert(ms2 == ms.push(mt));
            assert(ms2.drop_last() =~= ms);
            assert(type_records(ms2) == type_records(ms) + type_record(mt));
            lemma_text_at_concat(bv, 5, type_records(ms), type_record(mt));
            assert forall|c: SourceModel| portable_source(c) && #[trigger] text_at(bv, 0, source_wire(c)) implies ms2
                == c->Custom_0.take(i as int) by {
                let ts = c->Custom_0;
                assert(text_at(bv, p0, type_record(ts[i - 1])));
                assert(ms2 =~= ts.take(i as int));
            }
        }
    }
    let ghost ms = AliasedType::models(types@);
    let r = SourceJetClassification::Custom(types);
    proof {
        lemma_text_at_concat(bv, 0, seq![4u8], le32(count as nat));
        assert(bv.subrange(0, 1) =~= seq![4u8]);
        lemma_text_at_concat(bv, 0, seq![4u8] + le32(count as nat), type_records(ms));
        assert(r@ == SourceModel::Custom(ms));
        assert forall|c: SourceModel| portable_source(c) && #[trigger] text_at(bv, 0, source_wire(c)) implies r@
            == c by {
            assert(c->Custom_0.take(count as int) =~= c->Custom_0);
        }
    }
    Some(r)
}

/// Read a [`TargetJetClassification`] from the start of `bytes`.
///
/// Returns `None` if the buffer is truncated, carries an unknown tag, or holds a
/// type text that is not the canonical text of a valid type. Bytes after the
/// classification are ignored.
pub fn deserialize_target_jet_classification(bytes: &[u8]) -> (r: Option<TargetJetClassification>)
    ensures
        r matches Some(c) ==> portable_target(c@) && text_at(bytes@, 0, target_wire(c@)),
        forall|c: TargetModel|
            portable_target(c) && #[trigger] text_at(bytes@, 0, target_wire(c)) ==> (r matches Some(d)
                && d@ == c),
        target_read_result(bytes@, match r { Some(c) => Some(c@), None => None }),
{
    proof {
        assert forall|c: TargetModel| portable_target(c) && #[trigger] text_at(bytes@, 0, target_wire(c))
            implies bytes@.len() >= 1 && bytes@[0] == target_wire(c)[0] by {
            assert(bytes@.subrange(0, target_wire(c).len() as int)[0] == bytes@[0]);
        }
    }
    if bytes.len() == 0 {
        return None;
    }
    let tag = bytes[0];
    if tag == 0 {
        proof {
            assert(bytes@.subrange(0, 1) =~= seq![0u8]);
        }
        return Some(TargetJetClassification::Unary);
    } else if tag != 1 {
        return None;
    }
    proof {
        assert forall|c: TargetModel| portable_target(c) && #[trigger] text_at(bytes@, 0, target_wire(c))
            implies c is Custom && text_at(bytes@, 1, type_record(c->Custom_0)) by {
            lemma_text_at_concat(bytes@, 0, seq![1u8], type_record(c->Custom_0));
        }
    }
    match read_aliased_type(bytes, 1) {
        None => None,
        Some((t, _)) => {
            proof {
                assert(bytes@.subrange(0, 1) =~= seq![1u8]);
                lemma_text_at_concat(bytes@, 0, seq![1u8], type_record(t@));
            }
            Some(TargetJetClassification::Custom(t))
        },
    }
}


/// What reading a source classification from `bytes` may return: a portable
/// classification whose wire bytes start `bytes`, and whenever there is such a
/// classification, that one.
pub open spec fn source_read_result(bytes: Seq<u8>, r: Option<SourceModel>) -> bool {
    &&& r matches Some(c) ==> portable_source(c) && text_at(bytes, 0, source_wire(c))
    &&& forall|c: SourceModel| portable_source(c) && #[trigger] text_at(bytes, 0, source_wire(c)) ==> r == Some(c)
}

/// What reading a target classification from `bytes` may return.
pub open spec fn target_read_result(bytes: Seq<u8>, r: Option<TargetModel>) -> bool {
    &&& r matches Some(c) ==> portable_target(c) && text_at(bytes, 0, target_wire(c))
    &&& forall|c: TargetModel| portable_target(c) && #[trigger] text_at(bytes, 0, target_wire(c)) ==> r == Some(c)
}

/// Reading back the wire bytes of a portable source classification, alone or
/// followed by further bytes, gives the classification.
pub proof fn law_source_round_trip(c: SourceModel, rest: Seq<u8>, r: Option<SourceModel>)
    requires
        portable_source(c),
        source_read_result(source_wire(c) + rest, r),
    ensures
        r == Some(c),
{
    assert((source_wire(c) + rest).subrange(0, source_wire(c).len() as int) =~= source_wire(c));
    assert(text_at(source_wire(c) + rest, 0, source_wire(c)));
}

/// Reading back the wire bytes of a portable target classification, alone or
/// followed by further bytes, gives the classification.
pub proof fn law_target_round_trip(c: TargetModel, rest: Seq<u8>, r: Option<TargetModel>)
    requires
        portable_target(c),
        target_read_result(target_wire(c) + rest, r),
    ensures
        r == Some(c),
{
    assert((target_wire(c) + rest).subrange(0, target_wire(c).len() as int) =~= target_wire(c));
    assert(text_at(target_wire(c) + rest, 0, target_wire(c)));
}

} // verus!
