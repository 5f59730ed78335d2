//! A jet library that can be loaded into the compiler at run time.
//!
//! The host speaks in terms of [`ExternalJet`] handles (an integer index); all
//! behaviour lives on [`HappyJet`]. Every exported function rebuilds the real
//! jet from the handle and asks it. The host hands out only indices that this
//! library gave it, so the exports require a known index.
use vstd::prelude::*;

use crate::jet::{SourceJetClassification, SourceModel, TargetJetClassification, TargetModel, bool, unit};
use crate::types::{AliasedType, TypeModel};

verus! {

/// Handle of a jet that lives in an external jet library.
#[derive(Clone, Copy, PartialEq, Eq, PartialOrd, Ord, Debug, Hash)]
pub struct ExternalJet {
    pub index: u64,
}

impl ExternalJet {
    /// Create the handle of the jet with the given index.
    pub fn new(index: u64) -> (r: ExternalJet)
        ensures
            r.index == index,
    {
        ExternalJet { index }
    }
}

/// Jet hinter that resolves jet names through the loaded external jet library.
#[derive(Clone, Copy, Debug, Default)]
pub struct ExternalJetHinter;

impl ExternalJetHinter {
    /// Create the hinter.
    pub fn new() -> (r: ExternalJetHinter) {
        ExternalJetHinter
    }
}

/// External jet backend for builds in which the library is a separate module
/// that exchanges only scalars and bytes with the compiler.
#[derive(Clone, Copy, Debug, Default)]
pub struct ExternalJetWasmLib;

/// The jets of this library.
#[derive(Clone, Copy, PartialEq, Eq, PartialOrd, Ord, Debug, Hash)]
pub enum HappyJet {
    Verify,
}

/// Error of resolving a jet name.
#[derive(Debug, PartialEq, Eq)]
pub enum JetParseError {
    /// No jet of the library has this name.
    InvalidJetName(String),
}

/// Error of decoding a jet from a program's bit stream.
#[derive(Debug, PartialEq, Eq, Structural)]
pub enum JetDecodeError {
    /// The stream ended before the code of a jet.
    EndOfStream,
    /// The bits are the code of no jet of the library.
    InvalidJet,
}

/// The name of the `verify` jet.
pub open spec fn verify_name() -> Seq<char> {
    seq!['v', 'e', 'r', 'i', 'f', 'y']
}

/// Commitment Merkle root of the `verify` jet.
pub open spec fn verify_cmr() -> Seq<u8> {
    seq![
        0xcdu8, 0xcau8, 0x2au8, 0x05u8, 0xe5u8, 0x2cu8, 0xefu8, 0xa5u8, 0x9du8, 0xc7u8, 0xa5u8,
        0xb0u8, 0xdau8, 0xe2u8, 0x20u8, 0x98u8, 0xfbu8, 0x89u8, 0x6eu8, 0x39u8, 0x13u8, 0xbfu8,
        0xddu8, 0x44u8, 0x6bu8, 0x59u8, 0x4eu8, 0x1fu8, 0x92u8, 0x50u8, 0x78u8, 0x3eu8,
    ]
}

impl HappyJet {
    pub open spec fn spec_index(self) -> u64 {
        match self {
            HappyJet::Verify => 0,
        }
    }

    pub open spec fn spec_from_index(index: u64) -> Option<HappyJet> {
        if index == 0 {
            Some(HappyJet::Verify)
        } else {
            None
        }
    }

    /// Index of the jet in the library.
    pub fn index(&self) -> (r: u64)
        ensures
            r == self.spec_index(),
    {
        match self {
            HappyJet::Verify => 0,
        }
    }

    /// The jet with the given index, if there is one.
    pub fn from_index(index: u64) -> (r: Option<HappyJet>)
        ensures
            r == Self::spec_from_index(index),
    {
        match index {
            0 => Some(HappyJet::Verify),
            _ => None,
        }
    }

    /// Commitment Merkle root of the jet, its identity.
    pub fn cmr_bytes(&self) -> (r: [u8; 32])
        ensures
            r@ == verify_cmr(),
    {
        let r: [u8; 32] = [
            0xcd, 0xca, 0x2a, 0x05, 0xe5, 0x2c, 0xef, 0xa5, 0x9d, 0xc7, 0xa5, 0xb0, 0xda, 0xe2, 0x20,
            0x98, 0xfb, 0x89, 0x6e, 0x39, 0x13, 0xbf, 0xdd, 0x44, 0x6b, 0x59, 0x4e, 0x1f, 0x92,
            0x50, 0x78, 0x3e,
        ];
        assert(r@ =~= verify_cmr());
        r
    }

    /// Name of the jet's Simplicity source type in Polish notation: `2`, the bit.
    pub fn source_ty_name(&self) -> (r: &'static str)
        ensures
            r@ == seq!['2'],
    {
        proof {
            reveal_strlit("2");
        }
        "2"
    }

    /// Name of the jet's Simplicity target type in Polish notation: `1`, the unit.
    pub fn target_ty_name(&self) -> (r: &'static str)
        ensures
            r@ == seq!['1'],
    {
        proof {
            reveal_strlit("1");
        }
        "1"
    }

    /// Bits that encode the jet in a program: the value and the number of bits,
    /// most significant first.
    pub fn encode_bits(&self) -> (r: (u64, usize))
        ensures
            r == self.spec_encode(),
            r == (0u64, 1usize),
    {
        match self {
            HappyJet::Verify => (0, 1),
        }
    }

    pub open spec fn spec_encode(self) -> (u64, usize) {
        match self {
            HappyJet::Verify => (0u64, 1usize),
        }
    }

    pub open spec fn spec_decode(next_bit: Option<bool>) -> Result<HappyJet, JetDecodeError> {
        match next_bit {
            None => Err(JetDecodeError::EndOfStream),
            Some(false) => Ok(HappyJet::Verify),
            Some(true) => Err(JetDecodeError::InvalidJet),
        }
    }

    /// Decode a jet from a program's bit stream, given its next bit (`None`
    /// at the end of the stream): the bit `0` is `verify`.
    pub fn decode(next_bit: Option<bool>) -> (r: Result<HappyJet, JetDecodeError>)
        ensures
            r == Self::spec_decode(next_bit),
            next_bit == Some(false) ==> r == Ok::<HappyJet, JetDecodeError>(HappyJet::Verify),
            next_bit == Some(true) ==> r == Err::<HappyJet, JetDecodeError>(JetDecodeError::InvalidJet),
            next_bit is None ==> r == Err::<HappyJet, JetDecodeError>(JetDecodeError::EndOfStream),
    {
        match next_bit {
            None => Err(JetDecodeError::EndOfStream),
            Some(false) => Ok(HappyJet::Verify),
            Some(true) => Err(JetDecodeError::InvalidJet),
        }
    }

    /// Execution cost of the jet in milliweight units.
    pub fn cost_milliweight(&self) -> (r: u32)
        ensures
            r == 44,
    {
        match self {
            HappyJet::Verify => 44,
        }
    }

    /// Resolve a jet name.
    pub fn parse(s: &str) -> (r: Result<HappyJet, JetParseError>)
        ensures
            s@ == verify_name() ==> r == Ok::<HappyJet, JetParseError>(HappyJet::Verify),
            s@ != verify_name() ==> (r matches Err(JetParseError::InvalidJetName(name)) && name@ == s@),
    {
        let name = s.to_owned();
        let verify = "verify".to_owned();
        proof {
            reveal_strlit("verify");
            assert(verify@ =~= verify_name());
        }
        if name == verify {
            Ok(HappyJet::Verify)
        } else {
            Err(JetParseError::InvalidJetName(name))
        }
    }

    /// Name of the jet.
    pub fn display(&self) -> (r: String)
        ensures
            r@ == verify_name(),
    {
        let r = "verify".to_owned();
        proof {
            reveal_strlit("verify");
            assert(r@ =~= verify_name());
        }
        r
    }

    /// How the compiler splits the jet's source type into arguments: one boolean.
    pub fn source_jet_classification(&self) -> (r: SourceJetClassification)
        ensures
            r@ == SourceModel::Custom(seq![TypeModel::Boolean]),
    {
        let mut types: Vec<AliasedType> = Vec::new();
        types.push(bool());
        proof {
            AliasedType::lemma_models(types@);
            assert(AliasedType::models(types@) =~= seq![TypeModel::Boolean]);
        }
        SourceJetClassification::Custom(types)
    }

    /// High-level output type of the jet: a single integer derived from its target.
    pub fn target_jet_classification(&self) -> (r: TargetJetClassification)
        ensures
            r@ == TargetModel::Unary,
    {
        TargetJetClassification::Unary
    }

    /// High-level argument types of the jet: one boolean.
    pub fn source_type(&self) -> (r: Vec<AliasedType>)
        ensures
            AliasedType::models(r@) == seq![TypeModel::Boolean],
    {
        let mut types: Vec<AliasedType> = Vec::new();
        types.push(bool());
        proof {
            AliasedType::lemma_models(types@);
            assert(AliasedType::models(types@) =~= seq![TypeModel::Boolean]);
        }
        types
    }

    /// High-level output type of the jet: the unit type.
    pub fn target_type(&self) -> (r: AliasedType)
        ensures
            r@ == TypeModel::Tuple(Seq::empty()),
    {
        unit()
    }

    /// Whether the jet may not be named directly in SimplicityHL source.
    pub fn is_disabled(&self) -> (r: bool)
        ensures
            !r,
    {
        false
    }
}

/// The jet behind a handle that this library handed out.
pub open spec fn known(jet: ExternalJet) -> bool {
    HappyJet::spec_from_index(jet.index) is Some
}

fn happy(jet: ExternalJet) -> (r: HappyJet)
    requires
        known(jet),
    ensures
        Some(r) == HappyJet::spec_from_index(jet.index),
{
    HappyJet::from_index(jet.index).unwrap()
}

/// Exported commitment Merkle root of a jet.
pub fn cmr(jet: ExternalJet) -> (r: [u8; 32])
    requires
        known(jet),
    ensures
        r@ == verify_cmr(),
{
    happy(jet).cmr_bytes()
}

/// Exported Simplicity source type of a jet, as its Polish-notation name.
pub fn source_ty(jet: ExternalJet) -> (r: &'static str)
    requires
        known(jet),
    ensures
        r@ == seq!['2'],
{
    happy(jet).source_ty_name()
}

/// Exported Simplicity target type of a jet, as its Polish-notation name.
pub fn target_ty(jet: ExternalJet) -> (r: &'static str)
    requires
        known(jet),
    ensures
        r@ == seq!['1'],
{
    happy(jet).target_ty_name()
}

/// Exported encoding of a jet: the value and number of its bits.
pub fn encode(jet: ExternalJet) -> (r: (u64, usize))
    requires
        known(jet),
    ensures
        r == (0u64, 1usize),
{
    happy(jet).encode_bits()
}

/// Exported cost of a jet in milliweight units.
pub fn cost(jet: ExternalJet) -> (r: u32)
    requires
        known(jet),
    ensures
        r == 44,
{
    happy(jet).cost_milliweight()
}

/// Exported name resolution: the handle of the jet with the given name.
pub fn parse(s: &str) -> (r: Result<ExternalJet, JetParseError>)
    ensures
        s@ == verify_name() ==> (r matches Ok(jet) && jet.index == 0),
        s@ != verify_name() ==> (r matches Err(JetParseError::InvalidJetName(name)) && name@ == s@),
{
    match HappyJet::parse(s) {
        Ok(jet) => Ok(ExternalJet { index: jet.index() }),
        Err(e) => Err(e),
    }
}

/// Exported name of a jet.
pub fn display(jet: ExternalJet) -> (r: String)
    requires
        known(jet),
    ensures
        r@ == verify_name(),
{
    happy(jet).display()
}

/// Exported source classification of a jet.
pub fn source_jet_classification(jet: ExternalJet) -> (r: SourceJetClassification)
    requires
        known(jet),
    ensures
        r@ == SourceModel::Custom(seq![TypeModel::Boolean]),
{
    happy(jet).source_jet_classification()
}

/// Exported target classification of a jet.
pub fn target_jet_classification(jet: ExternalJet) -> (r: TargetJetClassification)
    requires
        known(jet),
    ensures
        r@ == TargetModel::Unary,
{
    happy(jet).target_jet_classification()
}

/// Exported high-level argument types of a jet.
pub fn source_type(jet: ExternalJet) -> (r: Vec<AliasedType>)
    requires
        known(jet),
    ensures
        AliasedType::models(r@) == seq![TypeModel::Boolean],
{
    happy(jet).source_type()
}

/// Exported high-level output type of a jet.
pub fn target_type(jet: ExternalJet) -> (r: AliasedType)
    requires
        known(jet),
    ensures
        r@ == TypeModel::Tuple(Seq::empty()),
{
    happy(jet).target_type()
}

/// Exported: whether a jet may not be named directly in source.
pub fn is_disabled(jet: ExternalJet) -> (r: bool)
    requires
        known(jet),
    ensures
        !r,
{
    happy(jet).is_disabled()
}

/// Exported handle of the library's `verify` jet, used to lower `assert!`.
pub fn verify() -> (r: ExternalJet)
    ensures
        r.index == HappyJet::Verify.spec_index(),
{
    let jet = HappyJet::Verify;
    ExternalJet { index: jet.index() }
}

/// The caller's buffer `out` after as much of `bytes` as fits was copied to its start.
pub open spec fn written(bytes: Seq<u8>, out: Seq<u8>) -> Seq<u8> {
    let n = if bytes.len() < out.len() { bytes.len() } else { out.len() };
    bytes.take(n as int) + out.skip(n as int)
}

/// Decoding the bits of a jet's code gives the jet back.
pub proof fn law_decode_encode(jet: HappyJet)
    ensures
        jet.spec_encode().1 == 1,
        HappyJet::spec_decode(Some(jet.spec_encode().0 == 1)) == Ok::<HappyJet, JetDecodeError>(jet),
{
}

/// Copy `bytes` into the caller's buffer `out`, as much as fits, and report the
/// full length of `bytes`.
///
/// A caller whose buffer was too small can grow it to the reported length and
/// call again.
pub fn write_out(bytes: &[u8], out: &mut Vec<u8>) -> (r: i32)
    ensures
        final(out)@ == written(bytes@, old(out)@),
        final(out)@.len() == old(out)@.len(),
        ({
            let n = if bytes@.len() < old(out)@.len() { bytes@.len() } else { old(out)@.len() };
            &&& final(out)@.subrange(0, n as int) == bytes@.subrange(0, n as int)
            &&& final(out)@.subrange(n as int, old(out)@.len() as int) == old(out)@.subrange(n as int, old(out)@.len() as int)
        }),
        r == bytes@.len() as i32,
{
    let n = if bytes.len() < out.len() { bytes.len() } else { out.len() };
    let mut i: usize = 0;
    while i < n
        invariant
            n <= bytes.len(),
            n <= old(out)@.len(),
            i <= n,
            out@.len() == old(out)@.len(),
            forall|j: int| 0 <= j < i ==> out@[j] == bytes@[j],
            forall|j: int| i <= j < out@.len() ==> out@[j] == old(out)@[j],
        decreases n - i,
    {
        out.set(i, bytes[i]);
        i = i + 1;
    }
    proof {
        assert(out@ =~= written(bytes@, old(out)@));
        assert(out@.subrange(0, n as int) =~= bytes@.subrange(0, n as int));
        assert(out@.subrange(n as int, out@.len() as int) =~= old(out)@.subrange(n as int, old(out)@.len() as int));
    }
    bytes.len() as i32
}

} // verus!
