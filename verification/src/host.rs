//! Host side of the byte-level protocol in which the compiler talks to an
//! external jet library that lives in a separate memory: the decisions the
//! host takes on the statuses and bytes that the library's shims hand back.
use vstd::prelude::*;
use vstd::string::StringSliceAdditionalSpecFns;
use vstd::string::StringExecFns;
use vstd::utf8::encode_utf8;

use crate::parse::{all_digits, digits_value, is_digit, lemma_value_prefix};
use crate::jet::{SourceJetClassification, SourceModel, TargetJetClassification, TargetModel};
use crate::plugin::{verify_cmr, written, ExternalJet, HappyJet, JetParseError};
use crate::types::{AliasedType, TypeModel};

verus! {

/// The message of the last failure, as the host reports it to its embedder.
pub struct LastError {
    message: String,
}

impl View for LastError {
    type V = Seq<char>;

    closed spec fn view(&self) -> Seq<char> {
        self.message@
    }
}

/// A fresh store for the last error message, holding the empty message.
pub fn last_error_store() -> (r: LastError)
    ensures
        r@ == Seq::<char>::empty(),
{
    LastError { message: String::new() }
}

impl LastError {
    /// Record `msg` as the last error.
    pub fn set_last_error(&mut self, msg: String)
        ensures
            final(self)@ == msg@,
    {
        self.message = msg;
    }

    /// Forget the last error: the message becomes empty.
    pub fn clear_last_error(&mut self)
        ensures
            final(self)@ == Seq::<char>::empty(),
    {
        self.message = String::new();
    }

    /// The last error message.
    pub fn message(&self) -> (r: &str)
        ensures
            r@ == self@,
    {
        self.message.as_str()
    }
}

/// The bytes of the phrase by which a second initialization of the external
/// jet library is refused.
pub open spec fn already_initialized_phrase() -> Seq<u8> {
    seq![
        97u8, 108u8, 114u8, 101u8, 97u8, 100u8, 121u8, 32u8, 98u8, 101u8, 101u8, 110u8, 32u8,
        105u8, 110u8, 105u8, 116u8, 105u8, 97u8, 108u8, 105u8, 122u8, 101u8, 100u8,
    ]
}

/// `pattern` occurs in `text` as a contiguous run.
pub open spec fn contains_bytes(text: Seq<u8>, pattern: Seq<u8>) -> bool {
    exists|i: int| 0 <= i && i + pattern.len() <= text.len() && #[trigger] text.subrange(i, i + pattern.len()) == pattern
}

/// Whether `pattern` occurs in `text`.
fn find_bytes(text: &[u8], pattern: &[u8]) -> (r: bool)
    ensures
        r == contains_bytes(text@, pattern@),
{
    if pattern.len() > text.len() {
        return false;
    }
    let last = text.len() - pattern.len();
    let mut i: usize = 0;
    while i <= last
        invariant
            last == text.len() - pattern.len(),
            i <= last + 1,
            forall|k: int| 0 <= k < i ==> #[trigger] text@.subrange(k, k + pattern@.len()) != pattern@,
        decreases last + 1 - i,
    {
        let mut j: usize = 0;
        let mut same = true;
        while j < pattern.len()
            invariant
                i <= last,
                last == text.len() - pattern.len(),
                j <= pattern.len(),
                same == (forall|m: int| 0 <= m < j ==> text@[i + m] == pattern@[m]),
            decreases pattern.len() - j,
        {
            if text[i + j] != pattern[j] {
                same = false;
            }
            j = j + 1;
        }
        if same {
            proof {
                assert(text@.subrange(i as int, i + pattern@.len()) =~= pattern@);
            }
            return true;
        }
        proof {
            let m = choose|m: int| 0 <= m < pattern.len() && text@[i + m] != pattern@[m];
            assert(text@.subrange(i as int, i + pattern@.len())[m] == text@[i + m]);
        }
        i = i + 1;
    }
    proof {
        assert forall|k: int| 0 <= k && k + pattern@.len() <= text@.len() implies
            #[trigger] text@.subrange(k, k + pattern@.len()) != pattern@ by {
            assert(k < i);
        }
    }
    false
}

/// Decide, from the outcome of initializing the external jet library, whether
/// the backend is ready.
///
/// A library that was initialized before is ready too: its refusal says
/// "already been initialized". Any other failure is passed on.
pub fn ensure_external_backend_initialized(init: Result<(), String>) -> (r: Result<(), String>)
    ensures
        init is Ok ==> r is Ok,
        init matches Err(msg) ==> {
            &&& contains_bytes(encode_utf8(msg@), already_initialized_phrase()) ==> r is Ok
            &&& !contains_bytes(encode_utf8(msg@), already_initialized_phrase()) ==> (r matches Err(m) && m@ == msg@)
        },
{
    match init {
        Ok(()) => Ok(()),
        Err(msg) => {
            let phrase: [u8; 24] = [
                97, 108, 114, 101, 97, 100, 121, 32, 98, 101, 101, 110, 32, 105, 110, 105, 116, 105,
                97, 108, 105, 122, 101, 100,
            ];
            assert(phrase@ =~= already_initialized_phrase());
            if find_bytes(msg.as_str().as_bytes(), &phrase) {
                Ok(())
            } else {
                Err(msg)
            }
        },
    }
}

/// Capacity of the buffer with which a buffer-filling shim is called first.
pub const READ_SHIM_INITIAL_CAP: usize = 128;

/// What the host does after a call of a buffer-filling shim.
#[derive(Debug, PartialEq, Eq)]
pub enum ShimRead {
    /// The shim failed, or gave inconsistent lengths.
    Failed,
    /// The exact bytes that the shim produced.
    Bytes(Vec<u8>),
    /// The value did not fit: call the shim again with a buffer of this length.
    Retry(usize),
}

/// Model of a [`ShimRead`].
pub enum ShimOutcome {
    Failed,
    Bytes(Seq<u8>),
    Retry(nat),
}

impl View for ShimRead {
    type V = ShimOutcome;

    open spec fn view(&self) -> ShimOutcome {
        match self {
            ShimRead::Failed => ShimOutcome::Failed,
            ShimRead::Bytes(b) => ShimOutcome::Bytes(b@),
            ShimRead::Retry(n) => ShimOutcome::Retry(*n as nat),
        }
    }
}

/// The decision after a shim call that returned `status` and filled `buf`.
///
/// A shim returns the full length of its value, or a negative status on
/// failure, and writes as much of the value as fits. On the first call
/// (`expected` is `None`) a value that fits is taken, and a longer one is asked
/// for again with a buffer of its length. On that second call (`expected` is
/// the length announced before) the shim must announce the same length.
pub open spec fn shim_outcome(status: i32, buf: Seq<u8>, expected: Option<usize>) -> ShimOutcome {
    if status < 0 {
        ShimOutcome::Failed
    } else {
        match expected {
            None => if status <= buf.len() {
                ShimOutcome::Bytes(buf.take(status as int))
            } else {
                ShimOutcome::Retry(status as nat)
            },
            Some(n) => if status == n {
                ShimOutcome::Bytes(buf.take(status as int))
            } else {
                ShimOutcome::Failed
            },
        }
    }
}

/// Decide what to do after a call of a buffer-filling shim; see [`shim_outcome`].
///
/// On a second call the buffer has the length that the first call announced.
pub fn read_shim(status: i32, buf: Vec<u8>, expected: Option<usize>) -> (r: ShimRead)
    requires
        expected matches Some(n) ==> buf.len() == n,
    ensures
        r@ == shim_outcome(status, buf@, expected),
{
    if status < 0 {
        return ShimRead::Failed;
    }
    let needed = status as usize;
    match expected {
        None => {
            if needed > buf.len() {
                ShimRead::Retry(needed)
            } else {
                let mut buf = buf;
                buf.truncate(needed);
                ShimRead::Bytes(buf)
            }
        },
        Some(n) => {
            if needed != n {
                ShimRead::Failed
            } else {
                let mut buf = buf;
                buf.truncate(needed);
                ShimRead::Bytes(buf)
            }
        },
    }
}

/// A shim is called at most twice: the second call never asks for a third.
pub proof fn law_read_shim_retries_once(status: i32, buf: Seq<u8>, n: usize)
    ensures
        !(shim_outcome(status, buf, Some(n)) is Retry),
{
}

/// A value that fits the buffer is taken exactly, without a second call.
pub proof fn law_read_shim_exact(status: i32, buf: Seq<u8>)
    requires
        0 <= status <= buf.len(),
    ensures
        shim_outcome(status, buf, None) == ShimOutcome::Bytes(buf.take(status as int)),
        buf.take(status as int).len() == status,
{
}

/// A value that a shim hands over through [`write_out`] reaches the host
/// exactly: at once where it fits the first buffer, else on the one second call
/// with a buffer of the announced length.
pub proof fn law_shim_round_trip(value: Seq<u8>, first: Seq<u8>, second: Seq<u8>)
    requires
        value.len() <= i32::MAX,
        second.len() == value.len(),
    ensures
        value.len() <= first.len() ==> shim_outcome(value.len() as i32, written(value, first), None)
            == ShimOutcome::Bytes(value),
        value.len() > first.len() ==> {
            &&& shim_outcome(value.len() as i32, written(value, first), None) == ShimOutcome::Retry(value.len())
            &&& shim_outcome(value.len() as i32, written(value, second), Some(value.len() as usize))
                == ShimOutcome::Bytes(value)
        },
{
    if value.len() <= first.len() {
        assert(written(value, first).take(value.len() as int) =~= value);
    } else {
        assert(written(value, second).take(value.len() as int) =~= value);
    }
}

/// Reasons for which the packed code of an external jet cannot be replayed.
#[derive(Debug, PartialEq, Eq)]
pub enum EncodeReplayError {
    /// The shim reported a failure.
    Failed,
    /// The shim reported more bits than its buffer holds.
    ExceedsBuffer,
}

/// Width in bits of one write of a replay.
pub open spec fn write_width(w: (u64, usize)) -> nat {
    w.1 as nat
}

/// Total number of bits of a sequence of writes.
pub open spec fn total_width(ws: Seq<(u64, usize)>) -> nat
    decreases ws.len(),
{
    if ws.len() == 0 {
        0
    } else {
        total_width(ws.drop_last()) + write_width(ws.last())
    }
}

/// The writes that replay `n` bits packed MSB-first into `buf`: each full
/// byte as 8 bits, then the high bits of the next byte as the remaining bits.
pub open spec fn replay_writes(n: nat, buf: Seq<u8>) -> Seq<(u64, usize)> {
    let full = n / 8;
    let rem = n % 8;
    let bytes = Seq::new(full, |i: int| (buf[i] as u64, 8usize));
    if rem > 0 {
        bytes.push(((buf[full as int] >> ((8 - rem) as u8)) as u64, rem as usize))
    } else {
        bytes
    }
}

/// Plan the replay of the packed code of an external jet.
///
/// `n_bits` is what the encode shim returned and `buf` the buffer it filled.
/// On success the plan holds the `(value, width)` writes to make, most
/// significant bit first, and the number of bits they make up.
pub fn encode_replay(n_bits: i32, buf: &[u8]) -> (r: Result<(Vec<(u64, usize)>, usize), EncodeReplayError>)
    ensures
        n_bits < 0 ==> r == Err::<(Vec<(u64, usize)>, usize), EncodeReplayError>(EncodeReplayError::Failed),
        n_bits >= 0 && (n_bits + 7) / 8 > buf.len() ==> r == Err::<(Vec<(u64, usize)>, usize), EncodeReplayError>(
            EncodeReplayError::ExceedsBuffer,
        ),
        n_bits >= 0 && (n_bits + 7) / 8 <= buf.len() ==> (r matches Ok((writes, n)) && {
            &&& n == n_bits
            &&& writes@ == replay_writes(n_bits as nat, buf@)
        }),
{
    if n_bits < 0 {
        return Err(EncodeReplayError::Failed);
    }
    let n = n_bits as usize;
    let n_bytes = n / 8 + if n % 8 > 0 { 1usize } else { 0usize };
    assert(n_bytes == (n_bits + 7) / 8);
    if n_bytes > buf.len() {
        return Err(EncodeReplayError::ExceedsBuffer);
    }
    let full = n / 8;
    let rem = n % 8;
    let mut writes: Vec<(u64, usize)> = Vec::new();
    let mut i: usize = 0;
    while i < full
        invariant
            i <= full,
            full <= buf.len(),
            writes@ == Seq::new(i as nat, |k: int| (buf@[k] as u64, 8usize)),
        decreases full - i,
    {
        writes.push((buf[i] as u64, 8));
        proof {
            assert(writes@ =~= Seq::new((i + 1) as nat, |k: int| (buf@[k] as u64, 8usize)));
        }
        i = i + 1;
    }
    if rem > 0 {
        let shift: u8 = (8 - rem) as u8;
        let last: u64 = (buf[full] >> shift) as u64;
        writes.push((last, rem));
    }
    proof {
        assert(writes@ =~= replay_writes(n as nat, buf@));
    }
    Ok((writes, n))
}

/// The writes of a replay make up exactly the number of bits that the shim reported.
pub proof fn law_replay_width(n: nat, buf: Seq<u8>)
    ensures
        total_width(replay_writes(n, buf)) == n,
{
    let full = n / 8;
    let bytes = Seq::new(full, |i: int| (buf[i] as u64, 8usize));
    lemma_full_bytes_width(bytes);
    if n % 8 > 0 {
        let w = replay_writes(n, buf);
        assert(w.drop_last() =~= bytes);
    }
}

proof fn lemma_full_bytes_width(ws: Seq<(u64, usize)>)
    requires
        forall|i: int| 0 <= i < ws.len() ==> (#[trigger] ws[i]).1 == 8,
    ensures
        total_width(ws) == 8 * ws.len(),
    decreases ws.len(),
{
    if ws.len() > 0 {
        let p = ws.drop_last();
        assert forall|i: int| 0 <= i < p.len() implies (#[trigger] p[i]).1 == 8 by {
            assert(p[i] == ws[i]);
        }
        lemma_full_bytes_width(p);
        assert(ws.last() == ws[ws.len() - 1]);
    }
}

/// Bit `j` of what writing the low `width` bits of `value`, most significant
/// first, puts out.
pub open spec fn be_bit(value: u64, width: nat, j: nat) -> bool {
    (value >> ((width - 1 - j) as u64)) & 1u64 == 1u64
}

/// The bits that a write `(value, width)` puts out, most significant first.
pub open spec fn write_bits(w: (u64, usize)) -> Seq<bool> {
    Seq::new(w.1 as nat, |j: int| be_bit(w.0, w.1 as nat, j as nat))
}

/// The bits that a sequence of writes puts out, one write after the other.
pub open spec fn writes_bits(ws: Seq<(u64, usize)>) -> Seq<bool>
    decreases ws.len(),
{
    if ws.len() == 0 {
        Seq::empty()
    } else {
        writes_bits(ws.drop_last()) + write_bits(ws.last())
    }
}

/// Bit `i` of a buffer whose bytes are packed most significant bit first.
pub open spec fn packed_bit(buf: Seq<u8>, i: nat) -> bool {
    (buf[(i / 8) as int] >> ((7 - i % 8) as u8)) & 1u8 == 1u8
}

/// The first `n` bits of a buffer packed most significant bit first.
pub open spec fn packed_bits(buf: Seq<u8>, n: nat) -> Seq<bool> {
    Seq::new(n, |i: int| packed_bit(buf, i as nat))
}

proof fn lemma_byte_bit(b: u8, j: u64)
    by (bit_vector)
    requires
        j < 8,
    ensures
        (((b as u64) >> ((7 - j) as u64)) & 1u64 == 1u64) == ((b >> ((7 - j) as u8)) & 1u8 == 1u8),
{
}

proof fn lemma_high_bits_bit(b: u8, rem: u64, j: u64)
    by (bit_vector)
    requires
        0 < rem < 8,
        j < rem,
    ensures
        ((((b >> ((8 - rem) as u8)) as u64) >> ((rem - 1 - j) as u64)) & 1u64 == 1u64) == ((b >> ((7 - j) as u8)) & 1u8
            == 1u8),
{
}

proof fn lemma_full_bytes_bits(buf: Seq<u8>, k: nat)
    requires
        k <= buf.len(),
    ensures
        writes_bits(Seq::new(k, |i: int| (buf[i] as u64, 8usize))) == packed_bits(buf, 8 * k),
    decreases k,
{
    let ws = Seq::new(k, |i: int| (buf[i] as u64, 8usize));
    if k == 0 {
        assert(writes_bits(ws) =~= packed_bits(buf, 0));
    } else {
        let p = Seq::new((k - 1) as nat, |i: int| (buf[i] as u64, 8usize));
        assert(ws.drop_last() =~= p);
        lemma_full_bytes_bits(buf, (k - 1) as nat);
        let last = ws.last();
        assert(last == (buf[k - 1] as u64, 8usize));
        assert forall|i: int| 0 <= i < 8 * k implies #[trigger] writes_bits(ws)[i] == packed_bit(buf, i as nat) by {
            if i >= 8 * (k - 1) {
                let j = i - 8 * (k - 1);
                assert(writes_bits(ws)[i] == write_bits(last)[j]);
                assert(i / 8 == k - 1 && i % 8 == j) by (nonlinear_arith)
                    requires
                        i == 8 * (k - 1) + j,
                        0 <= j < 8,
                ;
                lemma_byte_bit(buf[k - 1], j as u64);
            } else {
                assert(writes_bits(ws)[i] == writes_bits(p)[i]);
                assert(packed_bits(buf, 8 * (k - 1) as nat)[i] == packed_bit(buf, i as nat));
            }
        }
        assert(writes_bits(ws) =~= packed_bits(buf, 8 * k));
    }
}

/// Replaying the writes of [`encode_replay`] puts out exactly the first `n`
/// bits of the shim's buffer, most significant bit first.
pub proof fn law_replay_bits(n: nat, buf: Seq<u8>)
    requires
        (n + 7) / 8 <= buf.len(),
    ensures
        writes_bits(replay_writes(n, buf)) == packed_bits(buf, n),
{
    let full = n / 8;
    let rem = n % 8;
    let bytes = Seq::new(full, |i: int| (buf[i] as u64, 8usize));
    assert(full <= buf.len());
    lemma_full_bytes_bits(buf, full);
    if rem == 0 {
        assert(8 * full == n);
    } else {
        let ws = replay_writes(n, buf);
        assert(ws.drop_last() =~= bytes);
        let last = ws.last();
        assert(full < buf.len());
        assert forall|i: int| 0 <= i < n implies #[trigger] writes_bits(ws)[i] == packed_bit(buf, i as nat) by {
            if i >= 8 * full {
                let j = i - 8 * full;
                assert(writes_bits(ws)[i] == write_bits(last)[j]);
                assert(i / 8 == full && i % 8 == j) by (nonlinear_arith)
                    requires
                        i == 8 * full + j,
                        0 <= j < 8,
                ;
                lemma_high_bits_bit(buf[full as int], rem as u64, j as u64);
            } else {
                assert(writes_bits(ws)[i] == writes_bits(bytes)[i]);
                assert(packed_bits(buf, 8 * full)[i] == packed_bit(buf, i as nat));
            }
        }
        assert(writes_bits(ws) =~= packed_bits(buf, n));
    }
}

/// The commitment Merkle root from the cmr shim, which must report exactly 32 bytes.
pub fn cmr_from_status(status: i32, bytes: [u8; 32]) -> (r: Option<[u8; 32]>)
    ensures
        status == 32 ==> r == Some(bytes),
        status != 32 ==> r is None,
{
    if status == 32 {
        Some(bytes)
    } else {
        None
    }
}

/// The milliweight written in decimal: an optional `+` and one or more
/// ASCII digits, leading zeros allowed.
pub open spec fn milliweight_text(s: Seq<u8>) -> Option<nat> {
    let ds = if s.len() > 0 && s[0] == 43u8 { s.drop_first() } else { s };
    if ds.len() > 0 && all_digits(ds) {
        Some(digits_value(ds))
    } else {
        None
    }
}

/// Read the milliweight that the cost shim wrote as text.
///
/// Returns `None` if the text is not a decimal number or the number does not
/// fit into `u32`.
pub fn parse_milliweight(s: &str) -> (r: Option<u32>)
    ensures
        r matches Some(v) ==> milliweight_text(s.spec_bytes()) == Some(v as nat),
        r is None ==> match milliweight_text(s.spec_bytes()) {
            Some(v) => v > u32::MAX,
            None => true,
        },
{
    let b = s.as_bytes();
    let start: usize = if b.len() > 0 && b[0] == 43u8 { 1 } else { 0 };
    let ghost ds = b@.subrange(start as int, b@.len() as int);
    proof {
        if start == 1 {
            assert(ds =~= b@.drop_first());
        } else {
            assert(ds =~= b@);
        }
    }
    if start == b.len() {
        return None;
    }
    let mut v: u32 = 0;
    let mut i: usize = start;
    while i < b.len()
        invariant
            start <= i <= b.len(),
            start < b.len(),
            ds == b@.subrange(start as int, b@.len() as int),
            b@ == s.spec_bytes(),
            ds == (if b@.len() > 0 && b@[0] == 43u8 { b@.drop_first() } else { b@ }),
            forall|j: int| start <= j < i ==> is_digit(#[trigger] b@[j]),
            v == digits_value(b@.subrange(start as int, i as int)),
        decreases b.len() - i,
    {
        let c = b[i];
        if c < 48u8 || c > 57u8 {
            proof {
                assert(ds[i - start] == c);
                assert(!all_digits(ds));
            }
            return None;
        }
        let d = (c - 48u8) as u32;
        let ghost next = b@.subrange(start as int, i + 1);
        proof {
            assert(next.drop_last() =~= b@.subrange(start as int, i as int));
        }
        if v > (u32::MAX - d) / 10 {
            proof {
                assert(v * 10 + d > u32::MAX) by (nonlinear_arith)
                    requires
                        v > (u32::MAX - d) / 10,
                        d < 10,
                ;
                assert(digits_value(next) > u32::MAX);
                assert(next =~= ds.take(i + 1 - start));
                lemma_value_prefix(ds, i + 1 - start);
                match milliweight_text(s.spec_bytes()) {
                    Some(w) => assert(w == digits_value(ds)),
                    None => {},
                }
            }
            return None;
        }
        assert(v * 10 + d <= u32::MAX) by (nonlinear_arith)
            requires
                v <= (u32::MAX - d) / 10,
                d < 10,
        ;
        v = v * 10 + d;
        i = i + 1;
    }
    proof {
        assert(b@.subrange(start as int, b@.len() as int) == ds);
        assert(all_digits(ds)) by {
            assert forall|k: int| 0 <= k < ds.len() implies is_digit(#[trigger] ds[k]) by {
                assert(ds[k] == b@[start + k]);
            }
        }
    }
    Some(v)
}

/// The handle that the parse shim produced: status `0` means the name was found.
pub fn jet_from_parse_status(status: i32, index: u64, name: &str) -> (r: Result<ExternalJet, JetParseError>)
    ensures
        status == 0 ==> r == Ok::<ExternalJet, JetParseError>(ExternalJet { index }),
        status != 0 ==> (r matches Err(JetParseError::InvalidJetName(n)) && n@ == name@),
{
    if status == 0 {
        Ok(ExternalJet::new(index))
    } else {
        Err(JetParseError::InvalidJetName(name.to_owned()))
    }
}

/// Whether the is-disabled shim's status says the jet is disabled: any status but `0`.
pub fn disabled_from_status(status: i32) -> (r: bool)
    ensures
        r == (status != 0),
{
    status != 0
}

/// Whether the two byte strings are equal.
fn bytes_eq(a: &[u8], b: &[u8]) -> (r: bool)
    ensures
        r == (a@ == b@),
{
    if a.len() != b.len() {
        return false;
    }
    let mut i: usize = 0;
    while i < a.len()
        invariant
            a.len() == b.len(),
            i <= a.len(),
            forall|k: int| 0 <= k < i ==> a@[k] == b@[k],
        decreases a.len() - i,
    {
        if a[i] != b[i] {
            return false;
        }
        i = i + 1;
    }
    assert(a@ =~= b@);
    true
}

/// The steps of the probe of a loaded external jet library, in their order.
#[derive(Clone, Copy, Debug, PartialEq, Eq, Structural)]
pub enum ProbeStep {
    /// Make sure the backend is initialized.
    Backend,
    /// Resolve the known name `verify`.
    ParseKnown,
    /// Resolve a name that no jet has.
    ParseUnknown,
    /// Read the commitment Merkle root.
    Cmr,
    /// Read the name of the source type.
    SourceTy,
    /// Read the name of the target type.
    TargetTy,
    /// Read the cost.
    Cost,
    /// Read the display name.
    Display,
    /// Read the source classification.
    SourceClassification,
    /// Read the target classification.
    TargetClassification,
    /// Ask whether the jet is disabled.
    Disabled,
    /// Encode the jet.
    Encode,
}

/// What the host observed at a step of the probe.
#[derive(Debug, PartialEq, Eq)]
pub enum ProbeObservation {
    /// The outcome of making sure that the backend is initialized.
    Backend(Result<(), String>),
    /// Whether the known name resolved to a jet.
    ParseKnown(bool),
    /// Whether the unknown name resolved to a jet.
    ParseUnknown(bool),
    /// The commitment Merkle root.
    Cmr([u8; 32]),
    /// The bytes of the source type's name.
    SourceTy(Vec<u8>),
    /// The bytes of the target type's name.
    TargetTy(Vec<u8>),
    /// Whether the cost is the expected one, [`PROBE_COST`] milliweight.
    CostMatches(bool),
    /// The bytes of the display name.
    Display(Vec<u8>),
    /// The source classification.
    SourceClassification(SourceJetClassification),
    /// The target classification.
    TargetClassification(TargetJetClassification),
    /// Whether the jet is disabled.
    Disabled(bool),
    /// Encoding into the bit writer failed.
    EncodeFailed,
    /// Flushing the bit writer failed.
    FlushFailed,
    /// The number of bits that encoding reported and the bytes that were written.
    Encoded(usize, Vec<u8>),
}

/// Why the probe failed.
#[derive(Clone, Copy, Debug, PartialEq, Eq, Structural)]
pub enum ProbeFailure {
    BackendInit,
    ParseKnown,
    ParseUnknown,
    Cmr,
    SourceTy,
    TargetTy,
    Cost,
    Display,
    SourceClassification,
    TargetClassification,
    Disabled,
    EncodeFailed,
    FlushFailed,
    EncodeMismatch,
}

/// What the host does after a step of the probe.
#[derive(Clone, Copy, Debug, PartialEq, Eq, Structural)]
pub enum ProbeAction {
    /// Go on with the given step.
    Next(ProbeStep),
    /// Every step gave the expected result.
    Succeed,
    /// Stop with the given status code and reason.
    Fail(i32, ProbeFailure),
}

impl ProbeAction {
    pub open spec fn spec_code(self) -> Option<i32> {
        match self {
            ProbeAction::Next(_) => None,
            ProbeAction::Succeed => Some(0),
            ProbeAction::Fail(code, _) => Some(code),
        }
    }

    /// The status code with which the probe ends, if this action ends it.
    pub fn code(&self) -> (r: Option<i32>)
        ensures
            r == self.spec_code(),
    {
        match self {
            ProbeAction::Next(_) => None,
            ProbeAction::Succeed => Some(0),
            ProbeAction::Fail(code, _) => Some(*code),
        }
    }
}

/// The cost, in milliweight, that the probed `verify` jet must report.
pub const PROBE_COST: u32 = 44;

/// The bytes of the display name of the probed jet: `verify`.
pub open spec fn probe_display() -> Seq<u8> {
    seq![118u8, 101u8, 114u8, 105u8, 102u8, 121u8]
}

/// The step at which the observation is made.
pub open spec fn observed_step(obs: ProbeObservation) -> ProbeStep {
    match obs {
        ProbeObservation::Backend(_) => ProbeStep::Backend,
        ProbeObservation::ParseKnown(_) => ProbeStep::ParseKnown,
        ProbeObservation::ParseUnknown(_) => ProbeStep::ParseUnknown,
        ProbeObservation::Cmr(_) => ProbeStep::Cmr,
        ProbeObservation::SourceTy(_) => ProbeStep::SourceTy,
        ProbeObservation::TargetTy(_) => ProbeStep::TargetTy,
        ProbeObservation::CostMatches(_) => ProbeStep::Cost,
        ProbeObservation::Display(_) => ProbeStep::Display,
        ProbeObservation::SourceClassification(_) => ProbeStep::SourceClassification,
        ProbeObservation::TargetClassification(_) => ProbeStep::TargetClassification,
        ProbeObservation::Disabled(_) => ProbeStep::Disabled,
        ProbeObservation::EncodeFailed => ProbeStep::Encode,
        ProbeObservation::FlushFailed => ProbeStep::Encode,
        ProbeObservation::Encoded(_, _) => ProbeStep::Encode,
    }
}

/// The step after the given one; `None` after the last.
pub open spec fn step_after(step: ProbeStep) -> Option<ProbeStep> {
    match step {
        ProbeStep::Backend => Some(ProbeStep::ParseKnown),
        ProbeStep::ParseKnown => Some(ProbeStep::ParseUnknown),
        ProbeStep::ParseUnknown => Some(ProbeStep::Cmr),
        ProbeStep::Cmr => Some(ProbeStep::SourceTy),
        ProbeStep::SourceTy => Some(ProbeStep::TargetTy),
        ProbeStep::TargetTy => Some(ProbeStep::Cost),
        ProbeStep::Cost => Some(ProbeStep::Display),
        ProbeStep::Display => Some(ProbeStep::SourceClassification),
        ProbeStep::SourceClassification => Some(ProbeStep::TargetClassification),
        ProbeStep::TargetClassification => Some(ProbeStep::Disabled),
        ProbeStep::Disabled => Some(ProbeStep::Encode),
        ProbeStep::Encode => None,
    }
}

/// Whether the observation is what the `verify` jet of the example library
/// gives, and if not, the status code and reason of the failure.
pub open spec fn probe_check(obs: ProbeObservation) -> Option<(i32, ProbeFailure)> {
    match obs {
        ProbeObservation::Backend(res) => if res is Ok { None } else { Some((1i32, ProbeFailure::BackendInit)) },
        ProbeObservation::ParseKnown(found) => if found { None } else { Some((1i32, ProbeFailure::ParseKnown)) },
        ProbeObservation::ParseUnknown(found) => if !found { None } else { Some((2i32, ProbeFailure::ParseUnknown)) },
        ProbeObservation::Cmr(bytes) => if bytes@ == verify_cmr() { None } else { Some((3i32, ProbeFailure::Cmr)) },
        ProbeObservation::SourceTy(name) => if name@ == seq![50u8] { None } else { Some((4i32, ProbeFailure::SourceTy)) },
        ProbeObservation::TargetTy(name) => if name@ == seq![49u8] { None } else { Some((5i32, ProbeFailure::TargetTy)) },
        ProbeObservation::CostMatches(ok) => if ok { None } else { Some((6i32, ProbeFailure::Cost)) },
        ProbeObservation::Display(name) => if name@ == probe_display() { None } else { Some((7i32, ProbeFailure::Display)) },
        ProbeObservation::SourceClassification(c) => if c@ == SourceModel::Custom(seq![TypeModel::Boolean]) {
            None
        } else {
            Some((8i32, ProbeFailure::SourceClassification))
        },
        ProbeObservation::TargetClassification(c) => if c@ == TargetModel::Unary {
            None
        } else {
            Some((9i32, ProbeFailure::TargetClassification))
        },
        ProbeObservation::Disabled(disabled) => if !disabled { None } else { Some((10i32, ProbeFailure::Disabled)) },
        ProbeObservation::EncodeFailed => Some((11i32, ProbeFailure::EncodeFailed)),
        ProbeObservation::FlushFailed => Some((11i32, ProbeFailure::FlushFailed)),
        ProbeObservation::Encoded(n, bytes) => if n == 1 && bytes@ == seq![0u8] {
            None
        } else {
            Some((12i32, ProbeFailure::EncodeMismatch))
        },
    }
}

/// The action after an observation: stop on the first unexpected result,
/// else go on with the next step, and succeed after the last.
pub open spec fn probe_action(obs: ProbeObservation) -> ProbeAction {
    match probe_check(obs) {
        Some((code, why)) => ProbeAction::Fail(code, why),
        None => match step_after(observed_step(obs)) {
            Some(next) => ProbeAction::Next(next),
            None => ProbeAction::Succeed,
        },
    }
}

/// Decide the next action of the probe of an external jet library from what
/// its current step observed; see [`probe_action`].
pub fn probe_step(obs: &ProbeObservation) -> (r: ProbeAction)
    ensures
        r == probe_action(*obs),
{
    match obs {
        ProbeObservation::Backend(res) => if res.is_ok() {
            ProbeAction::Next(ProbeStep::ParseKnown)
        } else {
            ProbeAction::Fail(1, ProbeFailure::BackendInit)
        },
        ProbeObservation::ParseKnown(found) => if *found {
            ProbeAction::Next(ProbeStep::ParseUnknown)
        } else {
            ProbeAction::Fail(1, ProbeFailure::ParseKnown)
        },
        ProbeObservation::ParseUnknown(found) => if !*found {
            ProbeAction::Next(ProbeStep::Cmr)
        } else {
            ProbeAction::Fail(2, ProbeFailure::ParseUnknown)
        },
        ProbeObservation::Cmr(bytes) => {
            let expected = HappyJet::Verify.cmr_bytes();
            if bytes_eq(bytes, &expected) {
                ProbeAction::Next(ProbeStep::SourceTy)
            } else {
                ProbeAction::Fail(3, ProbeFailure::Cmr)
            }
        },
        ProbeObservation::SourceTy(name) => {
            let expected: [u8; 1] = [50];
            assert(expected@ =~= seq![50u8]);
            if bytes_eq(name.as_slice(), &expected) {
                ProbeAction::Next(ProbeStep::TargetTy)
            } else {
                ProbeAction::Fail(4, ProbeFailure::SourceTy)
            }
        },
        ProbeObservation::TargetTy(name) => {
            let expected: [u8; 1] = [49];
            assert(expected@ =~= seq![49u8]);
            if bytes_eq(name.as_slice(), &expected) {
                ProbeAction::Next(ProbeStep::Cost)
            } else {
                ProbeAction::Fail(5, ProbeFailure::TargetTy)
            }
        },
        ProbeObservation::CostMatches(ok) => if *ok {
            ProbeAction::Next(ProbeStep::Display)
        } else {
            ProbeAction::Fail(6, ProbeFailure::Cost)
        },
        ProbeObservation::Display(name) => {
            let expected: [u8; 6] = [118, 101, 114, 105, 102, 121];
            assert(expected@ =~= probe_display());
            if bytes_eq(name.as_slice(), &expected) {
                ProbeAction::Next(ProbeStep::SourceClassification)
            } else {
                ProbeAction::Fail(7, ProbeFailure::Display)
            }
        },
        ProbeObservation::SourceClassification(c) => {
            let ok = match c {
                SourceJetClassification::Custom(types) => {
                    proof {
                        AliasedType::lemma_models(types@);
                    }
                    if types.len() == 1 {
                        let is_bool = matches!(types[0], AliasedType::Boolean);
                        proof {
                            if is_bool {
                                assert(AliasedType::models(types@) =~= seq![TypeModel::Boolean]);
                            } else {
                                assert(AliasedType::models(types@)[0] != TypeModel::Boolean);
                            }
                        }
                        is_bool
                    } else {
                        false
                    }
                },
                _ => false,
            };
            if ok {
                ProbeAction::Next(ProbeStep::TargetClassification)
            } else {
                ProbeAction::Fail(8, ProbeFailure::SourceClassification)
            }
        },
        ProbeObservation::TargetClassification(c) => match c {
            TargetJetClassification::Unary => ProbeAction::Next(ProbeStep::Disabled),
            _ => ProbeAction::Fail(9, ProbeFailure::TargetClassification),
        },
        ProbeObservation::Disabled(disabled) => if !*disabled {
            ProbeAction::Next(ProbeStep::Encode)
        } else {
            ProbeAction::Fail(10, ProbeFailure::Disabled)
        },
        ProbeObservation::EncodeFailed => ProbeAction::Fail(11, ProbeFailure::EncodeFailed),
        ProbeObservation::FlushFailed => ProbeAction::Fail(11, ProbeFailure::FlushFailed),
        ProbeObservation::Encoded(n, bytes) => {
            let expected: [u8; 1] = [0];
            assert(expected@ =~= seq![0u8]);
            if *n == 1 && bytes_eq(bytes.as_slice(), &expected) {
                ProbeAction::Succeed
            } else {
                ProbeAction::Fail(12, ProbeFailure::EncodeMismatch)
            }
        },
    }
}

/// The probe visits every step once, in order, and ends after the last:
/// an expected result leads to the next step, and only the encoding step can
/// succeed.
pub proof fn law_probe_progress(obs: ProbeObservation)
    ensures
        probe_action(obs) matches ProbeAction::Next(next) ==> step_after(observed_step(obs)) == Some(next),
        probe_action(obs) is Succeed ==> observed_step(obs) == ProbeStep::Encode,
        probe_action(obs) matches ProbeAction::Fail(code, _) ==> 1 <= code <= 12,
{
}

/// The fixed text of the message for a failed probe step; the messages of
/// the failures that carry a detail go on with it.
pub open spec fn failure_text(why: ProbeFailure) -> Seq<char> {
    match why {
        ProbeFailure::BackendInit => "failed to initialize external jet backend: "@,
        ProbeFailure::ParseKnown => "parse_jet(\"verify\") returned None"@,
        ProbeFailure::ParseUnknown => "parse_jet(\"no_such_jet\") unexpectedly returned Some"@,
        ProbeFailure::Cmr => "cmr mismatch across module boundary"@,
        ProbeFailure::SourceTy => "source_ty mismatch across module boundary"@,
        ProbeFailure::TargetTy => "target_ty mismatch across module boundary"@,
        ProbeFailure::Cost => "cost mismatch across module boundary"@,
        ProbeFailure::Display => "display mismatch: got "@,
        ProbeFailure::SourceClassification => "source classification mismatch: "@,
        ProbeFailure::TargetClassification => "target classification mismatch: "@,
        ProbeFailure::Disabled => "is_disabled should be false"@,
        ProbeFailure::EncodeFailed => "encode failed across module boundary"@,
        ProbeFailure::FlushFailed => "flushing encoded bits failed"@,
        ProbeFailure::EncodeMismatch => "encode mismatch: "@,
    }
}

/// The failures whose message ends with a detail: the backend's reason, or
/// the observed value written out.
pub open spec fn carries_detail(why: ProbeFailure) -> bool {
    why == ProbeFailure::BackendInit || why == ProbeFailure::Display || why == ProbeFailure::SourceClassification
        || why == ProbeFailure::TargetClassification || why == ProbeFailure::EncodeMismatch
}

/// The message for a failed probe step with the given detail.
pub open spec fn failure_message_text(why: ProbeFailure, detail: Seq<char>) -> Seq<char> {
    if carries_detail(why) {
        failure_text(why) + detail
    } else {
        failure_text(why)
    }
}

/// The message for a failed probe step, `detail` ending the messages that
/// carry one; see [`failure_message_text`]. It is never empty.
pub fn probe_failure_message(why: ProbeFailure, detail: &str) -> (r: String)
    ensures
        r@ == failure_message_text(why, detail@),
        r@.len() > 0,
{
    let mut m = match why {
        ProbeFailure::BackendInit => {
            proof {
                reveal_strlit("failed to initialize external jet backend: ");
            }
            String::from_str("failed to initialize external jet backend: ")
        },
        ProbeFailure::ParseKnown => {
            proof {
                reveal_strlit("parse_jet(\"verify\") returned None");
            }
            String::from_str("parse_jet(\"verify\") returned None")
        },
        ProbeFailure::ParseUnknown => {
            proof {
                reveal_strlit("parse_jet(\"no_such_jet\") unexpectedly returned Some");
            }
            String::from_str("parse_jet(\"no_such_jet\") unexpectedly returned Some")
        },
        ProbeFailure::Cmr => {
            proof {
                reveal_strlit("cmr mismatch across module boundary");
            }
            String::from_str("cmr mismatch across module boundary")
        },
        ProbeFailure::SourceTy => {
            proof {
                reveal_strlit("source_ty mismatch across module boundary");
            }
            String::from_str("source_ty mismatch across module boundary")
        },
        ProbeFailure::TargetTy => {
            proof {
                reveal_strlit("target_ty mismatch across module boundary");
            }
            String::from_str("target_ty mismatch across module boundary")
        },
        ProbeFailure::Cost => {
            proof {
                reveal_strlit("cost mismatch across module boundary");
            }
            String::from_str("cost mismatch across module boundary")
        },
        ProbeFailure::Display => {
            proof {
                reveal_strlit("display mismatch: got ");
            }
            String::from_str("display mismatch: got ")
        },
        ProbeFailure::SourceClassification => {
            proof {
                reveal_strlit("source classification mismatch: ");
            }
            String::from_str("source classification mismatch: ")
        },
        ProbeFailure::TargetClassification => {
            proof {
                reveal_strlit("target classification mismatch: ");
            }
            String::from_str("target classification mismatch: ")
        },
        ProbeFailure::Disabled => {
            proof {
                reveal_strlit("is_disabled should be false");
            }
            String::from_str("is_disabled should be false")
        },
        ProbeFailure::EncodeFailed => {
            proof {
                reveal_strlit("encode failed across module boundary");
            }
            String::from_str("encode failed across module boundary")
        },
        ProbeFailure::FlushFailed => {
            proof {
                reveal_strlit("flushing encoded bits failed");
            }
            String::from_str("flushing encoded bits failed")
        },
        ProbeFailure::EncodeMismatch => {
            proof {
                reveal_strlit("encode mismatch: ");
            }
            String::from_str("encode mismatch: ")
        },
    };
    let detailed = match why {
        ProbeFailure::BackendInit | ProbeFailure::Display | ProbeFailure::SourceClassification
        | ProbeFailure::TargetClassification | ProbeFailure::EncodeMismatch => true,
        _ => false,
    };
    if detailed {
        m.append(detail);
    }
    m
}

/// The status code and last-error message with which the probe ends after
/// an action, or `None` where it goes on: the empty message on success, the
/// message of the failure otherwise.
pub open spec fn probe_outcome(action: ProbeAction, detail: Seq<char>) -> Option<(i32, Seq<char>)> {
    match action {
        ProbeAction::Next(_) => None,
        ProbeAction::Succeed => Some((0i32, Seq::empty())),
        ProbeAction::Fail(code, why) => Some((code, failure_message_text(why, detail))),
    }
}

/// The status code and last-error message with which the probe ends after
/// `action`, or `None` where it goes on; see [`probe_outcome`].
pub fn probe_report(action: ProbeAction, detail: &str) -> (r: Option<(i32, String)>)
    ensures
        match probe_outcome(action, detail@) {
            None => r is None,
            Some((code, m)) => r matches Some((c, s)) && c == code && s@ == m,
        },
{
    match action {
        ProbeAction::Next(_) => None,
        ProbeAction::Succeed => Some((0, String::new())),
        ProbeAction::Fail(code, why) => Some((code, probe_failure_message(why, detail))),
    }
}

/// The reason that the backend cannot be initialized where the compiler is
/// not built for the web.
pub fn web_only_reason() -> (r: String)
    ensures
        r@ == "compiler-wasm backend initialization is only supported on wasm32"@,
{
    String::from_str("compiler-wasm backend initialization is only supported on wasm32")
}

/// The probe ends with status 0 and an empty last-error message exactly when
/// every step gave the expected result; else with a status from 1 to 12 and a
/// message that is not empty. A backend that fails to initialize ends it with
/// status 1 and the message `failed to initialize external jet backend: `
/// followed by the backend's reason.
pub proof fn law_probe_message(obs: ProbeObservation, detail: Seq<char>)
    ensures
        probe_outcome(probe_action(obs), detail) matches Some((code, m)) ==> (code == 0 <==> m.len() == 0),
        probe_outcome(probe_action(obs), detail) matches Some((code, m)) ==> 0 <= code <= 12,
        obs matches ProbeObservation::Backend(Err(reason)) ==> probe_outcome(probe_action(obs), reason@) == Some(
            (1i32, "failed to initialize external jet backend: "@ + reason@),
        ),
{
    reveal_strlit("failed to initialize external jet backend: ");
    reveal_strlit("parse_jet(\"verify\") returned None");
    reveal_strlit("parse_jet(\"no_such_jet\") unexpectedly returned Some");
    reveal_strlit("cmr mismatch across module boundary");
    reveal_strlit("source_ty mismatch across module boundary");
    reveal_strlit("target_ty mismatch across module boundary");
    reveal_strlit("cost mismatch across module boundary");
    reveal_strlit("display mismatch: got ");
    reveal_strlit("source classification mismatch: ");
    reveal_strlit("target classification mismatch: ");
    reveal_strlit("is_disabled should be false");
    reveal_strlit("encode failed across module boundary");
    reveal_strlit("flushing encoded bits failed");
    reveal_strlit("encode mismatch: ");
}

} // verus!
