//! The frame in which a child context reports the evidence of its
//! instrumentation: the ten counters in the order of their declaration,
//! each as four bytes, the least significant first.

use vstd::prelude::*;
use vstd::string::*;
use crate::probe::Artifacts;
use crate::text::same_text;
use crate::triggers::{Value, ValueView};

verus! {

/// The number of counters in a frame.
pub const COUNTERS: usize = 10;

/// The length of a frame in bytes.
pub const FRAME_LEN: usize = 40;

/// The four bytes of a counter, the least significant first.
pub open spec fn spec_le4(x: u32) -> Seq<u8> {
    seq![
        (x % 256) as u8,
        (x / 256 % 256) as u8,
        (x / 65536 % 256) as u8,
        (x / 16777216) as u8,
    ]
}

/// The counter that four bytes stand for.
pub open spec fn spec_from_le4(b0: u8, b1: u8, b2: u8, b3: u8) -> u32 {
    (b0 + 256 * b1 + 65536 * b2 + 16777216 * b3) as u32
}

/// The counters of the evidence, in the order of their declaration.
pub open spec fn spec_counters(a: Artifacts) -> Seq<u32> {
    seq![
        a.poisoned_accesses,
        a.double_releases,
        a.missed_releases,
        a.escaped_references,
        a.lock_reacquires,
        a.null_dereferences,
        a.unbounded_requests,
        a.nan_comparisons,
        a.base_escapes,
        a.shadowed_bindings,
    ]
}

/// The frame of the first `n` of these counters.
pub open spec fn spec_frame(counters: Seq<u32>, n: int) -> Seq<u8> {
    Seq::new((4 * n) as nat, |j: int| spec_le4(counters[j / 4])[j % 4])
}

/// The frame that reports this evidence.
pub open spec fn spec_encode(a: Artifacts) -> Seq<u8> {
    spec_frame(spec_counters(a), COUNTERS as int)
}

/// A counter is the counter that its four bytes stand for.
pub proof fn lemma_bytes_of_counter(x: u32)
    ensures
        spec_from_le4(spec_le4(x)[0], spec_le4(x)[1], spec_le4(x)[2], spec_le4(x)[3]) == x,
{
    let q1 = x / 256;
    let q2 = q1 / 256;
    let q3 = q2 / 256;
    assert(x == x % 256 + 256 * q1);
    assert(q1 == q1 % 256 + 256 * q2);
    assert(q2 == q2 % 256 + 256 * q3);
    assert(q2 == x / 65536);
    assert(q3 == x / 16777216);
    assert(q3 < 256);
}

/// Four bytes are the bytes of the counter that they stand for.
pub proof fn lemma_counter_of_bytes(b0: u8, b1: u8, b2: u8, b3: u8)
    ensures
        spec_le4(spec_from_le4(b0, b1, b2, b3)) == seq![b0, b1, b2, b3],
{
    let t2 = b2 + 256 * b3;
    let t1 = b1 + 256 * t2;
    let y = b0 + 256 * t1;
    assert(y == b0 + 256 * b1 + 65536 * b2 + 16777216 * b3);
    assert(0 <= y <= u32::MAX);
    assert(y % 256 == b0);
    assert(y / 256 == t1);
    assert(t1 % 256 == b1);
    assert(t1 / 256 == t2);
    assert(t2 % 256 == b2);
    assert(t2 / 256 == b3);
    assert(y / 65536 == t2);
    assert(y / 16777216 == b3);
    assert(spec_le4(y as u32) =~= seq![b0, b1, b2, b3]);
}

/// Appends the four bytes of a counter.
fn put_counter(out: &mut Vec<u8>, x: u32)
    ensures
        final(out)@ == old(out)@ + spec_le4(x),
{
    out.push((x % 256) as u8);
    out.push((x / 256 % 256) as u8);
    out.push((x / 65536 % 256) as u8);
    out.push((x / 16777216) as u8);
    assert(out@ =~= old(out)@ + spec_le4(x));
}

/// The counter that the four bytes from place `at` on stand for.
fn get_counter(bytes: &[u8], at: usize) -> (x: u32)
    requires
        at + 4 <= bytes@.len(),
    ensures
        x == spec_from_le4(
            bytes@[at as int],
            bytes@[at + 1],
            bytes@[at + 2],
            bytes@[at + 3],
        ),
{
    let b0 = bytes[at] as u32;
    let b1 = bytes[at + 1] as u32;
    let b2 = bytes[at + 2] as u32;
    let b3 = bytes[at + 3] as u32;
    b0 + 256 * b1 + 65536 * b2 + 16777216 * b3
}

/// The frame that reports this evidence.
pub fn encode_artifacts(a: &Artifacts) -> (frame: Vec<u8>)
    ensures
        frame@ == spec_encode(*a),
        frame@.len() == FRAME_LEN,
{
    let counters: [u32; 10] = [
        a.poisoned_accesses,
        a.double_releases,
        a.missed_releases,
        a.escaped_references,
        a.lock_reacquires,
        a.null_dereferences,
        a.unbounded_requests,
        a.nan_comparisons,
        a.base_escapes,
        a.shadowed_bindings,
    ];
    assert(counters@ =~= spec_counters(*a));
    let mut frame: Vec<u8> = Vec::new();
    let mut i: usize = 0;
    assert(frame@ =~= spec_frame(counters@, 0));
    while i < COUNTERS
        invariant
            i <= COUNTERS,
            counters@.len() == COUNTERS,
            frame@ == spec_frame(counters@, i as int),
        decreases COUNTERS - i,
    {
        put_counter(&mut frame, counters[i]);
        assert(frame@ =~= spec_frame(counters@, i + 1));
        i = i + 1;
    }
    frame
}

/// The evidence that a frame reports. A frame of any other length than
/// `FRAME_LEN` reports nothing.
pub fn decode_artifacts(bytes: &[u8]) -> (evidence: Option<Artifacts>)
    ensures
        match evidence {
            Some(a) => bytes@ == spec_encode(a),
            None => bytes@.len() != FRAME_LEN,
        },
{
    if bytes.len() != FRAME_LEN {
        return None;
    }
    let a = Artifacts {
        poisoned_accesses: get_counter(bytes, 0),
        double_releases: get_counter(bytes, 4),
        missed_releases: get_counter(bytes, 8),
        escaped_references: get_counter(bytes, 12),
        lock_reacquires: get_counter(bytes, 16),
        null_dereferences: get_counter(bytes, 20),
        unbounded_requests: get_counter(bytes, 24),
        nan_comparisons: get_counter(bytes, 28),
        base_escapes: get_counter(bytes, 32),
        shadowed_bindings: get_counter(bytes, 36),
    };
    proof {
        let b = bytes@;
        let frame = spec_encode(a);
        assert forall|j: int| 0 <= j < FRAME_LEN implies b[j] == frame[j] by {
            let k = j / 4;
            lemma_counter_of_bytes(b[4 * k], b[4 * k + 1], b[4 * k + 2], b[4 * k + 3]);
            assert(spec_counters(a)[k] == spec_from_le4(
                b[4 * k],
                b[4 * k + 1],
                b[4 * k + 2],
                b[4 * k + 3],
            ));
        }
        assert(b =~= frame);
    }
    Some(a)
}

/// Two pieces of evidence that have the same frame are the same.
pub proof fn lemma_encode_is_injective(a: Artifacts, b: Artifacts)
    requires
        spec_encode(a) == spec_encode(b),
    ensures
        a == b,
{
    assert forall|k: int| 0 <= k < COUNTERS implies spec_counters(a)[k] == spec_counters(b)[k] by {
        let x = spec_counters(a)[k];
        let y = spec_counters(b)[k];
        lemma_bytes_of_counter(x);
        lemma_bytes_of_counter(y);
        assert(spec_encode(a)[4 * k] == spec_le4(x)[0]);
        assert(spec_encode(a)[4 * k + 1] == spec_le4(x)[1]);
        assert(spec_encode(a)[4 * k + 2] == spec_le4(x)[2]);
        assert(spec_encode(a)[4 * k + 3] == spec_le4(x)[3]);
        assert(spec_encode(b)[4 * k] == spec_le4(y)[0]);
        assert(spec_encode(b)[4 * k + 1] == spec_le4(y)[1]);
        assert(spec_encode(b)[4 * k + 2] == spec_le4(y)[2]);
        assert(spec_encode(b)[4 * k + 3] == spec_le4(y)[3]);
    }
    assert(spec_counters(a)[0] == spec_counters(b)[0]);
    assert(spec_counters(a)[1] == spec_counters(b)[1]);
    assert(spec_counters(a)[2] == spec_counters(b)[2]);
    assert(spec_counters(a)[3] == spec_counters(b)[3]);
    assert(spec_counters(a)[4] == spec_counters(b)[4]);
    assert(spec_counters(a)[5] == spec_counters(b)[5]);
    assert(spec_counters(a)[6] == spec_counters(b)[6]);
    assert(spec_counters(a)[7] == spec_counters(b)[7]);
    assert(spec_counters(a)[8] == spec_counters(b)[8]);
    assert(spec_counters(a)[9] == spec_counters(b)[9]);
}

/// What was encoded is what is decoded: a frame that reports some
/// evidence reports no other.
pub proof fn lemma_decode_inverts_encode(a: Artifacts, decoded: Artifacts)
    requires
        spec_encode(decoded) == spec_encode(a),
    ensures
        decoded == a,
{
    lemma_encode_is_injective(decoded, a);
}

/// The value that a child reported in print: nothing where it printed
/// nothing, a flag where it printed `true` or `false`, and the print as a
/// text in any other case.
pub open spec fn spec_read_value(printed: Seq<char>) -> Option<ValueView> {
    if printed.len() == 0 {
        None
    } else if printed == "true"@ {
        Some(ValueView::Flag(true))
    } else if printed == "false"@ {
        Some(ValueView::Flag(false))
    } else {
        Some(ValueView::Text(printed))
    }
}

/// The value that a child reported in print.
pub fn read_value(printed: &str) -> (value: Option<Value>)
    ensures
        match value {
            Some(v) => Some(v@),
            None => None,
        } == spec_read_value(printed@),
{
    if printed.unicode_len() == 0 {
        None
    } else if same_text(printed, "true") {
        Some(Value::Flag(true))
    } else if same_text(printed, "false") {
        Some(Value::Flag(false))
    } else {
        Some(Value::Text(String::from_str(printed)))
    }
}

} // verus!
