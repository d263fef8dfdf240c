//! Decoding the wait status of a terminated child context.

use vstd::prelude::*;

verus! {

/// How a child context ended, as its wait status tells it.
#[derive(Clone, Copy, PartialEq, Eq, Structural, Debug)]
pub enum Termination {
    /// The child exited by itself, with this exit code.
    Exited(i32),
    /// A signal of this number terminated the child.
    Signaled(i32),
    /// The status tells of a stop or of a continuation, not of an end.
    NotTerminated,
}

/// The low seven bits of a wait status: the number of the terminating signal,
/// zero for a child that exited by itself.
pub open spec fn spec_low_bits(status: i32) -> i32 {
    status & 0x7f
}

/// The second byte of a wait status: the exit code of a child that exited by itself.
pub open spec fn spec_exit_bits(status: i32) -> i32 {
    (status >> 8) & 0xff
}

/// How the child of this wait status ended.
pub open spec fn spec_decode(status: i32) -> Termination {
    if spec_low_bits(status) == 0 {
        Termination::Exited(spec_exit_bits(status))
    } else if spec_low_bits(status) != 0x7f {
        Termination::Signaled(spec_low_bits(status))
    } else {
        Termination::NotTerminated
    }
}

/// `libc::WIFEXITED`: whether the child exited by itself, which is the case
/// where the low seven bits of the status are zero.
#[verifier::external_body]
fn wait_exited(status: i32) -> (r: bool)
    ensures
        r == (spec_low_bits(status) == 0),
{
    libc::WIFEXITED(status)
}

/// `libc::WEXITSTATUS`: the second byte of the status.
#[verifier::external_body]
fn wait_exit_code(status: i32) -> (r: i32)
    ensures
        r == spec_exit_bits(status),
{
    libc::WEXITSTATUS(status)
}

/// `libc::WIFSIGNALED`: whether a signal terminated the child. It adds one to
/// the low seven bits and asks whether the sum, as a signed byte, is at least
/// two: so for every value of those bits but `0` and `0x7f`.
#[verifier::external_body]
fn wait_signaled(status: i32) -> (r: bool)
    ensures
        r == (spec_low_bits(status) != 0 && spec_low_bits(status) != 0x7f),
{
    libc::WIFSIGNALED(status)
}

/// `libc::WTERMSIG`: the low seven bits of the status.
#[verifier::external_body]
fn wait_term_signal(status: i32) -> (r: i32)
    ensures
        r == spec_low_bits(status),
{
    libc::WTERMSIG(status)
}

/// Decodes the wait status of a child.
pub fn decode(status: i32) -> (t: Termination)
    ensures
        t == spec_decode(status),
{
    if wait_exited(status) {
        Termination::Exited(wait_exit_code(status))
    } else if wait_signaled(status) {
        Termination::Signaled(wait_term_signal(status))
    } else {
        Termination::NotTerminated
    }
}

/// An exit code lies between 0 and 255, and the number of a terminating
/// signal between 1 and 126.
pub proof fn lemma_decode_ranges(status: i32)
    ensures
        spec_decode(status) matches Termination::Exited(code) ==> 0 <= code <= 255,
        spec_decode(status) matches Termination::Signaled(signal) ==> 1 <= signal <= 126,
{
    assert(0 <= (status >> 8) & 0xff <= 255) by (bit_vector);
    assert(0 <= status & 0x7f <= 127) by (bit_vector);
}

} // verus!
