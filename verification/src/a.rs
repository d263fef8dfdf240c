//! The two allocation triggers: a buffer whose size is a multiple of an
//! input, and a reservation of as many further elements as an input says.

use vstd::prelude::*;
use vstd::layout::size_of;

verus! {

/// The elements that `check_int_overflow` asks for per unit of its input.
pub const ELEMENTS_PER_UNIT: usize = 100000;

/// The capacity that `check_resource_exhaustion` expects to reach.
pub const CAPACITY_THRESHOLD: usize = 11;

/// The size in bytes of an element of the vector that is reserved on.
pub const RESERVED_ELEMENT_BYTES: usize = 4;

/// Whether a buffer of `ELEMENTS_PER_UNIT * n` elements of `element` bytes
/// each can be asked for: the count fits the machine word, and the bytes
/// stay within what an allocation may span.
pub open spec fn spec_buffer_fits(n: usize, element: nat) -> bool {
    ELEMENTS_PER_UNIT * n <= usize::MAX && ELEMENTS_PER_UNIT * n * element <= isize::MAX
}

/// Whether one element and `n` more, of `RESERVED_ELEMENT_BYTES` each, stay
/// within what an allocation may span.
pub open spec fn spec_reservation_fits(n: usize) -> bool {
    (1 + n) * RESERVED_ELEMENT_BYTES <= isize::MAX
}

/// Whether a capacity reaches the threshold.
pub open spec fn spec_meets_threshold(capacity: usize) -> bool {
    capacity >= CAPACITY_THRESHOLD
}

/// The number of elements that `check_int_overflow::<T>(n)` asks for, where
/// such a buffer can be asked for at all.
pub fn buffer_request<T>(n: usize) -> (elements: Option<usize>)
    ensures
        elements == if spec_buffer_fits(n, size_of::<T>()) {
            Some((ELEMENTS_PER_UNIT * n) as usize)
        } else {
            None
        },
{
    let count = match ELEMENTS_PER_UNIT.checked_mul(n) {
        Some(count) => count,
        None => {
            return None;
        },
    };
    let element = core::mem::size_of::<T>();
    let span = isize::MAX as usize;
    if element == 0 {
        assert(count * 0 == 0);
        return Some(count);
    }
    if count <= span / element {
        assert(count * element <= span) by (nonlinear_arith)
            requires
                count <= span / element,
                element > 0,
        ;
        Some(count)
    } else {
        assert(count * element > span) by (nonlinear_arith)
            requires
                count > span / element,
                element > 0,
        ;
        None
    }
}

/// An empty buffer with room for `ELEMENTS_PER_UNIT * n` elements. Nothing
/// bounds `n` but the machine: the caller decides how much is asked for.
pub fn check_int_overflow<T>(n: usize) -> (buf: Vec<T>) where T: Copy
    requires
        spec_buffer_fits(n, size_of::<T>()),
    ensures
        buf@ == Seq::<T>::empty(),
{
    Vec::with_capacity(ELEMENTS_PER_UNIT * n)
}

/// Whether one element and `n` more can be reserved.
pub fn reservation_fits(n: usize) -> (r: bool)
    ensures
        r == spec_reservation_fits(n),
{
    n < (isize::MAX as usize) / RESERVED_ELEMENT_BYTES
}

/// Whether a capacity reaches the threshold.
pub fn meets_threshold(capacity: usize) -> (met: bool)
    ensures
        met == spec_meets_threshold(capacity),
{
    capacity >= CAPACITY_THRESHOLD
}

/// `Vec::capacity`: the number of elements the vector has room for. How
/// many that are is the allocator's affair, so nothing is claimed of it.
#[verifier::external_body]
fn capacity_of(v: &Vec<i32>) -> (capacity: usize) {
    v.capacity()
}

/// Reserves room for `n` elements beyond the one that a vector holds, and
/// tells whether the capacity then reaches the threshold. How much room the
/// allocator gives is its own affair: `meets_threshold` says what follows
/// from each capacity.
pub fn check_resource_exhaustion(n: usize) -> (met: bool)
    requires
        spec_reservation_fits(n),
{
    let mut vec: Vec<i32> = Vec::new();
    vec.push(1);
    vec.reserve(n);
    meets_threshold(capacity_of(&vec))
}

} // verus!
