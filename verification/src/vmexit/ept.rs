//! EPT violations.

use vstd::prelude::*;

use crate::bits;
use crate::err::Error;
use crate::guest::GuestThread;
use crate::vcpu::VCPU;
use crate::vmexit::HandleResult;

verus! {

/// Whether an EPT violation was caused by a read.
pub fn ept_read(qual: u64) -> (r: bool)
    ensures
        r == bits::bit(qual, 0),
        r <==> qual % 2 == 1,
{
    assert((qual & 1 > 0 <==> (qual >> 0) & 1 == 1) && (qual & 1 > 0 <==> qual % 2 == 1)) by (bit_vector);
    qual & 1 > 0
}

/// Whether an EPT violation was caused by a write.
pub fn ept_write(qual: u64) -> (r: bool)
    ensures
        r == bits::bit(qual, 1),
        r <==> qual / 2 % 2 == 1,
{
    assert((qual & 0b10 > 0 <==> (qual >> 1) & 1 == 1) && (qual & 0b10 > 0 <==> qual / 2 % 2 == 1)) by (bit_vector);
    qual & 0b10 > 0
}

/// Whether an EPT violation was caused by an instruction fetch.
pub fn ept_instr_fetch(qual: u64) -> (r: bool)
    ensures
        r == bits::bit(qual, 2),
        r <==> qual / 4 % 2 == 1,
{
    assert((qual & 0b100 > 0 <==> (qual >> 2) & 1 == 1) && (qual & 0b100 > 0 <==> qual / 4 % 2 == 1)) by (bit_vector);
    qual & 0b100 > 0
}

/// Whether an EPT violation was caused by a walk of the guest's page tables:
/// the guest-linear address is valid (bit 7), and the access was not to its
/// translation (bit 8).
pub fn ept_page_walk(qual: u64) -> (r: bool)
    ensures
        r == (bits::bit(qual, 7) && !bits::bit(qual, 8)),
        r <==> qual / 128 % 2 == 1 && qual / 256 % 2 == 0,
{
    assert((qual & (1u64 << 7) > 0 <==> (qual >> 7) & 1 == 1) && (qual & (1u64 << 7) > 0 <==> qual / 128 % 2 == 1)) by (bit_vector);
    assert((qual & (1u64 << 8) == 0 <==> !((qual >> 8) & 1 == 1)) && (qual & (1u64 << 8) == 0 <==> qual / 256 % 2 == 0)) by (bit_vector);
    qual & (1u64 << 7) > 0 && qual & (1u64 << 8) == 0
}

/// Handles an EPT violation: the guest runs the instruction again.
pub fn handle_ept_violation(_vcpu: &VCPU, _gth: &mut GuestThread, _gpa: usize) -> (r: Result<
    HandleResult,
    Error,
>)
    ensures
        r == Ok::<HandleResult, Error>(HandleResult::Resume),
        *final(_gth) == *old(_gth),
{
    Ok(HandleResult::Resume)
}

} // verus!
