//! The `cpuid` instruction of the host.

use vstd::prelude::*;

verus! {

/// Runs `cpuid` on the host, for a leaf and a subleaf, and gives EAX, EBX, ECX
/// and EDX.
///
/// Calls `core::arch::x86_64::__cpuid_count`, which runs the instruction with
/// the leaf in EAX and the subleaf in ECX. What it answers depends on the host
/// processor, so nothing is claimed of it.
#[verifier::external_body]
pub(crate) fn do_cpuid(eax: u32, ecx: u32) -> (host: (u32, u32, u32, u32)) {
    let host = core::arch::x86_64::__cpuid_count(eax, ecx);
    (host.eax, host.ebx, host.ecx, host.edx)
}

/// Whether a run of `cpuid` on the host, for this leaf and subleaf, can give
/// these values of EAX, EBX, ECX and EDX.
pub closed spec fn host_answers(leaf: u32, subleaf: u32, host: (u32, u32, u32, u32)) -> bool {
    call_ensures(do_cpuid, (leaf, subleaf), host)
}

/// Runs `cpuid` on the host, for a leaf and a subleaf.
pub(crate) fn host_cpuid(leaf: u32, subleaf: u32) -> (host: (u32, u32, u32, u32))
    ensures
        host_answers(leaf, subleaf, host),
{
    do_cpuid(leaf, subleaf)
}

/// What the host can answer is what its instruction can give for exactly that
/// leaf and subleaf.
proof fn host_answers_leaf_and_subleaf(leaf: u32, subleaf: u32, host: (u32, u32, u32, u32))
    ensures
        host_answers(leaf, subleaf, host) <==> call_ensures(do_cpuid, (leaf, subleaf), host),
{
}

} // verus!
