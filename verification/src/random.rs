//! The kernel's pseudo-random number source: a Park-Miller-Lehmer linear
//! congruential generator, seeded from the timestamp counter at boot and
//! used whenever the hardware offers no random number of its own.

use vstd::prelude::*;
use crate::core_state::{CoreContext, CoreRegs};
use crate::wrappers::{kernel_enter, kernel_exit, USER_PKRU};

verus! {

/// Multiplier of the Park-Miller-Lehmer generator.
pub const PML_MULTIPLIER: u64 = 48271;

/// Modulus of the Park-Miller-Lehmer generator.
pub const PML_MODULUS: u64 = 2147483647;

/// State of the kernel's pseudo-random number generator; one per kernel,
/// behind a lock in the running system.
pub struct RandomState {
    /// Current seed.
    pub seed: u32,
}

/// The next value of the generator for seed `seed`.
pub open spec fn pml_next(seed: u32) -> u32 {
    (((seed as u64) * PML_MULTIPLIER) as int % (PML_MODULUS as int)) as u32
}

/// Seeds the generator; the caller hands in the boot-time timestamp
/// counter value, of which the low half is kept.
pub fn random_init(state: &mut RandomState, timestamp: u64)
    ensures
        final(state).seed == timestamp as u32,
{
    state.seed = #[verifier::truncate] (timestamp as u32);
}

/// Draws the next pseudo-random number and advances the seed.
pub fn generate_park_miller_lehmer_random_number(state: &mut RandomState) -> (r: u32)
    ensures
        r == pml_next(old(state).seed),
        final(state).seed == r,
{
    let seed64: u64 = state.seed as u64;
    proof {
        assert(seed64 * PML_MULTIPLIER <= 0xFFFF_FFFFu64 * PML_MULTIPLIER) by (nonlinear_arith)
            requires
                seed64 <= 0xFFFF_FFFFu64,
        ;
    }
    let random: u32 = ((seed64 * PML_MULTIPLIER) % PML_MODULUS) as u32;
    state.seed = random;
    random
}

/// The random-number system call: inside the kernel bracket, a hardware
/// random number is preferred when the processor produced one, and the
/// generator supplies the value otherwise.
pub fn sys_rand(core: &mut CoreContext, state: &mut RandomState, hw_random: Option<u32>) -> (r: u32)
    ensures
        hw_random is Some ==> r == hw_random->0 && final(state).seed == old(state).seed,
        hw_random is None ==> r == pml_next(old(state).seed) && final(state).seed == r,
        final(core).regs == (CoreRegs {
            pkru: USER_PKRU,
            stack_pointer: old(core).regs.stack_pointer,
            user_stack_pointer: old(core).regs.stack_pointer,
            ..old(core).regs
        }),
        CoreContext::frame_unchanged(*old(core), *final(core)),
        CoreContext::storage_unchanged(*old(core), *final(core)),
{
    kernel_enter(core);
    let r = match hw_random {
        Some(value) => value,
        None => generate_park_miller_lehmer_random_number(state),
    };
    kernel_exit(core);
    r
}

} // verus!
