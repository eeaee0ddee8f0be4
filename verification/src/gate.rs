//! Permission gate: the two-instruction sequences that add or remove
//! disable bits in the current core's permission register.
//!
//! `enter` and `exit` must be used in strictly nested pairs within one
//! core's instruction stream; the register is core-local architectural
//! state, so no other core can interfere with it.

use vstd::prelude::*;
use crate::core_state::{CoreContext, CoreRegs};

verus! {

/// ORs `bits` into the core's permission register.
pub fn enter(core: &mut CoreContext, bits: u32)
    ensures
        final(core).regs == (CoreRegs { pkru: old(core).regs.pkru | bits, ..old(core).regs }),
        CoreContext::frame_unchanged(*old(core), *final(core)),
        CoreContext::storage_unchanged(*old(core), *final(core)),
{
    core.regs.pkru = core.regs.pkru | bits;
}

/// ANDs `bits`, bit-inverted, out of the core's permission register.
pub fn exit(core: &mut CoreContext, bits: u32)
    ensures
        final(core).regs == (CoreRegs { pkru: old(core).regs.pkru & !bits, ..old(core).regs }),
        CoreContext::frame_unchanged(*old(core), *final(core)),
        CoreContext::storage_unchanged(*old(core), *final(core)),
{
    core.regs.pkru = core.regs.pkru & !bits;
}

/// An `enter(bits)` followed at once by an `exit(bits)` restores the
/// permission register, provided none of `bits` was already set before the
/// pair: the pair only ever gives back exactly what it took.
///
/// When some bit of `bits` is set beforehand, the pair clears it: the
/// register ends at `prior & !bits`, as the contracts of [`enter`] and
/// [`exit`] state.
pub proof fn lemma_enter_exit_restores(prior: u32, bits: u32)
    requires
        prior & bits == 0,
    ensures
        (prior | bits) & !bits == prior,
{
    assert(prior & bits == 0 ==> (prior | bits) & !bits == prior) by (bit_vector);
}

} // verus!
