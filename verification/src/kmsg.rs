//! Kernel message ring for multi-kernel mode: when no serial port is
//! available, message bytes go into a fixed ring that the host reads from
//! the outside.
//!
//! The ring lives in unprotected pages, but the write runs through the
//! strong boundary wrapper all the same: the store executes on the
//! isolated stack with the bracket open, and the bracket's guarantees
//! (stack pointer restored, unsafe bits closed) hold here as everywhere.

use vstd::prelude::*;
use crate::core_state::{CoreContext, CoreRegs};
use crate::wrappers::{bracket_close_regs, bracket_open_regs, isolation_strong_enter, isolation_strong_exit};

verus! {

/// Capacity of the message ring in bytes.
pub const KMSG_SIZE: usize = 0x1000;

/// The message ring and its running write index.
pub struct KernelMessageBuffer {
    /// The ring's bytes.
    pub buffer: Vec<u8>,
    /// Count of bytes ever written; the write position is this count
    /// modulo the ring's capacity.
    pub index: u64,
}

impl KernelMessageBuffer {
    /// A fresh, zeroed ring.
    pub fn new() -> (r: Self)
        ensures
            r.buffer@.len() == KMSG_SIZE,
            forall|j: int| 0 <= j < KMSG_SIZE ==> r.buffer@[j] == 0u8,
            r.index == 0,
    {
        let mut buffer: Vec<u8> = Vec::new();
        let mut i: usize = 0;
        while i < KMSG_SIZE
            invariant
                i <= KMSG_SIZE,
                buffer@.len() == i,
                forall|j: int| 0 <= j < i ==> buffer@[j] == 0u8,
            decreases KMSG_SIZE - i,
        {
            buffer.push(0);
            i += 1;
        }
        KernelMessageBuffer { buffer, index: 0 }
    }
}

/// `index` advanced by one write, wrapping at the counter's width.
pub open spec fn bumped_index(index: u64) -> u64 {
    if index == u64::MAX {
        0u64
    } else {
        (index + 1) as u64
    }
}

/// Appends one message byte at the ring's write position, inside a strong
/// bracket: the store happens on the isolated stack, and register state
/// comes back exactly as the bracket promises.
pub fn kmsg_write_byte(core: &mut CoreContext, kmsg: &mut KernelMessageBuffer, byte: u8)
    requires
        old(kmsg).buffer@.len() == KMSG_SIZE,
    ensures
        final(kmsg).buffer@ == old(kmsg).buffer@.update(
            (old(kmsg).index % (KMSG_SIZE as u64)) as int,
            byte,
        ),
        final(kmsg).index == bumped_index(old(kmsg).index),
        final(core).regs == bracket_close_regs(
            bracket_open_regs(old(core).regs, old(core).isolated_stack_top),
            old(core).regs.stack_pointer,
        ),
        final(core).regs.stack_pointer == old(core).regs.stack_pointer,
        CoreContext::frame_unchanged(*old(core), *final(core)),
        CoreContext::storage_unchanged(*old(core), *final(core)),
{
    let slot: usize = (kmsg.index % (KMSG_SIZE as u64)) as usize;
    kmsg.index = if kmsg.index == u64::MAX {
        0
    } else {
        kmsg.index + 1
    };
    let g = isolation_strong_enter(core);
    kmsg.buffer[slot] = byte;
    isolation_strong_exit(core, g);
}

} // verus!
