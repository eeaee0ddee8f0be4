//! Explicit model of one core's isolation-relevant state.
//!
//! The hardware keeps this state in architectural registers (the permission
//! register, the stack pointer, the segment base that addresses the per-core
//! block) and in memory reached through them.  Here it is gathered into one
//! [`CoreContext`] value owned by the core, so every operation of the layer
//! states exactly which part of the state it reads and how it changes it.
//! Each core owns its own context; no context is ever shared between cores,
//! which is why none of the operations needs a lock.

use vstd::prelude::*;

verus! {

/// Size of the per-core scratch storage in bytes.
pub const STORAGE_SIZE: usize = 0x1000;

/// Capacity of the per-core address whitelist.
pub const WHITELIST_CAPACITY: usize = 100;

/// Size of the per-core variable block in bytes: three 64-bit fields.
pub const PERCORE_SIZE: usize = 24;

/// A span of protected memory the layer may copy from or to, named by the
/// address of its first byte.
pub struct MemoryRegion {
    /// Address of the region's first byte; never 0 for a real region.
    pub base: u64,
    /// The region's bytes.
    pub bytes: Vec<u8>,
}

/// The core's register file, as far as the isolation layer touches it.
pub struct CoreRegs {
    /// Per-core permission register: two disable bits per protection key.
    pub pkru: u32,
    /// Current stack pointer.
    pub stack_pointer: u64,
    /// Current frame pointer.
    pub frame_pointer: u64,
    /// Stack pointer saved for the current task's kernel stack.
    pub kernel_stack_pointer: u64,
    /// Stack pointer saved for the current task's user stack.
    pub user_stack_pointer: u64,
}

/// All isolation state owned by one logical core.
pub struct CoreContext {
    /// Whether the hardware offers the protection-key feature.  When it does
    /// not, every keyed operation degrades to a no-op and the kernel runs as
    /// if all memory were unprotected.
    pub ospke: bool,
    /// Register file.
    pub regs: CoreRegs,
    /// Top of the task's dedicated isolated-stack region.
    pub isolated_stack_top: u64,
    /// Address of the scratch storage; 0 until the storage is created.
    pub storage_base: u64,
    /// The scratch storage: a fixed-size buffer resident in pages tagged
    /// [`crate::keys::UNPROTECTED_KEY`].
    pub storage: Vec<u8>,
    /// Addresses approved as bounce-copy endpoints, in insertion order.
    pub whitelist: Vec<u64>,
    /// The core's per-core variable block, resident in protected memory.
    pub percore: MemoryRegion,
    /// Protection key currently on the pages backing the per-core block.
    pub percore_tag: u8,
}

impl CoreContext {
    /// Well-formedness: the storage has its fixed size once created, and the
    /// whitelist is a duplicate-free set within capacity.
    pub open spec fn wf(&self) -> bool {
        &&& self.storage_base != 0 ==> self.storage@.len() == STORAGE_SIZE
        &&& self.percore.bytes@.len() == PERCORE_SIZE
        &&& self.whitelist@.len() <= WHITELIST_CAPACITY
        &&& forall|i: int, j: int|
            0 <= i < j < self.whitelist@.len() ==> self.whitelist@[i] != self.whitelist@[j]
    }

    /// The register file is unchanged between two context values.
    pub open spec fn regs_unchanged(pre: Self, post: Self) -> bool {
        post.regs == pre.regs
    }

    /// Everything but the register file and the scratch storage contents is
    /// unchanged between two context values.
    pub open spec fn frame_unchanged(pre: Self, post: Self) -> bool {
        &&& post.ospke == pre.ospke
        &&& post.isolated_stack_top == pre.isolated_stack_top
        &&& post.storage_base == pre.storage_base
        &&& post.whitelist@ == pre.whitelist@
        &&& post.percore.base == pre.percore.base
        &&& post.percore.bytes@ == pre.percore.bytes@
        &&& post.percore_tag == pre.percore_tag
    }

    /// The scratch storage contents are unchanged between two context values.
    pub open spec fn storage_unchanged(pre: Self, post: Self) -> bool {
        post.storage@ == pre.storage@
    }
}

} // verus!
