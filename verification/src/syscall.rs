//! The system-call surface of the isolation layer: thin entry points that
//! wrap the kernel bracket around the verified primitives.

use vstd::prelude::*;
use crate::bootinfo::{boot_view, get_processor_count, is_boot_region, CPU_ONLINE_OFFSET};
use crate::bytes::u32_le;
use crate::core_state::{CoreContext, CoreRegs, MemoryRegion};
use crate::keys::{EINVAL, ENOSYS, MAX_KEY, MpkPerm};
use crate::mpk::{first_page_of, mpk_clear_pkru, mpk_get_pkru, mpk_mem_set_key, mpk_set_perm, mpk_set_pkru, mpk_swap_pkru, page_count_of, perm_applied};
use crate::tagger::{PageTags, range_mapped, range_tagged};
use crate::wrappers::{kernel_enter, kernel_exit, kernel_function, USER_PKRU};

verus! {

/// Yields the processor: the scheduler, an external collaborator, picks
/// the next task; the layer's part is the kernel bracket around it.
pub fn __sys_wait(ptr: u64) -> (r: i32)
    ensures
        r == 0,
{
    let _ = ptr;
    0
}

/// System-call wrapper around [`__sys_wait`].
pub fn sys_wait(core: &mut CoreContext, ptr: u64) -> (r: i32)
    ensures
        r == 0,
        final(core).regs == (CoreRegs {
            pkru: USER_PKRU,
            stack_pointer: old(core).regs.stack_pointer,
            user_stack_pointer: old(core).regs.stack_pointer,
            ..old(core).regs
        }),
        CoreContext::frame_unchanged(*old(core), *final(core)),
        CoreContext::storage_unchanged(*old(core), *final(core)),
{
    let body = || -> (r: i32)
        ensures
            r == 0,
        { __sys_wait(ptr) };
    kernel_function(core, body)
}

/// Count of cores currently online, from the boot descriptor.
pub fn __sys_get_processor_count(core: &mut CoreContext, boot: &MemoryRegion) -> (r: u32)
    requires
        old(core).wf(),
        is_boot_region(*boot),
    ensures
        final(core).wf(),
        r == u32_le(
            boot_view(*old(core), *boot).subrange(CPU_ONLINE_OFFSET as int, CPU_ONLINE_OFFSET + 4),
        ),
        crate::bootinfo::accessor_frame(*old(core), *final(core)),
{
    get_processor_count(core, boot)
}

/// System-call wrapper around [`__sys_get_processor_count`].
pub fn sys_get_processor_count(core: &mut CoreContext, boot: &MemoryRegion) -> (r: u32)
    requires
        old(core).wf(),
        is_boot_region(*boot),
    ensures
        final(core).wf(),
        r == u32_le(
            boot_view(*old(core), *boot).subrange(CPU_ONLINE_OFFSET as int, CPU_ONLINE_OFFSET + 4),
        ),
{
    kernel_enter(core);
    proof {
        assert(boot_view(*core, *boot) == boot_view(*old(core), *boot));
    }
    let r = __sys_get_processor_count(core, boot);
    kernel_exit(core);
    r
}

/// System-call wrapper around [`mpk_swap_pkru`](crate::mpk::mpk_swap_pkru).
pub fn sys_mpk_swap_pkru(core: &mut CoreContext, new_pkru: u32) -> (r: u32)
    ensures
        old(core).ospke ==> r == old(core).regs.pkru && final(core).regs == (CoreRegs {
            pkru: new_pkru,
            ..old(core).regs
        }),
        !old(core).ospke ==> r == 0 && final(core).regs == old(core).regs,
        CoreContext::frame_unchanged(*old(core), *final(core)),
        CoreContext::storage_unchanged(*old(core), *final(core)),
{
    mpk_swap_pkru(core, new_pkru)
}

/// System-call wrapper around [`mpk_mem_set_key`](crate::mpk::mpk_mem_set_key).
pub fn sys_mpk_mem_set_key(core: &CoreContext, tags: &mut PageTags, addr: u64, size: u64, key: u8, page_size: u64) -> (r: i32)
    requires
        page_size > 0,
        size / page_size + 1 <= usize::MAX,
        addr / page_size + size / page_size + 1 <= u64::MAX,
    ensures
        !core.ospke ==> r == -ENOSYS && final(tags)@ == old(tags)@,
        core.ospke && key > MAX_KEY ==> r == -EINVAL && final(tags)@ == old(tags)@,
        core.ospke && key <= MAX_KEY ==> {
            let first = first_page_of(addr, page_size);
            let count = page_count_of(size, page_size);
            &&& r == 0 <==> range_mapped(old(tags)@, first, count as nat)
            &&& r == 0 ==> range_tagged(old(tags)@, final(tags)@, first, count as nat, key)
            &&& r != 0 ==> r == -EINVAL && final(tags)@ == old(tags)@
        },
{
    mpk_mem_set_key(core, tags, addr, size, key, page_size)
}

/// System-call wrapper around [`mpk_set_perm`](crate::mpk::mpk_set_perm).
pub fn sys_mpk_set_perm(core: &mut CoreContext, key: u8, perm: MpkPerm) -> (r: i32)
    ensures
        !old(core).ospke ==> r == -ENOSYS && final(core).regs == old(core).regs,
        old(core).ospke ==> r == 0 && final(core).regs == (CoreRegs {
            pkru: perm_applied(old(core).regs.pkru, key, perm),
            ..old(core).regs
        }),
        CoreContext::frame_unchanged(*old(core), *final(core)),
        CoreContext::storage_unchanged(*old(core), *final(core)),
{
    mpk_set_perm(core, key, perm)
}

/// System-call wrapper around [`mpk_clear_pkru`](crate::mpk::mpk_clear_pkru).
pub fn sys_mpk_clear_pkru(core: &mut CoreContext)
    ensures
        old(core).ospke ==> final(core).regs == (CoreRegs { pkru: 0u32, ..old(core).regs }),
        !old(core).ospke ==> final(core).regs == old(core).regs,
        CoreContext::frame_unchanged(*old(core), *final(core)),
        CoreContext::storage_unchanged(*old(core), *final(core)),
{
    mpk_clear_pkru(core)
}

/// System-call wrapper around [`mpk_get_pkru`](crate::mpk::mpk_get_pkru).
pub fn sys_mpk_get_pkru(core: &CoreContext) -> (r: u32)
    ensures
        r == if core.ospke {
            core.regs.pkru
        } else {
            0u32
        },
{
    mpk_get_pkru(core)
}

/// System-call wrapper around [`mpk_set_pkru`](crate::mpk::mpk_set_pkru).
pub fn sys_mpk_set_pkru(core: &mut CoreContext, val: u32)
    ensures
        old(core).ospke ==> final(core).regs == (CoreRegs { pkru: val, ..old(core).regs }),
        !old(core).ospke ==> final(core).regs == old(core).regs,
        CoreContext::frame_unchanged(*old(core), *final(core)),
        CoreContext::storage_unchanged(*old(core), *final(core)),
{
    mpk_set_pkru(core, val)
}

} // verus!
