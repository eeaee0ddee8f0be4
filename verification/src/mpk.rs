//! Reading and writing the per-core permission register, and tagging memory
//! ranges, with graceful degradation when the hardware lacks the
//! protection-key feature.
//!
//! When [`CoreContext::ospke`](crate::core_state::CoreContext) is false, the
//! feature is absent: every operation here is a no-op (or reports
//! `-ENOSYS`), so the kernel keeps running correctly with all memory
//! effectively unprotected.

use vstd::prelude::*;
use crate::core_state::{CoreContext, CoreRegs};
use crate::keys::{EINVAL, ENOSYS, MAX_KEY, MpkPerm, pkru_set_no_access, pkru_set_ro, pkru_set_rw, access_disable_bit, write_disable_bit};
use crate::tagger::{PageTags, range_mapped, range_tagged, tag_range};

verus! {

/// The register value `mpk_set_perm` writes for choice `perm` on `key`,
/// starting from `pkru`.  A key above [`MAX_KEY`] leaves the value
/// untouched.
pub open spec fn perm_applied(pkru: u32, key: u8, perm: MpkPerm) -> u32 {
    if key > MAX_KEY {
        pkru
    } else {
        match perm {
            MpkPerm::MpkRw => pkru & !access_disable_bit(key) & !write_disable_bit(key),
            MpkPerm::MpkRo => (pkru & !access_disable_bit(key)) | write_disable_bit(key),
            MpkPerm::MpkNone => pkru | access_disable_bit(key) | write_disable_bit(key),
        }
    }
}

/// Writes `new_pkru` into the permission register and returns the prior
/// value.  Without the hardware feature the register is untouched and 0 is
/// returned.
pub fn mpk_swap_pkru(core: &mut CoreContext, new_pkru: u32) -> (r: u32)
    ensures
        old(core).ospke ==> r == old(core).regs.pkru && final(core).regs == (CoreRegs {
            pkru: new_pkru,
            ..old(core).regs
        }),
        !old(core).ospke ==> r == 0 && final(core).regs == old(core).regs,
        CoreContext::frame_unchanged(*old(core), *final(core)),
        CoreContext::storage_unchanged(*old(core), *final(core)),
{
    if !core.ospke {
        return 0;
    }
    let old_pkru = core.regs.pkru;
    core.regs.pkru = new_pkru;
    old_pkru
}

/// Applies permission choice `perm` for `key` to the register.  Reports
/// `-ENOSYS` without the hardware feature; a key above [`MAX_KEY`] writes
/// the register back unchanged and still reports success, as the underlying
/// bit helpers reject the key silently.
pub fn mpk_set_perm(core: &mut CoreContext, key: u8, perm: MpkPerm) -> (r: i32)
    ensures
        !old(core).ospke ==> r == -ENOSYS && final(core).regs == old(core).regs,
        old(core).ospke ==> r == 0 && final(core).regs == (CoreRegs {
            pkru: perm_applied(old(core).regs.pkru, key, perm),
            ..old(core).regs
        }),
        CoreContext::frame_unchanged(*old(core), *final(core)),
        CoreContext::storage_unchanged(*old(core), *final(core)),
{
    if !core.ospke {
        return -ENOSYS;
    }
    let mut pkru = core.regs.pkru;
    match perm {
        MpkPerm::MpkRw => {
            pkru_set_rw(key, &mut pkru);
        }
        MpkPerm::MpkRo => {
            pkru_set_ro(key, &mut pkru);
        }
        MpkPerm::MpkNone => {
            pkru_set_no_access(key, &mut pkru);
        }
    }
    core.regs.pkru = pkru;
    0
}

/// Clears the permission register, making every key fully accessible.
/// Without the hardware feature nothing happens.
pub fn mpk_clear_pkru(core: &mut CoreContext)
    ensures
        old(core).ospke ==> final(core).regs == (CoreRegs { pkru: 0u32, ..old(core).regs }),
        !old(core).ospke ==> final(core).regs == old(core).regs,
        CoreContext::frame_unchanged(*old(core), *final(core)),
        CoreContext::storage_unchanged(*old(core), *final(core)),
{
    if core.ospke {
        core.regs.pkru = 0;
    }
}

/// Reads the permission register; 0 without the hardware feature.
pub fn mpk_get_pkru(core: &CoreContext) -> (r: u32)
    ensures
        r == if core.ospke {
            core.regs.pkru
        } else {
            0u32
        },
{
    if !core.ospke {
        return 0;
    }
    core.regs.pkru
}

/// Writes `val` into the permission register; a no-op without the hardware
/// feature.
pub fn mpk_set_pkru(core: &mut CoreContext, val: u32)
    ensures
        old(core).ospke ==> final(core).regs == (CoreRegs { pkru: val, ..old(core).regs }),
        !old(core).ospke ==> final(core).regs == old(core).regs,
        CoreContext::frame_unchanged(*old(core), *final(core)),
        CoreContext::storage_unchanged(*old(core), *final(core)),
{
    if core.ospke {
        core.regs.pkru = val;
    }
}

/// First page covered: `addr` floored to the page holding it.
pub open spec fn first_page_of(addr: u64, page_size: u64) -> u64
    recommends
        page_size > 0,
{
    addr / page_size
}

/// Number of pages needed for `size` bytes, rounded up.
pub open spec fn page_count_of(size: u64, page_size: u64) -> u64
    recommends
        page_size > 0,
{
    if size % page_size == 0 {
        size / page_size
    } else {
        (size / page_size + 1) as u64
    }
}

/// Stamps `key` on the pages covering `size` bytes from `addr`: the start
/// is floored to its page, the size is rounded up to whole pages.  Reports
/// `-ENOSYS` without the hardware feature and `-EINVAL` for a key above
/// [`MAX_KEY`]; otherwise the paging layer's answer is propagated.
pub fn mpk_mem_set_key(core: &CoreContext, tags: &mut PageTags, addr: u64, size: u64, key: u8, page_size: u64) -> (r: i32)
    requires
        page_size > 0,
        size / page_size + 1 <= usize::MAX,
        addr / page_size + size / page_size + 1 <= u64::MAX,
    ensures
        !core.ospke ==> r == -ENOSYS && final(tags)@ == old(tags)@,
        core.ospke && key > MAX_KEY ==> r == -EINVAL && final(tags)@ == old(tags)@,
        core.ospke && key <= MAX_KEY ==> {
            let first = first_page_of(addr, page_size);
            let count = page_count_of(size, page_size);
            &&& r == 0 <==> range_mapped(old(tags)@, first, count as nat)
            &&& r == 0 ==> range_tagged(old(tags)@, final(tags)@, first, count as nat, key)
            &&& r != 0 ==> r == -EINVAL && final(tags)@ == old(tags)@
        },
{
    if !core.ospke {
        return -ENOSYS;
    }
    if key > MAX_KEY {
        return -EINVAL;
    }
    let first: u64 = addr / page_size;
    let mut count: u64 = size / page_size;
    if size % page_size > 0 {
        count = count + 1;
    }
    tag_range(tags, first, count as usize, key)
}

} // verus!
