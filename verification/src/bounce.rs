//! Bounce-buffer mediator: mediated copies between protected structures and
//! the per-core scratch storage.
//!
//! The kernel never opens the whole protected region just to read one
//! structure.  Instead a copy is *staged*: the structure's bytes are copied
//! into the always-reachable scratch storage, touched there, and copied back
//! if modified.  A copy is performed only when the source or target address
//! was whitelisted in advance and the size fits the storage; every other
//! request is rejected fail-closed, as a no-op, so the blast radius of a bad
//! address is bounded by the whitelist's targets.
//!
//! After a staged value has been consumed the storage must be cleared, so
//! that no protected bytes linger in an unprotected page.

use vstd::prelude::*;
use crate::core_state::{CoreContext, MemoryRegion, STORAGE_SIZE, WHITELIST_CAPACITY};

verus! {

/// An address may be a bounce-copy endpoint for the core when it is on the
/// core's whitelist.
pub open spec fn whitelisted(c: CoreContext, addr: u64) -> bool {
    c.whitelist@.contains(addr)
}

/// A staged copy of `count` bytes between the storage and a region of
/// `src_len` bytes at `base` passes validation: the address is non-null and
/// whitelisted, and the count fits both the storage and the region.
pub open spec fn stage_ok(c: CoreContext, base: u64, src_len: nat, count: nat) -> bool {
    &&& base != 0
    &&& count <= STORAGE_SIZE
    &&& whitelisted(c, base)
    &&& count <= src_len
}

/// Storage contents after `count` bytes of `src` were staged in.
pub open spec fn staged_in_storage(storage: Seq<u8>, src: Seq<u8>, count: int) -> Seq<u8> {
    src.take(count) + storage.skip(count)
}

/// Linear scan of the whitelist for `addr`.
pub(crate) fn wl_contains(wl: &Vec<u64>, addr: u64) -> (r: bool)
    ensures
        r == wl@.contains(addr),
{
    let mut i: usize = 0;
    while i < wl.len()
        invariant
            i <= wl@.len(),
            forall|j: int| 0 <= j < i ==> wl@[j] != addr,
        decreases wl@.len() - i,
    {
        if wl[i] == addr {
            proof {
                assert(wl@[i as int] == addr);
            }
            return true;
        }
        i += 1;
    }
    false
}

/// Whether `addr` is a valid copy endpoint for the core right now.
fn is_valid(core: &CoreContext, addr: u64) -> (r: bool)
    ensures
        r == (addr != 0 && whitelisted(*core, addr)),
{
    if addr == 0 {
        return false;
    }
    wl_contains(&core.whitelist, addr)
}

/// Appends `addr` to the core's whitelist.  The insert is idempotent; once
/// the capacity is exhausted a new address is rejected, which is a fatal
/// boot-configuration error for the caller to escalate.  Returns whether
/// `addr` is on the whitelist afterwards.
pub fn list_add(core: &mut CoreContext, addr: u64) -> (present: bool)
    requires
        old(core).wf(),
    ensures
        final(core).wf(),
        present == whitelisted(*final(core), addr),
        whitelisted(*old(core), addr) ==> final(core).whitelist@ == old(core).whitelist@,
        !whitelisted(*old(core), addr) && old(core).whitelist@.len() < WHITELIST_CAPACITY
            ==> final(core).whitelist@ == old(core).whitelist@.push(addr),
        !whitelisted(*old(core), addr) && old(core).whitelist@.len() >= WHITELIST_CAPACITY
            ==> final(core).whitelist@ == old(core).whitelist@,
        CoreContext::regs_unchanged(*old(core), *final(core)),
        CoreContext::storage_unchanged(*old(core), *final(core)),
        final(core).ospke == old(core).ospke,
        final(core).isolated_stack_top == old(core).isolated_stack_top,
        final(core).storage_base == old(core).storage_base,
        final(core).percore.base == old(core).percore.base,
        final(core).percore.bytes@ == old(core).percore.bytes@,
        final(core).percore_tag == old(core).percore_tag,
{
    if wl_contains(&core.whitelist, addr) {
        return true;
    }
    if core.whitelist.len() >= WHITELIST_CAPACITY {
        return false;
    }
    core.whitelist.push(addr);
    proof {
        assert(core.whitelist@[core.whitelist@.len() - 1] == addr);
    }
    true
}

/// Stages `count` bytes of the protected region `src` into the scratch
/// storage.  When validation fails the storage is left exactly as it was
/// and `false` is returned: the caller must not assume the storage was
/// refreshed.
pub fn copy_from_safe(core: &mut CoreContext, src: &MemoryRegion, count: usize) -> (ok: bool)
    requires
        old(core).wf(),
        old(core).storage_base != 0,
    ensures
        final(core).wf(),
        ok == stage_ok(*old(core), src.base, src.bytes@.len(), count as nat),
        ok ==> final(core).storage@ == staged_in_storage(old(core).storage@, src.bytes@, count as int),
        !ok ==> CoreContext::storage_unchanged(*old(core), *final(core)),
        CoreContext::regs_unchanged(*old(core), *final(core)),
        CoreContext::frame_unchanged(*old(core), *final(core)),
{
    if count > STORAGE_SIZE {
        return false;
    }
    if !is_valid(core, src.base) {
        return false;
    }
    if count > src.bytes.len() {
        return false;
    }
    let mut i: usize = 0;
    while i < count
        invariant
            i <= count,
            count <= src.bytes@.len(),
            count <= core.storage@.len(),
            core.storage@.len() == old(core).storage@.len(),
            forall|j: int| 0 <= j < i ==> core.storage@[j] == src.bytes@[j],
            forall|j: int| i <= j < core.storage@.len() ==> core.storage@[j] == old(core).storage@[j],
            CoreContext::regs_unchanged(*old(core), *core),
            CoreContext::frame_unchanged(*old(core), *core),
        decreases count - i,
    {
        core.storage[i] = src.bytes[i];
        i += 1;
    }
    proof {
        assert(core.storage@ =~= staged_in_storage(old(core).storage@, src.bytes@, count as int));
    }
    true
}

/// Stages `count` bytes of the scratch storage back out into the protected
/// region `dst`, under the same validation as [`copy_from_safe`]; a
/// rejected copy leaves the target memory untouched.  Must be followed by
/// [`clear_unsafe_storage`].
pub fn copy_to_safe(core: &CoreContext, dst: &mut MemoryRegion, count: usize) -> (ok: bool)
    requires
        core.wf(),
        core.storage_base != 0,
    ensures
        ok == stage_ok(*core, old(dst).base, old(dst).bytes@.len(), count as nat),
        final(dst).base == old(dst).base,
        ok ==> final(dst).bytes@ == staged_in_storage(old(dst).bytes@, core.storage@, count as int),
        !ok ==> final(dst).bytes@ == old(dst).bytes@,
{
    if count > STORAGE_SIZE {
        return false;
    }
    if !is_valid(core, dst.base) {
        return false;
    }
    if count > dst.bytes.len() {
        return false;
    }
    let mut i: usize = 0;
    while i < count
        invariant
            i <= count,
            count <= core.storage@.len(),
            count <= dst.bytes@.len(),
            dst.bytes@.len() == old(dst).bytes@.len(),
            dst.base == old(dst).base,
            forall|j: int| 0 <= j < i ==> dst.bytes@[j] == core.storage@[j],
            forall|j: int| i <= j < dst.bytes@.len() ==> dst.bytes@[j] == old(dst).bytes@[j],
        decreases count - i,
    {
        dst.bytes[i] = core.storage[i];
        i += 1;
    }
    proof {
        assert(dst.bytes@ =~= staged_in_storage(old(dst).bytes@, core.storage@, count as int));
    }
    true
}

/// Zeroes the whole scratch storage, so that no staged protected bytes
/// outlive their use in an always-reachable page.
pub fn clear_unsafe_storage(core: &mut CoreContext)
    requires
        old(core).wf(),
        old(core).storage_base != 0,
    ensures
        final(core).wf(),
        final(core).storage@.len() == old(core).storage@.len(),
        forall|j: int| 0 <= j < final(core).storage@.len() ==> final(core).storage@[j] == 0u8,
        CoreContext::regs_unchanged(*old(core), *final(core)),
        CoreContext::frame_unchanged(*old(core), *final(core)),
{
    let mut i: usize = 0;
    let len = core.storage.len();
    while i < len
        invariant
            i <= len,
            len == core.storage@.len(),
            core.storage@.len() == old(core).storage@.len(),
            forall|j: int| 0 <= j < i ==> core.storage@[j] == 0u8,
            CoreContext::regs_unchanged(*old(core), *core),
            CoreContext::frame_unchanged(*old(core), *core),
        decreases len - i,
    {
        core.storage[i] = 0;
        i += 1;
    }
}

/// Zeroes only the first `count` bytes of the scratch storage: enough when
/// the staged value's size is known and smaller than the storage.
pub fn clear_unsafe_storage2(core: &mut CoreContext, count: usize)
    requires
        old(core).wf(),
        old(core).storage_base != 0,
        count <= STORAGE_SIZE,
    ensures
        final(core).wf(),
        final(core).storage@.len() == old(core).storage@.len(),
        forall|j: int| 0 <= j < count ==> final(core).storage@[j] == 0u8,
        forall|j: int| count <= j < final(core).storage@.len()
            ==> final(core).storage@[j] == old(core).storage@[j],
        CoreContext::regs_unchanged(*old(core), *final(core)),
        CoreContext::frame_unchanged(*old(core), *final(core)),
{
    let mut i: usize = 0;
    while i < count
        invariant
            i <= count,
            count <= core.storage@.len(),
            core.storage@.len() == old(core).storage@.len(),
            forall|j: int| 0 <= j < i ==> core.storage@[j] == 0u8,
            forall|j: int| i <= j < core.storage@.len() ==> core.storage@[j] == old(core).storage@[j],
            CoreContext::regs_unchanged(*old(core), *core),
            CoreContext::frame_unchanged(*old(core), *core),
        decreases count - i,
    {
        core.storage[i] = 0;
        i += 1;
    }
}

/// Creates the core's scratch storage at address `storage_base` and
/// whitelists the core's own per-core block, the one protected structure
/// every core must reach.  Runs once during the core's boot sequence.
pub fn unsafe_storage_init(core: &mut CoreContext, storage_base: u64)
    requires
        old(core).wf(),
        storage_base != 0,
    ensures
        final(core).wf(),
        final(core).storage_base == storage_base,
        final(core).storage@.len() == STORAGE_SIZE,
        forall|j: int| 0 <= j < STORAGE_SIZE ==> final(core).storage@[j] == 0u8,
        whitelisted(*old(core), old(core).percore.base) ==> final(core).whitelist@ == old(
            core,
        ).whitelist@,
        !whitelisted(*old(core), old(core).percore.base) && old(core).whitelist@.len()
            < WHITELIST_CAPACITY ==> final(core).whitelist@ == old(core).whitelist@.push(
            old(core).percore.base,
        ),
        !whitelisted(*old(core), old(core).percore.base) && old(core).whitelist@.len()
            >= WHITELIST_CAPACITY ==> final(core).whitelist@ == old(core).whitelist@,
        CoreContext::regs_unchanged(*old(core), *final(core)),
        final(core).ospke == old(core).ospke,
        final(core).isolated_stack_top == old(core).isolated_stack_top,
        final(core).percore.base == old(core).percore.base,
        final(core).percore.bytes@ == old(core).percore.bytes@,
        final(core).percore_tag == old(core).percore_tag,
{
    let mut fresh: Vec<u8> = Vec::new();
    let mut i: usize = 0;
    while i < STORAGE_SIZE
        invariant
            i <= STORAGE_SIZE,
            fresh@.len() == i,
            forall|j: int| 0 <= j < i ==> fresh@[j] == 0u8,
        decreases STORAGE_SIZE - i,
    {
        fresh.push(0);
        i += 1;
    }
    core.storage = fresh;
    core.storage_base = storage_base;
    let base = core.percore.base;
    list_add(core, base);
}

/// Whether the core's scratch storage has been created.
pub fn is_unsafe_storage_init(core: &CoreContext) -> (r: bool)
    ensures
        r == (core.storage_base != 0),
{
    core.storage_base != 0
}

/// Address of the core's scratch storage; 0 before it is created.
pub fn get_unsafe_storage(core: &CoreContext) -> (r: u64)
    ensures
        r == core.storage_base,
{
    core.storage_base
}

/// After a staged copy in, the first `count` storage bytes are exactly the
/// first `count` bytes of the source structure.
pub proof fn lemma_staged_prefix_is_source(storage: Seq<u8>, src: Seq<u8>, count: int)
    requires
        0 <= count <= storage.len(),
        count <= src.len(),
    ensures
        staged_in_storage(storage, src, count).take(count) == src.take(count),
{
    assert(staged_in_storage(storage, src, count).take(count) =~= src.take(count));
}

/// An address that is not whitelisted never passes staging validation,
/// whatever the requested count: the copy is a no-op in both directions.
pub proof fn lemma_unlisted_address_rejected(c: CoreContext, base: u64, src_len: nat, count: nat)
    requires
        !whitelisted(c, base),
    ensures
        !stage_ok(c, base, src_len, count),
{
}

/// A count beyond the storage capacity never passes staging validation,
/// whitelisted or not.
pub proof fn lemma_oversized_count_rejected(c: CoreContext, base: u64, src_len: nat, count: nat)
    requires
        count > STORAGE_SIZE,
    ensures
        !stage_ok(c, base, src_len, count),
{
}

} // verus!
