//! Per-core isolated accessors: read and modify per-core kernel state even
//! while its backing page is tagged protected.
//!
//! Every field of the per-core block gets two access paths.  The `plain`
//! path is a direct read or write, valid only while the permission register
//! actually allows touching the block's key — for instance inside an open
//! bracket, or before the block's page has been protected.  The `safe` path
//! needs no such permission: it whitelists the block, stages it through the
//! bounce buffer, touches the staged copy inside a permission bracket,
//! stages it back if modified, and clears the storage.

use vstd::prelude::*;
use crate::bounce::{clear_unsafe_storage, is_unsafe_storage_init, list_add, staged_in_storage, whitelisted, wl_contains};
use crate::bytes::{lemma_u64_le_round_trip, read_u64_le, u64_le, u64_le_bytes, write_u64_le};
use crate::core_state::{CoreContext, CoreRegs, MemoryRegion, PERCORE_SIZE, STORAGE_SIZE, WHITELIST_CAPACITY};
use crate::keys::{allows_read, allows_write, unsafe_permission_bits};
use crate::wrappers::{isolation_end, isolation_start};

verus! {

/// Byte offset of the core's sequential id inside the per-core block.
pub const CORE_ID_OFFSET: usize = 0;

/// Byte offset of the core's scheduler pointer inside the per-core block.
pub const SCHEDULER_OFFSET: usize = 8;

/// Byte offset of the core's task-state-segment pointer inside the
/// per-core block.
pub const TSS_OFFSET: usize = 16;

/// Typed image of one core's per-core variable block.
pub struct PerCoreVariables {
    /// Sequential id of the core.
    pub core_id: u64,
    /// Address of the core's scheduler.
    pub scheduler: u64,
    /// Address of the core's task state segment.
    pub tss: u64,
}

impl PerCoreVariables {
    /// The block's fixed byte layout: three little-endian 64-bit fields.
    pub open spec fn bytes_spec(self) -> Seq<u8> {
        u64_le_bytes(self.core_id) + u64_le_bytes(self.scheduler) + u64_le_bytes(self.tss)
    }

    /// A fresh block for core `core_id`: scheduler and task-state-segment
    /// pointers start null.
    pub fn new(core_id: u64) -> (r: Self)
        ensures
            r.core_id == core_id,
            r.scheduler == 0,
            r.tss == 0,
    {
        PerCoreVariables { core_id, scheduler: 0, tss: 0 }
    }

    /// Lays the block out in memory at address `base`.
    pub fn to_region(&self, base: u64) -> (r: MemoryRegion)
        ensures
            r.base == base,
            r.bytes@ == self.bytes_spec(),
            r.bytes@.len() == PERCORE_SIZE,
    {
        let mut bytes: Vec<u8> = Vec::new();
        let mut i: usize = 0;
        while i < PERCORE_SIZE
            invariant
                i <= PERCORE_SIZE,
                bytes@.len() == i,
            decreases PERCORE_SIZE - i,
        {
            bytes.push(0);
            i += 1;
        }
        write_u64_le(&mut bytes, CORE_ID_OFFSET, self.core_id);
        write_u64_le(&mut bytes, SCHEDULER_OFFSET, self.scheduler);
        write_u64_le(&mut bytes, TSS_OFFSET, self.tss);
        proof {
            let s = self.bytes_spec();
            assert forall|j: int| 0 <= j < 24 implies bytes@[j] == s[j] by {
                if j < 8 {
                    assert(bytes@.subrange(0, 8)[j] == bytes@[j]);
                    assert(s[j] == u64_le_bytes(self.core_id)[j]);
                } else if j < 16 {
                    assert(bytes@.subrange(8, 16)[j - 8] == bytes@[j]);
                    assert(s[j] == u64_le_bytes(self.scheduler)[j - 8]);
                } else {
                    assert(bytes@.subrange(16, 24)[j - 16] == bytes@[j]);
                    assert(s[j] == u64_le_bytes(self.tss)[j - 16]);
                }
            }
            assert(bytes@ =~= s);
        }
        MemoryRegion { base, bytes }
    }
}

/// Whether staging the core's own block will pass validation once the
/// block's address has been offered to the whitelist: the address is
/// non-null and either already whitelisted or still insertable.
pub open spec fn percore_stage_ok(c: CoreContext) -> bool {
    &&& c.percore.base != 0
    &&& (c.whitelist@.contains(c.percore.base) || c.whitelist@.len() < WHITELIST_CAPACITY)
}

/// The whitelist after the accessor offered the block's address.
pub open spec fn percore_listed(c: CoreContext) -> Seq<u64> {
    if c.whitelist@.contains(c.percore.base) || c.whitelist@.len() >= WHITELIST_CAPACITY {
        c.whitelist@
    } else {
        c.whitelist@.push(c.percore.base)
    }
}

/// The bytes a staged per-core read sees: the block itself when staging
/// passes validation, otherwise the stale storage contents.
pub open spec fn percore_staged_bytes(c: CoreContext) -> Seq<u8> {
    if percore_stage_ok(c) {
        c.percore.bytes@
    } else {
        c.storage@
    }
}

/// Stages the core's own block into the scratch storage.
fn stage_percore_in(core: &mut CoreContext) -> (ok: bool)
    requires
        old(core).wf(),
        old(core).storage_base != 0,
    ensures
        final(core).wf(),
        ok == (old(core).percore.base != 0 && whitelisted(*old(core), old(core).percore.base)),
        ok ==> final(core).storage@ == staged_in_storage(
            old(core).storage@,
            old(core).percore.bytes@,
            PERCORE_SIZE as int,
        ),
        !ok ==> CoreContext::storage_unchanged(*old(core), *final(core)),
        CoreContext::regs_unchanged(*old(core), *final(core)),
        CoreContext::frame_unchanged(*old(core), *final(core)),
{
    if core.percore.base == 0 {
        return false;
    }
    if !wl_contains(&core.whitelist, core.percore.base) {
        return false;
    }
    let mut i: usize = 0;
    while i < PERCORE_SIZE
        invariant
            i <= PERCORE_SIZE,
            core.percore.bytes@.len() == PERCORE_SIZE,
            core.storage@.len() == STORAGE_SIZE,
            core.storage@.len() == old(core).storage@.len(),
            forall|j: int| 0 <= j < i ==> core.storage@[j] == core.percore.bytes@[j],
            forall|j: int| i <= j < core.storage@.len() ==> core.storage@[j] == old(core).storage@[j],
            CoreContext::regs_unchanged(*old(core), *core),
            CoreContext::frame_unchanged(*old(core), *core),
        decreases PERCORE_SIZE - i,
    {
        core.storage[i] = core.percore.bytes[i];
        i += 1;
    }
    proof {
        assert(core.storage@ =~= staged_in_storage(
            old(core).storage@,
            old(core).percore.bytes@,
            PERCORE_SIZE as int,
        ));
    }
    true
}

/// Stages the scratch storage back out into the core's own block.
fn stage_percore_out(core: &mut CoreContext) -> (ok: bool)
    requires
        old(core).wf(),
        old(core).storage_base != 0,
    ensures
        final(core).wf(),
        ok == (old(core).percore.base != 0 && whitelisted(*old(core), old(core).percore.base)),
        ok ==> final(core).percore.bytes@ == old(core).storage@.subrange(0, PERCORE_SIZE as int),
        !ok ==> final(core).percore.bytes@ == old(core).percore.bytes@,
        final(core).percore.base == old(core).percore.base,
        final(core).whitelist@ == old(core).whitelist@,
        final(core).ospke == old(core).ospke,
        final(core).isolated_stack_top == old(core).isolated_stack_top,
        final(core).storage_base == old(core).storage_base,
        final(core).percore_tag == old(core).percore_tag,
        CoreContext::regs_unchanged(*old(core), *final(core)),
        CoreContext::storage_unchanged(*old(core), *final(core)),
{
    if core.percore.base == 0 {
        return false;
    }
    if !wl_contains(&core.whitelist, core.percore.base) {
        return false;
    }
    let mut i: usize = 0;
    while i < PERCORE_SIZE
        invariant
            i <= PERCORE_SIZE,
            core.percore.bytes@.len() == PERCORE_SIZE,
            core.storage@.len() == STORAGE_SIZE,
            core.percore.base == old(core).percore.base,
            forall|j: int| 0 <= j < i ==> core.percore.bytes@[j] == core.storage@[j],
            CoreContext::regs_unchanged(*old(core), *core),
            CoreContext::storage_unchanged(*old(core), *core),
            core.whitelist@ == old(core).whitelist@,
            core.ospke == old(core).ospke,
            core.isolated_stack_top == old(core).isolated_stack_top,
            core.storage_base == old(core).storage_base,
            core.percore_tag == old(core).percore_tag,
        decreases PERCORE_SIZE - i,
    {
        core.percore.bytes[i] = core.storage[i];
        i += 1;
    }
    proof {
        assert(core.percore.bytes@ =~= old(core).storage@.subrange(0, PERCORE_SIZE as int));
    }
    true
}

/// Reads the 64-bit field at `offset` of the per-core block through the
/// bounce buffer: the block's address is whitelisted, the block staged in,
/// the staged copy read inside a permission bracket, and the storage
/// cleared.  When staging fails validation, the value decodes from the
/// stale storage instead — the caller sees that the block's address was
/// never approved.
pub fn safe_get_u64(core: &mut CoreContext, offset: usize) -> (r: u64)
    requires
        old(core).wf(),
        old(core).storage_base != 0,
        offset + 8 <= PERCORE_SIZE,
    ensures
        final(core).wf(),
        r == u64_le(percore_staged_bytes(*old(core)).subrange(offset as int, offset + 8)),
        final(core).whitelist@ == percore_listed(*old(core)),
        final(core).storage@.len() == old(core).storage@.len(),
        forall|j: int| 0 <= j < final(core).storage@.len() ==> final(core).storage@[j] == 0u8,
        final(core).regs == (CoreRegs {
            pkru: old(core).regs.pkru & !unsafe_permission_bits(),
            ..old(core).regs
        }),
        final(core).percore.base == old(core).percore.base,
        final(core).percore.bytes@ == old(core).percore.bytes@,
        final(core).ospke == old(core).ospke,
        final(core).isolated_stack_top == old(core).isolated_stack_top,
        final(core).storage_base == old(core).storage_base,
        final(core).percore_tag == old(core).percore_tag,
{
    let base = core.percore.base;
    list_add(core, base);
    proof {
        if !old(core).whitelist@.contains(base) && old(core).whitelist@.len()
            < WHITELIST_CAPACITY {
            assert(core.whitelist@[core.whitelist@.len() - 1] == base);
        }
    }
    let staged = stage_percore_in(core);
    isolation_start(core);
    let r = read_u64_le(&core.storage, offset);
    proof {
        assert(staged == percore_stage_ok(*old(core)));
        if staged {
            assert(staged_in_storage(
                old(core).storage@,
                old(core).percore.bytes@,
                PERCORE_SIZE as int,
            ).subrange(offset as int, offset + 8) =~= old(core).percore.bytes@.subrange(
                offset as int,
                offset + 8,
            ));
        }
        assert(r == u64_le(percore_staged_bytes(*old(core)).subrange(offset as int, offset + 8)));
    }
    isolation_end(core);
    clear_unsafe_storage(core);
    proof {
        let p = old(core).regs.pkru;
        let b = unsafe_permission_bits();
        assert((p | b) & !b == p & !b) by (bit_vector);
    }
    r
}

/// Writes the 64-bit field at `offset` of the per-core block through the
/// bounce buffer: the block is staged in, the staged copy modified inside
/// a permission bracket, staged back out, and the storage cleared.  When
/// staging fails validation, the block is left untouched.
pub fn safe_set_u64(core: &mut CoreContext, offset: usize, value: u64)
    requires
        old(core).wf(),
        old(core).storage_base != 0,
        offset + 8 <= PERCORE_SIZE,
    ensures
        final(core).wf(),
        percore_stage_ok(*old(core)) ==> final(core).percore.bytes@ == old(core).percore.bytes@.take(offset as int) + u64_le_bytes(value) + old(core).percore.bytes@.skip(
            offset + 8,
        ),
        !percore_stage_ok(*old(core)) ==> final(core).percore.bytes@ == old(core).percore.bytes@,
        final(core).whitelist@ == percore_listed(*old(core)),
        final(core).storage@.len() == old(core).storage@.len(),
        forall|j: int| 0 <= j < final(core).storage@.len() ==> final(core).storage@[j] == 0u8,
        final(core).regs == (CoreRegs {
            pkru: old(core).regs.pkru & !unsafe_permission_bits(),
            ..old(core).regs
        }),
        final(core).percore.base == old(core).percore.base,
        final(core).ospke == old(core).ospke,
        final(core).isolated_stack_top == old(core).isolated_stack_top,
        final(core).storage_base == old(core).storage_base,
        final(core).percore_tag == old(core).percore_tag,
{
    let base = core.percore.base;
    list_add(core, base);
    proof {
        if !old(core).whitelist@.contains(base) && old(core).whitelist@.len()
            < WHITELIST_CAPACITY {
            assert(core.whitelist@[core.whitelist@.len() - 1] == base);
        }
    }
    let staged = stage_percore_in(core);
    let ghost after_in = core.storage@;
    isolation_start(core);
    write_u64_le(&mut core.storage, offset, value);
    let ghost written = core.storage@;
    isolation_end(core);
    stage_percore_out(core);
    proof {
        assert(staged == percore_stage_ok(*old(core)));
        if staged {
            let want = old(core).percore.bytes@.take(offset as int) + u64_le_bytes(value) + old(
                core,
            ).percore.bytes@.skip(offset + 8);
            assert forall|j: int| 0 <= j < PERCORE_SIZE implies core.percore.bytes@[j] == want[j] by {
                assert(core.percore.bytes@[j] == written.subrange(0, PERCORE_SIZE as int)[j]);
                if offset <= j < offset + 8 {
                    assert(written.subrange(offset as int, offset + 8)[j - offset] == written[j]);
                } else {
                    assert(written[j] == after_in[j]);
                    assert(after_in[j] == old(core).percore.bytes@[j]);
                }
            }
            assert(core.percore.bytes@ =~= want);
        }
    }
    clear_unsafe_storage(core);
    proof {
        let p = old(core).regs.pkru;
        let b = unsafe_permission_bits();
        assert((p | b) & !b == p & !b) by (bit_vector);
    }
}

/// Direct read of a 64-bit field: valid only while the permission register
/// actually allows reading the block's key.
pub fn plain_get_u64(core: &CoreContext, offset: usize) -> (r: u64)
    requires
        core.wf(),
        offset + 8 <= PERCORE_SIZE,
        allows_read(core.regs.pkru, core.percore_tag),
    ensures
        r == u64_le(core.percore.bytes@.subrange(offset as int, offset + 8)),
{
    read_u64_le(&core.percore.bytes, offset)
}

/// Direct write of a 64-bit field: valid only while the permission
/// register actually allows writing the block's key.
pub fn plain_set_u64(core: &mut CoreContext, offset: usize, value: u64)
    requires
        old(core).wf(),
        offset + 8 <= PERCORE_SIZE,
        allows_write(old(core).regs.pkru, old(core).percore_tag),
    ensures
        final(core).wf(),
        final(core).percore.bytes@ == old(core).percore.bytes@.take(offset as int) + u64_le_bytes(
            value,
        ) + old(core).percore.bytes@.skip(offset + 8),
        final(core).percore.base == old(core).percore.base,
        final(core).whitelist@ == old(core).whitelist@,
        final(core).ospke == old(core).ospke,
        final(core).isolated_stack_top == old(core).isolated_stack_top,
        final(core).storage_base == old(core).storage_base,
        final(core).percore_tag == old(core).percore_tag,
        CoreContext::regs_unchanged(*old(core), *final(core)),
        CoreContext::storage_unchanged(*old(core), *final(core)),
{
    write_u64_le(&mut core.percore.bytes, offset, value);
    proof {
        assert(core.percore.bytes@ =~= old(core).percore.bytes@.take(offset as int)
            + u64_le_bytes(value) + old(core).percore.bytes@.skip(offset + 8));
    }
}

/// The core's sequential id: through the bounce buffer once the scratch
/// storage exists, directly before that.
pub fn core_id(core: &mut CoreContext) -> (r: u64)
    requires
        old(core).wf(),
        old(core).storage_base == 0 ==> allows_read(old(core).regs.pkru, old(core).percore_tag),
    ensures
        final(core).wf(),
        old(core).storage_base != 0 ==> r == u64_le(
            percore_staged_bytes(*old(core)).subrange(CORE_ID_OFFSET as int, CORE_ID_OFFSET + 8),
        ),
        old(core).storage_base == 0 ==> r == u64_le(
            old(core).percore.bytes@.subrange(CORE_ID_OFFSET as int, CORE_ID_OFFSET + 8),
        ) && *final(core) == *old(core),
{
    if is_unsafe_storage_init(core) {
        safe_get_u64(core, CORE_ID_OFFSET)
    } else {
        plain_get_u64(core, CORE_ID_OFFSET)
    }
}

/// The core's scheduler pointer, read directly; the callers run with the
/// block reachable.
pub fn core_scheduler(core: &CoreContext) -> (r: u64)
    requires
        core.wf(),
        allows_read(core.regs.pkru, core.percore_tag),
    ensures
        r == u64_le(core.percore.bytes@.subrange(SCHEDULER_OFFSET as int, SCHEDULER_OFFSET + 8)),
{
    plain_get_u64(core, SCHEDULER_OFFSET)
}

/// Installs the core's scheduler pointer: through the bounce buffer once
/// the scratch storage exists, directly before that.
pub fn set_core_scheduler(core: &mut CoreContext, scheduler: u64)
    requires
        old(core).wf(),
        old(core).storage_base == 0 ==> allows_write(old(core).regs.pkru, old(core).percore_tag),
    ensures
        final(core).wf(),
        old(core).storage_base != 0 && percore_stage_ok(*old(core)) ==> final(core).percore.bytes@ == old(core).percore.bytes@.take(SCHEDULER_OFFSET as int) + u64_le_bytes(
            scheduler,
        ) + old(core).percore.bytes@.skip(SCHEDULER_OFFSET + 8),
        old(core).storage_base != 0 && !percore_stage_ok(*old(core)) ==> final(core).percore.bytes@ == old(core).percore.bytes@,
        old(core).storage_base == 0 ==> final(core).percore.bytes@ == old(core).percore.bytes@.take(SCHEDULER_OFFSET as int) + u64_le_bytes(scheduler) + old(core).percore.bytes@.skip(SCHEDULER_OFFSET + 8),
        final(core).percore.base == old(core).percore.base,
        final(core).ospke == old(core).ospke,
        final(core).isolated_stack_top == old(core).isolated_stack_top,
        final(core).storage_base == old(core).storage_base,
        final(core).percore_tag == old(core).percore_tag,
{
    if is_unsafe_storage_init(core) {
        safe_set_u64(core, SCHEDULER_OFFSET, scheduler);
    } else {
        plain_set_u64(core, SCHEDULER_OFFSET, scheduler);
    }
}

/// Points the core at the per-core block the boot sequence prepared for
/// it: the block's address is read from the boot descriptor through the
/// mediator, and a null address leaves the core on its statically
/// allocated block.
pub fn init(core: &mut CoreContext, boot: &MemoryRegion)
    requires
        old(core).wf(),
        crate::bootinfo::is_boot_region(*boot),
    ensures
        final(core).wf(),
        ({
            let addr = u64_le(
                crate::bootinfo::boot_view(*old(core), *boot).subrange(
                    crate::bootinfo::CURRENT_PERCORE_ADDRESS_OFFSET as int,
                    crate::bootinfo::CURRENT_PERCORE_ADDRESS_OFFSET + 8,
                ),
            );
            final(core).percore.base == if addr != 0 {
                addr
            } else {
                old(core).percore.base
            }
        }),
        final(core).percore.bytes@ == old(core).percore.bytes@,
        final(core).whitelist@ == old(core).whitelist@,
        final(core).ospke == old(core).ospke,
        final(core).isolated_stack_top == old(core).isolated_stack_top,
        final(core).storage_base == old(core).storage_base,
        final(core).percore_tag == old(core).percore_tag,
        CoreContext::storage_unchanged(*old(core), *final(core)) || (forall|j: int|
            0 <= j < final(core).storage@.len() ==> final(core).storage@[j] == 0u8),
{
    let addr = crate::bootinfo::get_current_percore_address(core, boot);
    if addr != 0 {
        core.percore.base = addr;
    }
}

/// A staged write of a field followed by a staged read of the same field
/// hands back exactly the written value: what `safe_set_u64` lays down in
/// the block, `safe_get_u64` decodes again.
pub proof fn lemma_safe_set_then_get(block: Seq<u8>, offset: int, value: u64)
    requires
        0 <= offset,
        offset + 8 <= block.len(),
    ensures
        u64_le(
            (block.take(offset) + u64_le_bytes(value) + block.skip(offset + 8)).subrange(
                offset,
                offset + 8,
            ),
        ) == value,
{
    assert((block.take(offset) + u64_le_bytes(value) + block.skip(offset + 8)).subrange(
        offset,
        offset + 8,
    ) =~= u64_le_bytes(value));
    lemma_u64_le_round_trip(value);
}

} // verus!
