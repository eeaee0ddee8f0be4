//! The boot descriptor: the fixed-layout structure the loader hands the
//! kernel, and its mediated field accessors.
//!
//! The descriptor's address is established once at boot and is the primary
//! whitelist entry.  Once the scratch storage exists, every field read goes
//! through the bounce buffer: the descriptor is staged in, the field read
//! from the staged copy inside a permission bracket, and the storage
//! cleared.  Before the storage exists the fields are read directly.

use vstd::prelude::*;
use crate::bounce::{clear_unsafe_storage, copy_from_safe, copy_to_safe, stage_ok, staged_in_storage};
use crate::bytes::{push_u16_le, push_u32_le, push_u64_le, push_u8, read_u16_le, read_u32_le, read_u64_le, u16_le, u16_le_bytes, u32_le, u32_le_bytes, u64_le, u64_le_bytes, write_u32_le};
use crate::core_state::{CoreContext, CoreRegs, MemoryRegion};
use crate::keys::unsafe_permission_bits;
use crate::wrappers::{isolation_end, isolation_start};

verus! {

/// Size of the boot descriptor in bytes, padding included.
pub const BOOT_INFO_SIZE: usize = 152;

/// Byte offset of the kernel's load address.
pub const BASE_OFFSET: usize = 8;

/// Byte offset of the kernel's memory limit.
pub const LIMIT_OFFSET: usize = 16;

/// Byte offset of the kernel image size.
pub const IMAGE_SIZE_OFFSET: usize = 24;

/// Byte offset of the thread-local-storage start address.
pub const TLS_START_OFFSET: usize = 32;

/// Byte offset of the thread-local-storage file size.
pub const TLS_FILESZ_OFFSET: usize = 40;

/// Byte offset of the thread-local-storage memory size.
pub const TLS_MEMSZ_OFFSET: usize = 48;

/// Byte offset of the per-core block address prepared for the next core.
pub const CURRENT_PERCORE_ADDRESS_OFFSET: usize = 64;

/// Byte offset of the multiboot information address.
pub const MB_INFO_OFFSET: usize = 88;

/// Byte offset of the command line address.
pub const CMDLINE_OFFSET: usize = 96;

/// Byte offset of the command line size.
pub const CMDSIZE_OFFSET: usize = 104;

/// Byte offset of the count of cores brought online.
pub const CPU_ONLINE_OFFSET: usize = 120;

/// Byte offset of the serial port number.
pub const UARTPORT_OFFSET: usize = 132;

/// Byte offset of the single-kernel flag.
pub const SINGLE_KERNEL_OFFSET: usize = 134;

/// Byte offset of the hypervisor flag.
pub const UHYVE_OFFSET: usize = 135;

/// Byte offset of the host-controlled IP address.
pub const HCIP_OFFSET: usize = 136;

/// Byte offset of the host-controlled gateway address.
pub const HCGATEWAY_OFFSET: usize = 140;

/// Typed image of the boot descriptor.
pub struct BootInfo {
    /// Magic number the loader stamps on the descriptor.
    pub magic_number: u32,
    /// Descriptor format version.
    pub version: u32,
    /// Kernel load address.
    pub base: u64,
    /// Kernel memory limit.
    pub limit: u64,
    /// Kernel image size.
    pub image_size: u64,
    /// Thread-local-storage start address.
    pub tls_start: u64,
    /// Thread-local-storage file size.
    pub tls_filesz: u64,
    /// Thread-local-storage memory size.
    pub tls_memsz: u64,
    /// Stack address of the core being booted.
    pub current_stack_address: u64,
    /// Per-core block address prepared for the core being booted.
    pub current_percore_address: u64,
    /// Host logical address.
    pub host_logical_addr: u64,
    /// Wall-clock time at boot.
    pub boot_gtod: u64,
    /// Multiboot information address.
    pub mb_info: u64,
    /// Command line address.
    pub cmdline: u64,
    /// Command line size.
    pub cmdsize: u64,
    /// Processor frequency in MHz.
    pub cpu_freq: u32,
    /// Id of the boot processor.
    pub boot_processor: u32,
    /// Count of cores brought online.
    pub cpu_online: u32,
    /// Count of possible cores.
    pub possible_cpus: u32,
    /// Id of the core currently being booted.
    pub current_boot_id: u32,
    /// Serial port number.
    pub uartport: u16,
    /// Whether the kernel runs alone rather than side by side with a host.
    pub single_kernel: u8,
    /// Whether the kernel runs under the lightweight hypervisor.
    pub uhyve: u8,
    /// Host-controlled IP address.
    pub hcip: [u8; 4],
    /// Host-controlled gateway address.
    pub hcgateway: [u8; 4],
    /// Host-controlled network mask.
    pub hcmask: [u8; 4],
}

impl BootInfo {
    /// The descriptor's fixed byte layout, padding included.
    pub open spec fn bytes_spec(self) -> Seq<u8> {
        u32_le_bytes(self.magic_number) + u32_le_bytes(self.version) + u64_le_bytes(self.base)
            + u64_le_bytes(self.limit) + u64_le_bytes(self.image_size) + u64_le_bytes(
            self.tls_start,
        ) + u64_le_bytes(self.tls_filesz) + u64_le_bytes(self.tls_memsz) + u64_le_bytes(
            self.current_stack_address,
        ) + u64_le_bytes(self.current_percore_address) + u64_le_bytes(self.host_logical_addr)
            + u64_le_bytes(self.boot_gtod) + u64_le_bytes(self.mb_info) + u64_le_bytes(self.cmdline)
            + u64_le_bytes(self.cmdsize) + u32_le_bytes(self.cpu_freq) + u32_le_bytes(
            self.boot_processor,
        ) + u32_le_bytes(self.cpu_online) + u32_le_bytes(self.possible_cpus) + u32_le_bytes(
            self.current_boot_id,
        ) + u16_le_bytes(self.uartport) + seq![self.single_kernel] + seq![self.uhyve] + self.hcip@
            + self.hcgateway@ + self.hcmask@ + seq![0u8, 0u8, 0u8, 0u8]
    }

    /// Lays the descriptor out in memory at address `base`, as the loader
    /// does.
    pub fn to_region(&self, base: u64) -> (r: MemoryRegion)
        ensures
            r.base == base,
            r.bytes@ == self.bytes_spec(),
            r.bytes@.len() == BOOT_INFO_SIZE,
    {
        let mut bytes: Vec<u8> = Vec::new();
        push_u32_le(&mut bytes, self.magic_number);
        push_u32_le(&mut bytes, self.version);
        push_u64_le(&mut bytes, self.base);
        push_u64_le(&mut bytes, self.limit);
        push_u64_le(&mut bytes, self.image_size);
        push_u64_le(&mut bytes, self.tls_start);
        push_u64_le(&mut bytes, self.tls_filesz);
        push_u64_le(&mut bytes, self.tls_memsz);
        push_u64_le(&mut bytes, self.current_stack_address);
        push_u64_le(&mut bytes, self.current_percore_address);
        push_u64_le(&mut bytes, self.host_logical_addr);
        push_u64_le(&mut bytes, self.boot_gtod);
        push_u64_le(&mut bytes, self.mb_info);
        push_u64_le(&mut bytes, self.cmdline);
        push_u64_le(&mut bytes, self.cmdsize);
        push_u32_le(&mut bytes, self.cpu_freq);
        push_u32_le(&mut bytes, self.boot_processor);
        push_u32_le(&mut bytes, self.cpu_online);
        push_u32_le(&mut bytes, self.possible_cpus);
        push_u32_le(&mut bytes, self.current_boot_id);
        push_u16_le(&mut bytes, self.uartport);
        push_u8(&mut bytes, self.single_kernel);
        push_u8(&mut bytes, self.uhyve);
        push_u8(&mut bytes, self.hcip[0]);
        push_u8(&mut bytes, self.hcip[1]);
        push_u8(&mut bytes, self.hcip[2]);
        push_u8(&mut bytes, self.hcip[3]);
        push_u8(&mut bytes, self.hcgateway[0]);
        push_u8(&mut bytes, self.hcgateway[1]);
        push_u8(&mut bytes, self.hcgateway[2]);
        push_u8(&mut bytes, self.hcgateway[3]);
        push_u8(&mut bytes, self.hcmask[0]);
        push_u8(&mut bytes, self.hcmask[1]);
        push_u8(&mut bytes, self.hcmask[2]);
        push_u8(&mut bytes, self.hcmask[3]);
        push_u8(&mut bytes, 0);
        push_u8(&mut bytes, 0);
        push_u8(&mut bytes, 0);
        push_u8(&mut bytes, 0);
        proof {
            assert(bytes@ =~= self.bytes_spec());
        }
        MemoryRegion { base, bytes }
    }
}

/// A region holding a boot descriptor has exactly the descriptor's size.
pub open spec fn is_boot_region(r: MemoryRegion) -> bool {
    r.bytes@.len() == BOOT_INFO_SIZE
}

/// The descriptor bytes a mediated read sees: the descriptor itself when
/// read directly (no scratch storage yet) or when staging passes
/// validation, and the stale storage contents when staging is rejected.
pub open spec fn boot_view(c: CoreContext, boot: MemoryRegion) -> Seq<u8> {
    if c.storage_base == 0 {
        boot.bytes@
    } else if stage_ok(c, boot.base, boot.bytes@.len(), BOOT_INFO_SIZE as nat) {
        boot.bytes@
    } else {
        c.storage@
    }
}

/// How a mediated read leaves the core: untouched on the direct path;
/// otherwise the storage is cleared, the permission bracket has been
/// opened and closed, and everything else is as it was.
pub open spec fn accessor_frame(pre: CoreContext, post: CoreContext) -> bool {
    if pre.storage_base == 0 {
        post == pre
    } else {
        &&& post.regs == (CoreRegs {
            pkru: pre.regs.pkru & !unsafe_permission_bits(),
            ..pre.regs
        })
        &&& post.storage@.len() == pre.storage@.len()
        &&& (forall|j: int| 0 <= j < post.storage@.len() ==> post.storage@[j] == 0u8)
        &&& post.whitelist@ == pre.whitelist@
        &&& post.ospke == pre.ospke
        &&& post.isolated_stack_top == pre.isolated_stack_top
        &&& post.storage_base == pre.storage_base
        &&& post.percore.base == pre.percore.base
        &&& post.percore.bytes@ == pre.percore.bytes@
        &&& post.percore_tag == pre.percore_tag
    }
}

/// Mediated read of a 64-bit descriptor field.
pub fn boot_read_u64(core: &mut CoreContext, boot: &MemoryRegion, offset: usize) -> (r: u64)
    requires
        old(core).wf(),
        is_boot_region(*boot),
        offset + 8 <= BOOT_INFO_SIZE,
    ensures
        final(core).wf(),
        r == u64_le(boot_view(*old(core), *boot).subrange(offset as int, offset + 8)),
        accessor_frame(*old(core), *final(core)),
{
    if core.storage_base == 0 {
        return read_u64_le(&boot.bytes, offset);
    }
    let ok = copy_from_safe(core, boot, BOOT_INFO_SIZE);
    isolation_start(core);
    let r = read_u64_le(&core.storage, offset);
    proof {
        if ok {
            assert(staged_in_storage(
                old(core).storage@,
                boot.bytes@,
                BOOT_INFO_SIZE as int,
            ).subrange(offset as int, offset + 8) =~= boot.bytes@.subrange(
                offset as int,
                offset + 8,
            ));
        }
    }
    isolation_end(core);
    clear_unsafe_storage(core);
    proof {
        let p = old(core).regs.pkru;
        let b = unsafe_permission_bits();
        assert((p | b) & !b == p & !b) by (bit_vector);
    }
    r
}

/// Mediated read of a 32-bit descriptor field.
pub fn boot_read_u32(core: &mut CoreContext, boot: &MemoryRegion, offset: usize) -> (r: u32)
    requires
        old(core).wf(),
        is_boot_region(*boot),
        offset + 4 <= BOOT_INFO_SIZE,
    ensures
        final(core).wf(),
        r == u32_le(boot_view(*old(core), *boot).subrange(offset as int, offset + 4)),
        accessor_frame(*old(core), *final(core)),
{
    if core.storage_base == 0 {
        return read_u32_le(&boot.bytes, offset);
    }
    let ok = copy_from_safe(core, boot, BOOT_INFO_SIZE);
    isolation_start(core);
    let r = read_u32_le(&core.storage, offset);
    proof {
        if ok {
            assert(staged_in_storage(
                old(core).storage@,
                boot.bytes@,
                BOOT_INFO_SIZE as int,
            ).subrange(offset as int, offset + 4) =~= boot.bytes@.subrange(
                offset as int,
                offset + 4,
            ));
        }
    }
    isolation_end(core);
    clear_unsafe_storage(core);
    proof {
        let p = old(core).regs.pkru;
        let b = unsafe_permission_bits();
        assert((p | b) & !b == p & !b) by (bit_vector);
    }
    r
}

/// Mediated read of a 16-bit descriptor field.
pub fn boot_read_u16(core: &mut CoreContext, boot: &MemoryRegion, offset: usize) -> (r: u16)
    requires
        old(core).wf(),
        is_boot_region(*boot),
        offset + 2 <= BOOT_INFO_SIZE,
    ensures
        final(core).wf(),
        r == u16_le(boot_view(*old(core), *boot).subrange(offset as int, offset + 2)),
        accessor_frame(*old(core), *final(core)),
{
    if core.storage_base == 0 {
        return read_u16_le(&boot.bytes, offset);
    }
    let ok = copy_from_safe(core, boot, BOOT_INFO_SIZE);
    isolation_start(core);
    let r = read_u16_le(&core.storage, offset);
    proof {
        if ok {
            assert(staged_in_storage(
                old(core).storage@,
                boot.bytes@,
                BOOT_INFO_SIZE as int,
            ).subrange(offset as int, offset + 2) =~= boot.bytes@.subrange(
                offset as int,
                offset + 2,
            ));
        }
    }
    isolation_end(core);
    clear_unsafe_storage(core);
    proof {
        let p = old(core).regs.pkru;
        let b = unsafe_permission_bits();
        assert((p | b) & !b == p & !b) by (bit_vector);
    }
    r
}

/// Mediated read of a single descriptor byte.
pub fn boot_read_u8(core: &mut CoreContext, boot: &MemoryRegion, offset: usize) -> (r: u8)
    requires
        old(core).wf(),
        is_boot_region(*boot),
        offset < BOOT_INFO_SIZE,
    ensures
        final(core).wf(),
        r == boot_view(*old(core), *boot)[offset as int],
        accessor_frame(*old(core), *final(core)),
{
    if core.storage_base == 0 {
        return boot.bytes[offset];
    }
    let ok = copy_from_safe(core, boot, BOOT_INFO_SIZE);
    isolation_start(core);
    let r = core.storage[offset];
    isolation_end(core);
    clear_unsafe_storage(core);
    proof {
        let p = old(core).regs.pkru;
        let b = unsafe_permission_bits();
        assert((p | b) & !b == p & !b) by (bit_vector);
    }
    r
}

/// Mediated read of four consecutive descriptor bytes.
pub fn boot_read_4(core: &mut CoreContext, boot: &MemoryRegion, offset: usize) -> (r: [u8; 4])
    requires
        old(core).wf(),
        is_boot_region(*boot),
        offset + 4 <= BOOT_INFO_SIZE,
    ensures
        final(core).wf(),
        r@ == boot_view(*old(core), *boot).subrange(offset as int, offset + 4),
        accessor_frame(*old(core), *final(core)),
{
    if core.storage_base == 0 {
        let r = [boot.bytes[offset], boot.bytes[offset + 1], boot.bytes[offset + 2], boot.bytes[offset
            + 3]];
        proof {
            assert(r@ =~= boot.bytes@.subrange(offset as int, offset + 4));
        }
        return r;
    }
    let ok = copy_from_safe(core, boot, BOOT_INFO_SIZE);
    isolation_start(core);
    let r = [core.storage[offset], core.storage[offset + 1], core.storage[offset + 2], core.storage[offset
        + 3]];
    proof {
        assert(r@ =~= core.storage@.subrange(offset as int, offset + 4));
        if ok {
            assert(staged_in_storage(
                old(core).storage@,
                boot.bytes@,
                BOOT_INFO_SIZE as int,
            ).subrange(offset as int, offset + 4) =~= boot.bytes@.subrange(
                offset as int,
                offset + 4,
            ));
        }
    }
    isolation_end(core);
    clear_unsafe_storage(core);
    proof {
        let p = old(core).regs.pkru;
        let b = unsafe_permission_bits();
        assert((p | b) & !b == p & !b) by (bit_vector);
    }
    r
}

/// Kernel load address.
pub fn get_base_address(core: &mut CoreContext, boot: &MemoryRegion) -> (r: u64)
    requires
        old(core).wf(),
        is_boot_region(*boot),
    ensures
        final(core).wf(),
        r == u64_le(boot_view(*old(core), *boot).subrange(BASE_OFFSET as int, BASE_OFFSET + 8)),
        accessor_frame(*old(core), *final(core)),
{
    boot_read_u64(core, boot, BASE_OFFSET)
}

/// Kernel memory limit.
pub fn get_limit(core: &mut CoreContext, boot: &MemoryRegion) -> (r: u64)
    requires
        old(core).wf(),
        is_boot_region(*boot),
    ensures
        final(core).wf(),
        r == u64_le(boot_view(*old(core), *boot).subrange(LIMIT_OFFSET as int, LIMIT_OFFSET + 8)),
        accessor_frame(*old(core), *final(core)),
{
    boot_read_u64(core, boot, LIMIT_OFFSET)
}

/// Kernel image size.
pub fn get_image_size(core: &mut CoreContext, boot: &MemoryRegion) -> (r: u64)
    requires
        old(core).wf(),
        is_boot_region(*boot),
    ensures
        final(core).wf(),
        r == u64_le(
            boot_view(*old(core), *boot).subrange(IMAGE_SIZE_OFFSET as int, IMAGE_SIZE_OFFSET + 8),
        ),
        accessor_frame(*old(core), *final(core)),
{
    boot_read_u64(core, boot, IMAGE_SIZE_OFFSET)
}

/// Thread-local-storage start address.
pub fn get_tls_start(core: &mut CoreContext, boot: &MemoryRegion) -> (r: u64)
    requires
        old(core).wf(),
        is_boot_region(*boot),
    ensures
        final(core).wf(),
        r == u64_le(
            boot_view(*old(core), *boot).subrange(TLS_START_OFFSET as int, TLS_START_OFFSET + 8),
        ),
        accessor_frame(*old(core), *final(core)),
{
    boot_read_u64(core, boot, TLS_START_OFFSET)
}

/// Thread-local-storage file size.
pub fn get_tls_filesz(core: &mut CoreContext, boot: &MemoryRegion) -> (r: u64)
    requires
        old(core).wf(),
        is_boot_region(*boot),
    ensures
        final(core).wf(),
        r == u64_le(
            boot_view(*old(core), *boot).subrange(TLS_FILESZ_OFFSET as int, TLS_FILESZ_OFFSET + 8),
        ),
        accessor_frame(*old(core), *final(core)),
{
    boot_read_u64(core, boot, TLS_FILESZ_OFFSET)
}

/// Thread-local-storage memory size.
pub fn get_tls_memsz(core: &mut CoreContext, boot: &MemoryRegion) -> (r: u64)
    requires
        old(core).wf(),
        is_boot_region(*boot),
    ensures
        final(core).wf(),
        r == u64_le(
            boot_view(*old(core), *boot).subrange(TLS_MEMSZ_OFFSET as int, TLS_MEMSZ_OFFSET + 8),
        ),
        accessor_frame(*old(core), *final(core)),
{
    boot_read_u64(core, boot, TLS_MEMSZ_OFFSET)
}

/// Multiboot information address.
pub fn get_mbinfo(core: &mut CoreContext, boot: &MemoryRegion) -> (r: u64)
    requires
        old(core).wf(),
        is_boot_region(*boot),
    ensures
        final(core).wf(),
        r == u64_le(
            boot_view(*old(core), *boot).subrange(MB_INFO_OFFSET as int, MB_INFO_OFFSET + 8),
        ),
        accessor_frame(*old(core), *final(core)),
{
    boot_read_u64(core, boot, MB_INFO_OFFSET)
}

/// Command line address.
pub fn get_cmdline(core: &mut CoreContext, boot: &MemoryRegion) -> (r: u64)
    requires
        old(core).wf(),
        is_boot_region(*boot),
    ensures
        final(core).wf(),
        r == u64_le(
            boot_view(*old(core), *boot).subrange(CMDLINE_OFFSET as int, CMDLINE_OFFSET + 8),
        ),
        accessor_frame(*old(core), *final(core)),
{
    boot_read_u64(core, boot, CMDLINE_OFFSET)
}

/// Command line size.
pub fn get_cmdsize(core: &mut CoreContext, boot: &MemoryRegion) -> (r: u64)
    requires
        old(core).wf(),
        is_boot_region(*boot),
    ensures
        final(core).wf(),
        r == u64_le(
            boot_view(*old(core), *boot).subrange(CMDSIZE_OFFSET as int, CMDSIZE_OFFSET + 8),
        ),
        accessor_frame(*old(core), *final(core)),
{
    boot_read_u64(core, boot, CMDSIZE_OFFSET)
}

/// Count of cores brought online.
pub fn get_processor_count(core: &mut CoreContext, boot: &MemoryRegion) -> (r: u32)
    requires
        old(core).wf(),
        is_boot_region(*boot),
    ensures
        final(core).wf(),
        r == u32_le(
            boot_view(*old(core), *boot).subrange(CPU_ONLINE_OFFSET as int, CPU_ONLINE_OFFSET + 4),
        ),
        accessor_frame(*old(core), *final(core)),
{
    boot_read_u32(core, boot, CPU_ONLINE_OFFSET)
}

/// Per-core block address prepared for the core being booted.
pub fn get_current_percore_address(core: &mut CoreContext, boot: &MemoryRegion) -> (r: u64)
    requires
        old(core).wf(),
        is_boot_region(*boot),
    ensures
        final(core).wf(),
        r == u64_le(
            boot_view(*old(core), *boot).subrange(
                CURRENT_PERCORE_ADDRESS_OFFSET as int,
                CURRENT_PERCORE_ADDRESS_OFFSET + 8,
            ),
        ),
        accessor_frame(*old(core), *final(core)),
{
    boot_read_u64(core, boot, CURRENT_PERCORE_ADDRESS_OFFSET)
}

/// Whether the kernel runs under the lightweight hypervisor.
pub fn is_uhyve(core: &mut CoreContext, boot: &MemoryRegion) -> (r: bool)
    requires
        old(core).wf(),
        is_boot_region(*boot),
    ensures
        final(core).wf(),
        r == (boot_view(*old(core), *boot)[UHYVE_OFFSET as int] != 0),
        accessor_frame(*old(core), *final(core)),
{
    boot_read_u8(core, boot, UHYVE_OFFSET) != 0
}

/// Whether the kernel runs alone rather than side by side with a host.
pub fn is_single_kernel(core: &mut CoreContext, boot: &MemoryRegion) -> (r: bool)
    requires
        old(core).wf(),
        is_boot_region(*boot),
    ensures
        final(core).wf(),
        r == (boot_view(*old(core), *boot)[SINGLE_KERNEL_OFFSET as int] != 0),
        accessor_frame(*old(core), *final(core)),
{
    boot_read_u8(core, boot, SINGLE_KERNEL_OFFSET) != 0
}

/// Host-controlled IP address.
pub fn get_ip(core: &mut CoreContext, boot: &MemoryRegion) -> (r: [u8; 4])
    requires
        old(core).wf(),
        is_boot_region(*boot),
    ensures
        final(core).wf(),
        r@ == boot_view(*old(core), *boot).subrange(HCIP_OFFSET as int, HCIP_OFFSET + 4),
        accessor_frame(*old(core), *final(core)),
{
    boot_read_4(core, boot, HCIP_OFFSET)
}

/// Host-controlled gateway address.
pub fn get_gateway(core: &mut CoreContext, boot: &MemoryRegion) -> (r: [u8; 4])
    requires
        old(core).wf(),
        is_boot_region(*boot),
    ensures
        final(core).wf(),
        r@ == boot_view(*old(core), *boot).subrange(HCGATEWAY_OFFSET as int, HCGATEWAY_OFFSET + 4),
        accessor_frame(*old(core), *final(core)),
{
    boot_read_4(core, boot, HCGATEWAY_OFFSET)
}

/// Whether the hypervisor offers an IP device: an address of all 255s
/// means none.
pub fn has_ipdevice(core: &mut CoreContext, boot: &MemoryRegion) -> (r: bool)
    requires
        old(core).wf(),
        is_boot_region(*boot),
    ensures
        final(core).wf(),
        r == !(boot_view(*old(core), *boot)[HCIP_OFFSET as int] == 255 && boot_view(
            *old(core),
            *boot,
        )[HCIP_OFFSET + 1] == 255 && boot_view(*old(core), *boot)[HCIP_OFFSET + 2] == 255
            && boot_view(*old(core), *boot)[HCIP_OFFSET + 3] == 255),
        accessor_frame(*old(core), *final(core)),
{
    let ip = get_ip(core, boot);
    proof {
        let v = boot_view(*old(core), *boot).subrange(HCIP_OFFSET as int, HCIP_OFFSET + 4);
        assert(ip@[0] == v[0] && ip@[1] == v[1] && ip@[2] == v[2] && ip@[3] == v[3]);
    }
    if ip[0] == 255 && ip[1] == 255 && ip[2] == 255 && ip[3] == 255 {
        false
    } else {
        true
    }
}

/// `cpu_online` incremented by one, wrapping at the register width as the
/// hardware add does.
pub open spec fn incremented(x: u32) -> u32 {
    if x == u32::MAX {
        0u32
    } else {
        (x + 1) as u32
    }
}

/// Announces this core as online: stages the descriptor in, increments the
/// `cpu_online` counter on the staged copy inside a permission bracket,
/// stages the modified descriptor back out, and clears the storage.  When
/// the descriptor's address was never whitelisted, the descriptor is left
/// untouched — the write, like the read, is fail-closed.
pub fn finish_processor_init(core: &mut CoreContext, boot: &mut MemoryRegion)
    requires
        old(core).wf(),
        old(core).storage_base != 0,
        is_boot_region(*old(boot)),
    ensures
        final(core).wf(),
        final(boot).base == old(boot).base,
        stage_ok(*old(core), old(boot).base, old(boot).bytes@.len(), BOOT_INFO_SIZE as nat)
            ==> final(boot).bytes@ == old(boot).bytes@.take(CPU_ONLINE_OFFSET as int)
            + u32_le_bytes(
            incremented(
                u32_le(
                    old(boot).bytes@.subrange(CPU_ONLINE_OFFSET as int, CPU_ONLINE_OFFSET + 4),
                ),
            ),
        ) + old(boot).bytes@.skip(CPU_ONLINE_OFFSET + 4),
        !stage_ok(*old(core), old(boot).base, old(boot).bytes@.len(), BOOT_INFO_SIZE as nat)
            ==> final(boot).bytes@ == old(boot).bytes@,
        final(core).regs == (CoreRegs {
            pkru: old(core).regs.pkru & !unsafe_permission_bits(),
            ..old(core).regs
        }),
        final(core).storage@.len() == old(core).storage@.len(),
        forall|j: int| 0 <= j < final(core).storage@.len() ==> final(core).storage@[j] == 0u8,
        final(core).whitelist@ == old(core).whitelist@,
        final(core).ospke == old(core).ospke,
        final(core).isolated_stack_top == old(core).isolated_stack_top,
        final(core).storage_base == old(core).storage_base,
        final(core).percore.base == old(core).percore.base,
        final(core).percore.bytes@ == old(core).percore.bytes@,
        final(core).percore_tag == old(core).percore_tag,
{
    let ok = copy_from_safe(core, boot, BOOT_INFO_SIZE);
    let ghost after_in = core.storage@;
    isolation_start(core);
    let online = read_u32_le(&core.storage, CPU_ONLINE_OFFSET);
    let bumped: u32 = if online == u32::MAX {
        0
    } else {
        online + 1
    };
    write_u32_le(&mut core.storage, CPU_ONLINE_OFFSET, bumped);
    let ghost written = core.storage@;
    isolation_end(core);
    copy_to_safe(core, boot, BOOT_INFO_SIZE);
    proof {
        if ok {
            assert(after_in.subrange(CPU_ONLINE_OFFSET as int, CPU_ONLINE_OFFSET + 4)
                =~= old(boot).bytes@.subrange(CPU_ONLINE_OFFSET as int, CPU_ONLINE_OFFSET + 4));
            let want = old(boot).bytes@.take(CPU_ONLINE_OFFSET as int) + u32_le_bytes(bumped) + old(
                boot,
            ).bytes@.skip(CPU_ONLINE_OFFSET + 4);
            assert forall|j: int| 0 <= j < BOOT_INFO_SIZE implies boot.bytes@[j] == want[j] by {
                assert(boot.bytes@[j] == staged_in_storage(
                    old(boot).bytes@,
                    written,
                    BOOT_INFO_SIZE as int,
                )[j]);
                assert(boot.bytes@[j] == written[j]);
                if CPU_ONLINE_OFFSET <= j < CPU_ONLINE_OFFSET + 4 {
                    assert(written.subrange(CPU_ONLINE_OFFSET as int, CPU_ONLINE_OFFSET + 4)[j
                        - CPU_ONLINE_OFFSET] == written[j]);
                } else {
                    assert(written[j] == after_in[j]);
                    assert(after_in[j] == old(boot).bytes@[j]);
                }
            }
            assert(boot.bytes@ =~= want);
        }
    }
    clear_unsafe_storage(core);
    proof {
        let p = old(core).regs.pkru;
        let b = unsafe_permission_bits();
        assert((p | b) & !b == p & !b) by (bit_vector);
    }
}

/// What the loader lays down, the mediated accessors give back: every
/// field decoded from the descriptor's byte image is the field that was
/// encoded.
#[verifier::rlimit(100)]
pub proof fn lemma_boot_layout(b: BootInfo)
    ensures
        b.bytes_spec().len() == BOOT_INFO_SIZE,
        u64_le(b.bytes_spec().subrange(BASE_OFFSET as int, BASE_OFFSET + 8)) == b.base,
        u64_le(b.bytes_spec().subrange(LIMIT_OFFSET as int, LIMIT_OFFSET + 8)) == b.limit,
        u64_le(b.bytes_spec().subrange(IMAGE_SIZE_OFFSET as int, IMAGE_SIZE_OFFSET + 8))
            == b.image_size,
        u64_le(b.bytes_spec().subrange(TLS_START_OFFSET as int, TLS_START_OFFSET + 8))
            == b.tls_start,
        u64_le(b.bytes_spec().subrange(TLS_FILESZ_OFFSET as int, TLS_FILESZ_OFFSET + 8))
            == b.tls_filesz,
        u64_le(b.bytes_spec().subrange(TLS_MEMSZ_OFFSET as int, TLS_MEMSZ_OFFSET + 8))
            == b.tls_memsz,
        u64_le(
            b.bytes_spec().subrange(
                CURRENT_PERCORE_ADDRESS_OFFSET as int,
                CURRENT_PERCORE_ADDRESS_OFFSET + 8,
            ),
        ) == b.current_percore_address,
        u64_le(b.bytes_spec().subrange(MB_INFO_OFFSET as int, MB_INFO_OFFSET + 8)) == b.mb_info,
        u64_le(b.bytes_spec().subrange(CMDLINE_OFFSET as int, CMDLINE_OFFSET + 8)) == b.cmdline,
        u64_le(b.bytes_spec().subrange(CMDSIZE_OFFSET as int, CMDSIZE_OFFSET + 8)) == b.cmdsize,
        u32_le(b.bytes_spec().subrange(CPU_ONLINE_OFFSET as int, CPU_ONLINE_OFFSET + 4))
            == b.cpu_online,
        u16_le(b.bytes_spec().subrange(UARTPORT_OFFSET as int, UARTPORT_OFFSET + 2)) == b.uartport,
        b.bytes_spec()[SINGLE_KERNEL_OFFSET as int] == b.single_kernel,
        b.bytes_spec()[UHYVE_OFFSET as int] == b.uhyve,
        b.bytes_spec().subrange(HCIP_OFFSET as int, HCIP_OFFSET + 4) == b.hcip@,
        b.bytes_spec().subrange(HCGATEWAY_OFFSET as int, HCGATEWAY_OFFSET + 4) == b.hcgateway@,
{
    let s = b.bytes_spec();
    assert(s.subrange(BASE_OFFSET as int, BASE_OFFSET + 8) =~= u64_le_bytes(b.base));
    assert(s.subrange(LIMIT_OFFSET as int, LIMIT_OFFSET + 8) =~= u64_le_bytes(b.limit));
    assert(s.subrange(IMAGE_SIZE_OFFSET as int, IMAGE_SIZE_OFFSET + 8) =~= u64_le_bytes(
        b.image_size,
    ));
    assert(s.subrange(TLS_START_OFFSET as int, TLS_START_OFFSET + 8) =~= u64_le_bytes(b.tls_start));
    assert(s.subrange(TLS_FILESZ_OFFSET as int, TLS_FILESZ_OFFSET + 8) =~= u64_le_bytes(
        b.tls_filesz,
    ));
    assert(s.subrange(TLS_MEMSZ_OFFSET as int, TLS_MEMSZ_OFFSET + 8) =~= u64_le_bytes(b.tls_memsz));
    assert(s.subrange(
        CURRENT_PERCORE_ADDRESS_OFFSET as int,
        CURRENT_PERCORE_ADDRESS_OFFSET + 8,
    ) =~= u64_le_bytes(b.current_percore_address));
    assert(s.subrange(MB_INFO_OFFSET as int, MB_INFO_OFFSET + 8) =~= u64_le_bytes(b.mb_info));
    assert(s.subrange(CMDLINE_OFFSET as int, CMDLINE_OFFSET + 8) =~= u64_le_bytes(b.cmdline));
    assert(s.subrange(CMDSIZE_OFFSET as int, CMDSIZE_OFFSET + 8) =~= u64_le_bytes(b.cmdsize));
    assert(s.subrange(CPU_ONLINE_OFFSET as int, CPU_ONLINE_OFFSET + 4) =~= u32_le_bytes(
        b.cpu_online,
    ));
    assert(s.subrange(UARTPORT_OFFSET as int, UARTPORT_OFFSET + 2) =~= u16_le_bytes(b.uartport));
    assert(s.subrange(HCIP_OFFSET as int, HCIP_OFFSET + 4) =~= b.hcip@);
    assert(s.subrange(HCGATEWAY_OFFSET as int, HCGATEWAY_OFFSET + 4) =~= b.hcgateway@);
    crate::bytes::lemma_u64_le_round_trip(b.base);
    crate::bytes::lemma_u64_le_round_trip(b.limit);
    crate::bytes::lemma_u64_le_round_trip(b.image_size);
    crate::bytes::lemma_u64_le_round_trip(b.tls_start);
    crate::bytes::lemma_u64_le_round_trip(b.tls_filesz);
    crate::bytes::lemma_u64_le_round_trip(b.tls_memsz);
    crate::bytes::lemma_u64_le_round_trip(b.current_percore_address);
    crate::bytes::lemma_u64_le_round_trip(b.mb_info);
    crate::bytes::lemma_u64_le_round_trip(b.cmdline);
    crate::bytes::lemma_u64_le_round_trip(b.cmdsize);
    crate::bytes::lemma_u32_le_round_trip(b.cpu_online);
    crate::bytes::lemma_u16_le_round_trip(b.uartport);
}

} // verus!
