use mpk_isolation::bootinfo::{
    finish_processor_init, get_base_address, get_cmdline, get_cmdsize, get_current_percore_address,
    get_gateway, get_image_size, get_ip, get_limit, get_mbinfo, get_processor_count, get_tls_filesz,
    get_tls_memsz, get_tls_start, has_ipdevice, is_single_kernel, is_uhyve, BootInfo,
    BOOT_INFO_SIZE,
};
use mpk_isolation::bounce::{list_add, unsafe_storage_init};
use mpk_isolation::core_state::{CoreContext, CoreRegs, MemoryRegion};

fn boot_core() -> CoreContext {
    let mut core = CoreContext {
        ospke: true,
        regs: CoreRegs {
            pkru: 0,
            stack_pointer: 0x7000_0000,
            frame_pointer: 0x7000_0040,
            kernel_stack_pointer: 0x6000_0000,
            user_stack_pointer: 0x5000_0000,
        },
        isolated_stack_top: 0x8000_0000,
        storage_base: 0,
        storage: Vec::new(),
        whitelist: Vec::new(),
        percore: MemoryRegion { base: 0x9000, bytes: vec![0u8; 24] },
        percore_tag: 1,
    };
    unsafe_storage_init(&mut core, 0x4000);
    core
}

fn sample_boot_info() -> BootInfo {
    BootInfo {
        magic_number: 0xC0DE_CAFE,
        version: 1,
        base: 0x20_0000,
        limit: 0x4000_0000,
        image_size: 0x80_0000,
        tls_start: 0x30_0000,
        tls_filesz: 0x100,
        tls_memsz: 0x200,
        current_stack_address: 0x40_0000,
        current_percore_address: 0xA000,
        host_logical_addr: 0x1,
        boot_gtod: 0x2,
        mb_info: 0x50_0000,
        cmdline: 0x60_0000,
        cmdsize: 32,
        cpu_freq: 2400,
        boot_processor: 0,
        cpu_online: 1,
        possible_cpus: 4,
        current_boot_id: 0,
        uartport: 0x3F8,
        single_kernel: 1,
        uhyve: 0,
        hcip: [10, 0, 0, 2],
        hcgateway: [10, 0, 0, 1],
        hcmask: [255, 255, 255, 0],
    }
}

#[test]
fn descriptor_layout_has_the_fixed_size() {
    let region = sample_boot_info().to_region(0x10_0000);
    assert_eq!(region.bytes.len(), BOOT_INFO_SIZE);
    assert_eq!(region.base, 0x10_0000);
}

#[test]
fn staged_reads_return_every_field() {
    let mut core = boot_core();
    let boot = sample_boot_info().to_region(0x10_0000);
    list_add(&mut core, 0x10_0000);
    assert_eq!(get_base_address(&mut core, &boot), 0x20_0000);
    assert_eq!(get_limit(&mut core, &boot), 0x4000_0000);
    assert_eq!(get_image_size(&mut core, &boot), 0x80_0000);
    assert_eq!(get_tls_start(&mut core, &boot), 0x30_0000);
    assert_eq!(get_tls_filesz(&mut core, &boot), 0x100);
    assert_eq!(get_tls_memsz(&mut core, &boot), 0x200);
    assert_eq!(get_mbinfo(&mut core, &boot), 0x50_0000);
    assert_eq!(get_cmdline(&mut core, &boot), 0x60_0000);
    assert_eq!(get_cmdsize(&mut core, &boot), 32);
    assert_eq!(get_processor_count(&mut core, &boot), 1);
    assert_eq!(get_current_percore_address(&mut core, &boot), 0xA000);
    assert!(is_single_kernel(&mut core, &boot));
    assert!(!is_uhyve(&mut core, &boot));
    assert_eq!(get_ip(&mut core, &boot), [10, 0, 0, 2]);
    assert_eq!(get_gateway(&mut core, &boot), [10, 0, 0, 1]);
    // Every staged read leaves the scratch storage cleared.
    assert!(core.storage.iter().all(|b| *b == 0));
}

#[test]
fn direct_reads_work_before_the_storage_exists() {
    let mut core = boot_core();
    core.storage_base = 0;
    core.storage = Vec::new();
    let boot = sample_boot_info().to_region(0x10_0000);
    assert_eq!(get_base_address(&mut core, &boot), 0x20_0000);
    assert_eq!(get_processor_count(&mut core, &boot), 1);
    assert!(is_single_kernel(&mut core, &boot));
}

#[test]
fn unlisted_descriptor_reads_the_cleared_storage() {
    // The descriptor address was never whitelisted: the staged read is a
    // no-op and decodes the cleared storage, which is all zeroes.
    let mut core = boot_core();
    let boot = sample_boot_info().to_region(0x10_0000);
    assert_eq!(get_base_address(&mut core, &boot), 0);
    assert_eq!(get_processor_count(&mut core, &boot), 0);
}

#[test]
fn ipdevice_detection_follows_the_ip_field() {
    let mut core = boot_core();
    list_add(&mut core, 0x10_0000);
    let with_device = sample_boot_info().to_region(0x10_0000);
    assert!(has_ipdevice(&mut core, &with_device));
    let mut info = sample_boot_info();
    info.hcip = [255, 255, 255, 255];
    let without_device = info.to_region(0x10_0000);
    assert!(!has_ipdevice(&mut core, &without_device));
}

#[test]
fn finish_processor_init_bumps_the_online_count() {
    let mut core = boot_core();
    let mut boot = sample_boot_info().to_region(0x10_0000);
    list_add(&mut core, 0x10_0000);
    finish_processor_init(&mut core, &mut boot);
    assert_eq!(get_processor_count(&mut core, &boot), 2);
    finish_processor_init(&mut core, &mut boot);
    assert_eq!(get_processor_count(&mut core, &boot), 3);
    // Only the counter moved.
    assert_eq!(get_base_address(&mut core, &boot), 0x20_0000);
    assert!(core.storage.iter().all(|b| *b == 0));
}

#[test]
fn finish_processor_init_fails_closed_when_unlisted() {
    let mut core = boot_core();
    let pristine = sample_boot_info().to_region(0x10_0000);
    let mut boot = sample_boot_info().to_region(0x10_0000);
    finish_processor_init(&mut core, &mut boot);
    assert_eq!(boot.bytes, pristine.bytes);
}
