use mpk_isolation::bounce::{list_add, unsafe_storage_init};
use mpk_isolation::interfaces::{Generic, SyscallInterface};
use mpk_isolation::core_state::{CoreContext, CoreRegs, MemoryRegion};
use mpk_isolation::keys::MpkPerm;
use mpk_isolation::random::{
    generate_park_miller_lehmer_random_number, random_init, sys_rand, RandomState,
};
use mpk_isolation::spinlock::{
    sys_spinlock_lock, sys_spinlock_unlock, __sys_spinlock_destroy, __sys_spinlock_init,
    __sys_spinlock_irqsave_destroy, __sys_spinlock_irqsave_init, __sys_spinlock_irqsave_lock,
    __sys_spinlock_irqsave_unlock, __sys_spinlock_lock, __sys_spinlock_unlock,
};
use mpk_isolation::syscall::{
    sys_get_processor_count, sys_mpk_clear_pkru, sys_mpk_get_pkru, sys_mpk_mem_set_key,
    sys_mpk_set_perm, sys_mpk_set_pkru, sys_mpk_swap_pkru, sys_wait, __sys_wait,
};
use mpk_isolation::tagger::PageTags;
use mpk_isolation::wrappers::USER_PKRU;

fn syscall_core() -> CoreContext {
    CoreContext {
        ospke: true,
        regs: CoreRegs {
            pkru: 0,
            stack_pointer: 0x7000_0000,
            frame_pointer: 0x7000_0040,
            kernel_stack_pointer: 0x6000_0000,
            user_stack_pointer: 0x5000_0000,
        },
        isolated_stack_top: 0x8000_0000,
        storage_base: 0,
        storage: Vec::new(),
        whitelist: Vec::new(),
        percore: MemoryRegion { base: 0x9000, bytes: vec![0u8; 24] },
        percore_tag: 1,
    }
}

#[test]
fn wait_returns_zero_and_leaves_user_permission() {
    let mut core = syscall_core();
    assert_eq!(__sys_wait(0x1000), 0);
    assert_eq!(sys_wait(&mut core, 0x1000), 0);
    assert_eq!(core.regs.pkru, USER_PKRU);
    assert_eq!(core.regs.stack_pointer, 0x7000_0000);
}

#[test]
fn processor_count_syscall_reads_the_descriptor() {
    let mut core = syscall_core();
    unsafe_storage_init(&mut core, 0x4000);
    let mut info = mpk_isolation::bootinfo::BootInfo {
        magic_number: 0,
        version: 0,
        base: 0,
        limit: 0,
        image_size: 0,
        tls_start: 0,
        tls_filesz: 0,
        tls_memsz: 0,
        current_stack_address: 0,
        current_percore_address: 0,
        host_logical_addr: 0,
        boot_gtod: 0,
        mb_info: 0,
        cmdline: 0,
        cmdsize: 0,
        cpu_freq: 0,
        boot_processor: 0,
        cpu_online: 3,
        possible_cpus: 4,
        current_boot_id: 0,
        uartport: 0,
        single_kernel: 1,
        uhyve: 0,
        hcip: [0, 0, 0, 0],
        hcgateway: [0, 0, 0, 0],
        hcmask: [0, 0, 0, 0],
    };
    info.cpu_online = 3;
    let boot = info.to_region(0x10_0000);
    list_add(&mut core, 0x10_0000);
    assert_eq!(sys_get_processor_count(&mut core, &boot), 3);
}

#[test]
fn mpk_syscalls_forward_to_the_register_primitives() {
    let mut core = syscall_core();
    assert_eq!(sys_mpk_swap_pkru(&mut core, 0x30), 0);
    assert_eq!(sys_mpk_get_pkru(&core), 0x30);
    assert_eq!(sys_mpk_set_perm(&mut core, 1, MpkPerm::MpkNone), 0);
    assert_eq!(sys_mpk_get_pkru(&core), 0x3C);
    sys_mpk_clear_pkru(&mut core);
    assert_eq!(sys_mpk_get_pkru(&core), 0);
    sys_mpk_set_pkru(&mut core, 0x5);
    assert_eq!(sys_mpk_get_pkru(&core), 0x5);
}

#[test]
fn mem_set_key_syscall_tags_pages() {
    let core = syscall_core();
    let mut tags = PageTags::new();
    tags.map_page(2, 1);
    assert_eq!(sys_mpk_mem_set_key(&core, &mut tags, 0x2000, 0x1000, 3, 4096), 0);
    assert_eq!(tags.tag_of(2), Some(3));
}

#[test]
fn park_miller_lehmer_produces_the_known_sequence() {
    let mut state = RandomState { seed: 42 };
    assert_eq!(generate_park_miller_lehmer_random_number(&mut state), 2027382);
    assert_eq!(state.seed, 2027382);
    assert_eq!(
        generate_park_miller_lehmer_random_number(&mut state),
        (2027382u64 * 48271 % 2147483647) as u32
    );
}

#[test]
fn random_init_keeps_the_low_timestamp_half() {
    let mut state = RandomState { seed: 0 };
    random_init(&mut state, 0x1234_5678_9ABC_DEF0);
    assert_eq!(state.seed, 0x9ABC_DEF0);
}

#[test]
fn rand_syscall_prefers_the_hardware_number() {
    let mut core = syscall_core();
    let mut state = RandomState { seed: 42 };
    assert_eq!(sys_rand(&mut core, &mut state, Some(777)), 777);
    assert_eq!(state.seed, 42);
    assert_eq!(sys_rand(&mut core, &mut state, None), 2027382);
    assert_eq!(state.seed, 2027382);
    assert_eq!(core.regs.pkru, USER_PKRU);
}

#[test]
fn spinlock_lifecycle_follows_the_guard() {
    let mut lock = __sys_spinlock_init();
    assert!(!lock.locked);
    assert_eq!(__sys_spinlock_lock(&mut lock), 0);
    assert!(lock.locked);
    assert_eq!(__sys_spinlock_unlock(&mut lock), 0);
    assert!(!lock.locked);
    assert_eq!(__sys_spinlock_destroy(lock), 0);
}

#[test]
fn irqsave_spinlock_lifecycle_follows_the_guard() {
    let mut lock = __sys_spinlock_irqsave_init();
    assert_eq!(__sys_spinlock_irqsave_lock(&mut lock), 0);
    assert!(lock.locked);
    assert_eq!(__sys_spinlock_irqsave_unlock(&mut lock), 0);
    assert!(!lock.locked);
    assert_eq!(__sys_spinlock_irqsave_destroy(lock), 0);
}

#[test]
fn spinlock_syscalls_run_inside_the_kernel_bracket() {
    let mut core = syscall_core();
    let mut lock = __sys_spinlock_init();
    assert_eq!(sys_spinlock_lock(&mut core, &mut lock), 0);
    assert!(lock.locked);
    assert_eq!(sys_spinlock_unlock(&mut core, &mut lock), 0);
    assert!(!lock.locked);
    assert_eq!(core.regs.pkru, USER_PKRU);
}

#[test]
fn generic_interface_defaults_fail_safe() {
    let iface = Generic;
    iface.init();
    assert_eq!(iface.unlink(0x1000), -38);
    assert_eq!(iface.open(0x1000, 0, 0), -38);
    assert_eq!(iface.close(0), 0);
    assert_eq!(iface.close(2), 0);
    assert_eq!(iface.close(3), -22);
    assert_eq!(iface.read(5, 0x1000, 16), -38);
    assert_eq!(iface.lseek(5, 0, 0), -38);
    assert_eq!(iface.stat(0x1000, 0x2000), -38);
}
