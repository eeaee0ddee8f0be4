use mpk_isolation::bounce::{
    clear_unsafe_storage, clear_unsafe_storage2, copy_from_safe, copy_to_safe, get_unsafe_storage,
    is_unsafe_storage_init, list_add, unsafe_storage_init,
};
use mpk_isolation::core_state::{CoreContext, CoreRegs, MemoryRegion, STORAGE_SIZE, WHITELIST_CAPACITY};

fn bounce_core() -> CoreContext {
    CoreContext {
        ospke: true,
        regs: CoreRegs {
            pkru: 0,
            stack_pointer: 0x7000_0000,
            frame_pointer: 0x7000_0040,
            kernel_stack_pointer: 0x6000_0000,
            user_stack_pointer: 0x5000_0000,
        },
        isolated_stack_top: 0x8000_0000,
        storage_base: 0,
        storage: Vec::new(),
        whitelist: Vec::new(),
        percore: MemoryRegion { base: 0x9000, bytes: vec![0u8; 24] },
        percore_tag: 1,
    }
}

fn ready_core() -> CoreContext {
    let mut core = bounce_core();
    unsafe_storage_init(&mut core, 0x4000);
    core
}

#[test]
fn storage_init_creates_zeroed_storage_and_whitelists_own_block() {
    let mut core = bounce_core();
    assert!(!is_unsafe_storage_init(&core));
    assert_eq!(get_unsafe_storage(&core), 0);
    unsafe_storage_init(&mut core, 0x4000);
    assert!(is_unsafe_storage_init(&core));
    assert_eq!(get_unsafe_storage(&core), 0x4000);
    assert_eq!(core.storage.len(), STORAGE_SIZE);
    assert!(core.storage.iter().all(|b| *b == 0));
    assert_eq!(core.whitelist, vec![0x9000]);
}

#[test]
fn stage_in_copies_the_source_bytes() {
    // A whitelisted address with a fitting count: the buffer's prefix
    // afterwards is exactly the bytes at the address.
    let mut core = ready_core();
    let region = MemoryRegion { base: 0x1000, bytes: vec![7, 8, 9, 10] };
    list_add(&mut core, 0x1000);
    assert!(copy_from_safe(&mut core, &region, 4));
    assert_eq!(&core.storage[0..4], &[7, 8, 9, 10]);
    assert!(core.storage[4..].iter().all(|b| *b == 0));
}

#[test]
fn stage_out_copies_the_buffer_prefix_to_the_target() {
    let mut core = ready_core();
    core.storage[0] = 0xAA;
    core.storage[1] = 0xBB;
    let mut target = MemoryRegion { base: 0x2000, bytes: vec![1, 2, 3] };
    list_add(&mut core, 0x2000);
    assert!(copy_to_safe(&core, &mut target, 2));
    assert_eq!(target.bytes, vec![0xAA, 0xBB, 3]);
}

#[test]
fn clear_zeroes_the_whole_storage() {
    let mut core = ready_core();
    core.storage[0] = 0xFF;
    core.storage[100] = 0xFF;
    clear_unsafe_storage(&mut core);
    assert!(core.storage.iter().all(|b| *b == 0));
}

#[test]
fn partial_clear_zeroes_only_the_prefix() {
    let mut core = ready_core();
    core.storage[0] = 0xFF;
    core.storage[5] = 0xEE;
    clear_unsafe_storage2(&mut core, 3);
    assert_eq!(core.storage[0], 0);
    assert_eq!(core.storage[5], 0xEE);
}

#[test]
fn unlisted_address_leaves_buffer_and_memory_unchanged() {
    // An address missing from the whitelist: neither direction copies.
    let mut core = ready_core();
    let region = MemoryRegion { base: 0x3000, bytes: vec![1, 2, 3, 4] };
    let before = core.storage.clone();
    assert!(!copy_from_safe(&mut core, &region, 4));
    assert_eq!(core.storage, before);
    let mut target = MemoryRegion { base: 0x3000, bytes: vec![1, 2, 3, 4] };
    assert!(!copy_to_safe(&core, &mut target, 4));
    assert_eq!(target.bytes, vec![1, 2, 3, 4]);
}

#[test]
fn null_address_is_rejected() {
    let mut core = ready_core();
    list_add(&mut core, 0);
    let region = MemoryRegion { base: 0, bytes: vec![1, 2] };
    let before = core.storage.clone();
    assert!(!copy_from_safe(&mut core, &region, 2));
    assert_eq!(core.storage, before);
}

#[test]
fn oversized_count_is_rejected_even_when_whitelisted() {
    let mut core = ready_core();
    list_add(&mut core, 0x1000);
    let region = MemoryRegion { base: 0x1000, bytes: vec![0xAB; STORAGE_SIZE + 1] };
    let before = core.storage.clone();
    assert!(!copy_from_safe(&mut core, &region, STORAGE_SIZE + 1));
    assert_eq!(core.storage, before);
    let mut target = MemoryRegion { base: 0x1000, bytes: vec![0xAB; STORAGE_SIZE + 1] };
    assert!(!copy_to_safe(&core, &mut target, STORAGE_SIZE + 1));
    assert_eq!(target.bytes, vec![0xAB; STORAGE_SIZE + 1]);
}

#[test]
fn boot_descriptor_page_is_approved_and_neighbour_page_is_not() {
    // Whitelist initially contains only the boot descriptor address; the
    // descriptor stages in, an unrelated page one page later does not and
    // the buffer stays unchanged.
    let mut core = ready_core();
    let boot_addr: u64 = 0x10_0000;
    list_add(&mut core, boot_addr);
    let descriptor = MemoryRegion { base: boot_addr, bytes: vec![0x42] };
    assert!(copy_from_safe(&mut core, &descriptor, 1));
    assert_eq!(core.storage[0], 0x42);
    let stranger = MemoryRegion { base: boot_addr + 4096, bytes: vec![0x99] };
    let before = core.storage.clone();
    assert!(!copy_from_safe(&mut core, &stranger, 1));
    assert_eq!(core.storage, before);
}

#[test]
fn whitelist_insert_is_idempotent() {
    let mut core = ready_core();
    assert!(list_add(&mut core, 0x1234));
    let once = core.whitelist.clone();
    assert!(list_add(&mut core, 0x1234));
    assert_eq!(core.whitelist, once);
}

#[test]
fn full_whitelist_rejects_new_addresses() {
    let mut core = ready_core();
    let mut next: u64 = 0x1_0000;
    while core.whitelist.len() < WHITELIST_CAPACITY {
        assert!(list_add(&mut core, next));
        next += 8;
    }
    assert!(!list_add(&mut core, 0xDEAD_0000));
    assert_eq!(core.whitelist.len(), WHITELIST_CAPACITY);
    // An address already present is still reported as whitelisted.
    assert!(list_add(&mut core, 0x1_0000));
}

#[test]
fn two_cores_stage_independently() {
    // Each core owns its buffer and whitelist: staging on one never shows
    // up in the other.
    let mut first = ready_core();
    let mut second = ready_core();
    let descriptor_a = MemoryRegion { base: 0x10_0000, bytes: vec![0x11, 0x11] };
    let descriptor_b = MemoryRegion { base: 0x20_0000, bytes: vec![0x22, 0x22] };
    list_add(&mut first, 0x10_0000);
    list_add(&mut second, 0x20_0000);
    assert!(copy_from_safe(&mut first, &descriptor_a, 2));
    assert!(copy_from_safe(&mut second, &descriptor_b, 2));
    assert_eq!(&first.storage[0..2], &[0x11, 0x11]);
    assert_eq!(&second.storage[0..2], &[0x22, 0x22]);
    assert!(first.whitelist.contains(&0x10_0000));
    assert!(!first.whitelist.contains(&0x20_0000));
    assert!(second.whitelist.contains(&0x20_0000));
    assert!(!second.whitelist.contains(&0x10_0000));
}
