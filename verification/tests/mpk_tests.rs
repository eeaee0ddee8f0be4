use mpk_isolation::core_state::{CoreContext, CoreRegs, MemoryRegion};
use mpk_isolation::keys::MpkPerm;
use mpk_isolation::mpk::{
    mpk_clear_pkru, mpk_get_pkru, mpk_mem_set_key, mpk_set_perm, mpk_set_pkru, mpk_swap_pkru,
};
use mpk_isolation::tagger::{tag_range, PageTags};

fn mpk_core(ospke: bool, pkru: u32) -> CoreContext {
    CoreContext {
        ospke,
        regs: CoreRegs {
            pkru,
            stack_pointer: 0x7000_0000,
            frame_pointer: 0x7000_0040,
            kernel_stack_pointer: 0x6000_0000,
            user_stack_pointer: 0x5000_0000,
        },
        isolated_stack_top: 0x8000_0000,
        storage_base: 0,
        storage: Vec::new(),
        whitelist: Vec::new(),
        percore: MemoryRegion { base: 0x9000, bytes: vec![0u8; 24] },
        percore_tag: 1,
    }
}

#[test]
fn swap_returns_old_value_and_installs_new_one() {
    let mut core = mpk_core(true, 0x12);
    assert_eq!(mpk_swap_pkru(&mut core, 0x34), 0x12);
    assert_eq!(core.regs.pkru, 0x34);
}

#[test]
fn swap_degrades_to_noop_without_the_feature() {
    let mut core = mpk_core(false, 0x12);
    assert_eq!(mpk_swap_pkru(&mut core, 0x34), 0);
    assert_eq!(core.regs.pkru, 0x12);
}

#[test]
fn set_perm_read_only_flips_the_write_bit() {
    let mut core = mpk_core(true, 0x0);
    assert_eq!(mpk_set_perm(&mut core, 1, MpkPerm::MpkRo), 0);
    assert_eq!(core.regs.pkru, 0x8);
    assert_eq!(mpk_set_perm(&mut core, 1, MpkPerm::MpkNone), 0);
    assert_eq!(core.regs.pkru, 0xC);
    assert_eq!(mpk_set_perm(&mut core, 1, MpkPerm::MpkRw), 0);
    assert_eq!(core.regs.pkru, 0x0);
}

#[test]
fn set_perm_reports_enosys_without_the_feature() {
    let mut core = mpk_core(false, 0x0);
    assert_eq!(mpk_set_perm(&mut core, 1, MpkPerm::MpkRo), -38);
    assert_eq!(core.regs.pkru, 0x0);
}

#[test]
fn set_perm_with_oversized_key_writes_register_back_unchanged() {
    let mut core = mpk_core(true, 0x5);
    assert_eq!(mpk_set_perm(&mut core, 16, MpkPerm::MpkNone), 0);
    assert_eq!(core.regs.pkru, 0x5);
}

#[test]
fn clear_get_set_follow_the_feature_flag() {
    let mut core = mpk_core(true, 0x77);
    assert_eq!(mpk_get_pkru(&core), 0x77);
    mpk_clear_pkru(&mut core);
    assert_eq!(core.regs.pkru, 0);
    mpk_set_pkru(&mut core, 0xFC);
    assert_eq!(core.regs.pkru, 0xFC);

    let mut bare = mpk_core(false, 0x77);
    assert_eq!(mpk_get_pkru(&bare), 0);
    mpk_clear_pkru(&mut bare);
    assert_eq!(bare.regs.pkru, 0x77);
    mpk_set_pkru(&mut bare, 0xFC);
    assert_eq!(bare.regs.pkru, 0x77);
}

#[test]
fn mem_set_key_floors_the_address_and_rounds_the_size_up() {
    // 0x1234 with 0x2000 bytes on 4 KiB pages: pages 1 and 2.
    let core = mpk_core(true, 0);
    let mut tags = PageTags::new();
    for page in 0..4u64 {
        tags.map_page(page, 1);
    }
    assert_eq!(mpk_mem_set_key(&core, &mut tags, 0x1234, 0x2000, 3, 4096), 0);
    assert_eq!(tags.tag_of(0), Some(1));
    assert_eq!(tags.tag_of(1), Some(3));
    assert_eq!(tags.tag_of(2), Some(3));
    assert_eq!(tags.tag_of(3), Some(1));
}

#[test]
fn mem_set_key_rejects_bad_key_and_missing_feature() {
    let mut tags = PageTags::new();
    tags.map_page(0, 1);
    let bare = mpk_core(false, 0);
    assert_eq!(mpk_mem_set_key(&bare, &mut tags, 0, 4096, 3, 4096), -38);
    let core = mpk_core(true, 0);
    assert_eq!(mpk_mem_set_key(&core, &mut tags, 0, 4096, 16, 4096), -22);
    assert_eq!(tags.tag_of(0), Some(1));
}

#[test]
fn mem_set_key_propagates_an_unmapped_page() {
    let core = mpk_core(true, 0);
    let mut tags = PageTags::new();
    tags.map_page(0, 1);
    // Page 1 is unmapped, so the two-page request fails and nothing moves.
    assert_eq!(mpk_mem_set_key(&core, &mut tags, 0, 8192, 3, 4096), -22);
    assert_eq!(tags.tag_of(0), Some(1));
}

#[test]
fn tag_range_retags_exactly_the_requested_pages() {
    let mut tags = PageTags::new();
    for page in 10..15u64 {
        tags.map_page(page, 2);
    }
    assert_eq!(tag_range(&mut tags, 11, 2, 3), 0);
    assert_eq!(tags.tag_of(10), Some(2));
    assert_eq!(tags.tag_of(11), Some(3));
    assert_eq!(tags.tag_of(12), Some(3));
    assert_eq!(tags.tag_of(13), Some(2));
    assert_eq!(tags.tag_of(15), None);
}

#[test]
fn zero_sized_request_tags_nothing_and_succeeds() {
    let core = mpk_core(true, 0);
    let mut tags = PageTags::new();
    tags.map_page(0, 1);
    assert_eq!(mpk_mem_set_key(&core, &mut tags, 0x5000, 0, 3, 4096), 0);
    assert_eq!(tags.tag_of(0), Some(1));
}
