use mpk_isolation::core_state::{CoreContext, CoreRegs, MemoryRegion};
use mpk_isolation::gate::{enter, exit};
use mpk_isolation::keys::{pkru_set_no_access, pkru_set_ro, pkru_set_rw, unsafe_permission_mask};

fn gate_core(pkru: u32) -> CoreContext {
    CoreContext {
        ospke: true,
        regs: CoreRegs {
            pkru,
            stack_pointer: 0x7000_0000,
            frame_pointer: 0x7000_0040,
            kernel_stack_pointer: 0x6000_0000,
            user_stack_pointer: 0x5000_0000,
        },
        isolated_stack_top: 0x8000_0000,
        storage_base: 0,
        storage: Vec::new(),
        whitelist: Vec::new(),
        percore: MemoryRegion { base: 0x9000, bytes: vec![0u8; 24] },
        percore_tag: 1,
    }
}

#[test]
fn enter_then_exit_restores_zero_register() {
    // Core permission register starts at 0x0; enter(0xC) reads 0xC and
    // exit(0xC) reads 0x0 again.
    let mut core = gate_core(0x0);
    enter(&mut core, 0xC);
    assert_eq!(core.regs.pkru, 0xC);
    exit(&mut core, 0xC);
    assert_eq!(core.regs.pkru, 0x0);
}

#[test]
fn enter_exit_restores_disjoint_prior_value() {
    let mut core = gate_core(0x30);
    enter(&mut core, 0xC);
    assert_eq!(core.regs.pkru, 0x3C);
    exit(&mut core, 0xC);
    assert_eq!(core.regs.pkru, 0x30);
}

#[test]
fn exit_clears_bits_that_overlapped_the_prior_value() {
    // With overlapping prior bits the pair does not restore: the pair
    // clears them, as the contracts state.
    let mut core = gate_core(0x4);
    enter(&mut core, 0xC);
    exit(&mut core, 0xC);
    assert_eq!(core.regs.pkru, 0x0);
}

#[test]
fn unsafe_mask_is_the_protected_key_bits() {
    assert_eq!(unsafe_permission_mask(), 0xC);
}

#[test]
fn pkru_set_ro_sets_only_the_write_disable_bit() {
    let mut val: u32 = 0;
    assert_eq!(pkru_set_ro(1, &mut val), 0);
    assert_eq!(val, 0x8);
}

#[test]
fn pkru_set_rw_clears_both_bits() {
    let mut val: u32 = 0xC;
    assert_eq!(pkru_set_rw(1, &mut val), 0);
    assert_eq!(val, 0x0);
}

#[test]
fn pkru_set_no_access_sets_both_bits() {
    let mut val: u32 = 0;
    assert_eq!(pkru_set_no_access(2, &mut val), 0);
    assert_eq!(val, 0x30);
}

#[test]
fn pkru_helpers_reject_a_key_above_fifteen() {
    let mut val: u32 = 0x55;
    assert_eq!(pkru_set_ro(16, &mut val), -22);
    assert_eq!(pkru_set_rw(16, &mut val), -22);
    assert_eq!(pkru_set_no_access(16, &mut val), -22);
    assert_eq!(val, 0x55);
}
