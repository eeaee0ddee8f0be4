use mpk_isolation::core_state::{CoreContext, CoreRegs, MemoryRegion};
use mpk_isolation::kmsg::{kmsg_write_byte, KernelMessageBuffer, KMSG_SIZE};
use mpk_isolation::tagger::PageTags;
use mpk_isolation::wrappers::{
    isolate_function_strong, isolate_function_weak, isolation_end, isolation_start,
    isolation_strong_enter, isolation_strong_exit, kernel_function, USER_PKRU,
};

fn wrapper_core() -> CoreContext {
    CoreContext {
        ospke: true,
        regs: CoreRegs {
            pkru: 0,
            stack_pointer: 0x7000_2000,
            frame_pointer: 0x7000_3100,
            kernel_stack_pointer: 0x6000_0000,
            user_stack_pointer: 0x5000_0000,
        },
        isolated_stack_top: 0x8000_0000,
        storage_base: 0,
        storage: Vec::new(),
        whitelist: Vec::new(),
        percore: MemoryRegion { base: 0x9000, bytes: vec![0u8; 24] },
        percore_tag: 1,
    }
}

#[test]
fn permission_bracket_opens_and_closes_the_unsafe_bits() {
    let mut core = wrapper_core();
    isolation_start(&mut core);
    assert_eq!(core.regs.pkru, 0xC);
    isolation_end(&mut core);
    assert_eq!(core.regs.pkru, 0x0);
}

#[test]
fn strong_wrapper_restores_the_stack_pointer() {
    // The callee runs on the isolated stack; afterwards the stack pointer
    // is exactly the pre-call value and the unsafe bits are closed.
    let mut core = wrapper_core();
    let sp_before = core.regs.stack_pointer;
    let result = isolate_function_strong(&mut core, || 21u64 * 2);
    assert_eq!(result, 42);
    assert_eq!(core.regs.stack_pointer, sp_before);
    assert_eq!(core.regs.pkru, 0);
}

#[test]
fn nested_strong_brackets_unwind_to_the_right_stacks() {
    let mut core = wrapper_core();
    let sp_outer = core.regs.stack_pointer;
    let outer = isolation_strong_enter(&mut core);
    assert_eq!(core.regs.stack_pointer, core.isolated_stack_top);
    let inner = isolation_strong_enter(&mut core);
    isolation_strong_exit(&mut core, inner);
    assert_eq!(core.regs.stack_pointer, core.isolated_stack_top);
    isolation_strong_exit(&mut core, outer);
    assert_eq!(core.regs.stack_pointer, sp_outer);
    assert_eq!(core.regs.pkru, 0);
}

#[test]
fn weak_wrapper_shares_and_reprotects_the_callers_frame() {
    let mut core = wrapper_core();
    let mut tags = PageTags::new();
    // The frame spans pages 0x7000_2000 / 4096 = 0x70002 .. 0x70004.
    for page in 0x70002..0x70004u64 {
        tags.map_page(page, 1);
    }
    let sp_before = core.regs.stack_pointer;
    let result = isolate_function_weak(&mut core, &mut tags, || 7u64);
    assert_eq!(result, 7);
    assert_eq!(core.regs.stack_pointer, sp_before);
    assert_eq!(core.regs.pkru, 0);
    // The frame pages went to the shared key and came back protected.
    assert_eq!(tags.tag_of(0x70002), Some(1));
    assert_eq!(tags.tag_of(0x70003), Some(1));
}

#[test]
fn weak_wrapper_leaves_unmapped_frame_pages_alone() {
    let mut core = wrapper_core();
    let mut tags = PageTags::new();
    tags.map_page(0x70002, 1);
    // Page 0x70003 of the frame is unmapped: the whole retag is refused.
    let result = isolate_function_weak(&mut core, &mut tags, || 1u64);
    assert_eq!(result, 1);
    assert_eq!(tags.tag_of(0x70002), Some(1));
    assert_eq!(tags.tag_of(0x70003), None);
}

#[test]
fn kernel_bracket_switches_stacks_and_drops_to_user_permission() {
    let mut core = wrapper_core();
    let sp_before = core.regs.stack_pointer;
    let result = kernel_function(&mut core, || 5i32);
    assert_eq!(result, 5);
    assert_eq!(core.regs.stack_pointer, sp_before);
    assert_eq!(core.regs.user_stack_pointer, sp_before);
    assert_eq!(core.regs.pkru, USER_PKRU);
}

#[test]
fn message_ring_writes_through_the_strong_bracket() {
    let mut core = wrapper_core();
    let mut kmsg = KernelMessageBuffer::new();
    let sp_before = core.regs.stack_pointer;
    kmsg_write_byte(&mut core, &mut kmsg, b'h');
    kmsg_write_byte(&mut core, &mut kmsg, b'i');
    assert_eq!(kmsg.buffer[0], b'h');
    assert_eq!(kmsg.buffer[1], b'i');
    assert_eq!(kmsg.index, 2);
    assert_eq!(core.regs.stack_pointer, sp_before);
    assert_eq!(core.regs.pkru, 0);
    // The write position wraps at the ring's capacity.
    kmsg.index = KMSG_SIZE as u64;
    kmsg_write_byte(&mut core, &mut kmsg, b'!');
    assert_eq!(kmsg.buffer[0], b'!');
}
