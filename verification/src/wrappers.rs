//! Boundary call wrappers: the brackets placed around calls into code that
//! needs elevated or differently-scoped access.
//!
//! Three protocols, all synchronous brackets on the calling core:
//!
//! * the *permission-only* bracket ([`isolation_start`] / [`isolation_end`])
//!   flips the unsafe permission bits and nothing else;
//! * the *strong* wrapper additionally runs the callee on the task's
//!   dedicated isolated stack, so stack-based corruption inside the callee
//!   cannot touch the caller's frames;
//! * the *weak* wrapper is the strong one plus a re-tag of the caller's
//!   current stack frame to the shared key, so the callee may reach the
//!   caller's locals by address.
//!
//! Every wrapper restores the saved stack pointer unconditionally on the
//! normal return path; a callee that never returns leaves the core open and
//! stranded, which is fatal for that core and out of the layer's hands.

use vstd::prelude::*;
use crate::core_state::{CoreContext, CoreRegs};
use crate::gate::{enter, exit, lemma_enter_exit_restores};
use crate::keys::{PROTECTED_KEY, SHARED_KEY, UNPROTECTED_KEY, key_bits, unsafe_permission_bits, unsafe_permission_mask};
use crate::tagger::{PageTags, range_mapped, range_tagged, tag_range};

verus! {

/// Bytes per base page.
pub const PAGE_SIZE: u64 = 4096;

/// Permission-register value for user-mode execution: every kernel key is
/// fully disabled, only user-tagged pages stay reachable.
pub const USER_PKRU: u32 = 0xFC;

/// `USER_PKRU` is exactly the disable bits of the three kernel keys.
pub proof fn lemma_user_pkru_bits()
    ensures
        USER_PKRU == key_bits(PROTECTED_KEY) | key_bits(UNPROTECTED_KEY) | key_bits(SHARED_KEY),
{
    assert(((1u32 << 2u32) | (1u32 << 3u32)) | ((1u32 << 4u32) | (1u32 << 5u32)) | ((1u32 << 6u32)
        | (1u32 << 7u32)) == 0xFCu32) by (bit_vector);
}

/// Register file after a bracket opened: unsafe bits set, and for the
/// stack-switching wrappers the stack pointer moved to the isolated stack.
pub open spec fn bracket_open_regs(regs: CoreRegs, stack_pointer: u64) -> CoreRegs {
    CoreRegs { pkru: regs.pkru | unsafe_permission_bits(), stack_pointer, ..regs }
}

/// Register file after a bracket closed: unsafe bits removed, and the
/// stack pointer put back to the saved value.
pub open spec fn bracket_close_regs(regs: CoreRegs, stack_pointer: u64) -> CoreRegs {
    CoreRegs { pkru: regs.pkru & !unsafe_permission_bits(), stack_pointer, ..regs }
}

/// Opens the permission-only bracket: the unsafe bits enter the register,
/// no stack change.
pub fn isolation_start(core: &mut CoreContext)
    ensures
        final(core).regs == (CoreRegs {
            pkru: old(core).regs.pkru | unsafe_permission_bits(),
            ..old(core).regs
        }),
        CoreContext::frame_unchanged(*old(core), *final(core)),
        CoreContext::storage_unchanged(*old(core), *final(core)),
{
    let mask = unsafe_permission_mask();
    enter(core, mask);
}

/// Closes the permission-only bracket: the unsafe bits leave the register.
pub fn isolation_end(core: &mut CoreContext)
    ensures
        final(core).regs == (CoreRegs {
            pkru: old(core).regs.pkru & !unsafe_permission_bits(),
            ..old(core).regs
        }),
        CoreContext::frame_unchanged(*old(core), *final(core)),
        CoreContext::storage_unchanged(*old(core), *final(core)),
{
    let mask = unsafe_permission_mask();
    exit(core, mask);
}

/// Witness of an open strong bracket; holds what the closing half must
/// restore.
pub struct StrongGuard {
    /// The caller's stack pointer at the moment the bracket opened.
    pub saved_stack_pointer: u64,
}

/// Opens a strong bracket: saves the stack pointer, switches to the task's
/// isolated stack and sets the unsafe permission bits.
pub fn isolation_strong_enter(core: &mut CoreContext) -> (g: StrongGuard)
    ensures
        g.saved_stack_pointer == old(core).regs.stack_pointer,
        final(core).regs == bracket_open_regs(old(core).regs, old(core).isolated_stack_top),
        CoreContext::frame_unchanged(*old(core), *final(core)),
        CoreContext::storage_unchanged(*old(core), *final(core)),
{
    let saved = core.regs.stack_pointer;
    core.regs.stack_pointer = core.isolated_stack_top;
    let mask = unsafe_permission_mask();
    enter(core, mask);
    StrongGuard { saved_stack_pointer: saved }
}

/// Closes a strong bracket: removes the unsafe permission bits and restores
/// the saved stack pointer, whatever the callee did in between.
pub fn isolation_strong_exit(core: &mut CoreContext, g: StrongGuard)
    ensures
        final(core).regs == bracket_close_regs(old(core).regs, g.saved_stack_pointer),
        CoreContext::frame_unchanged(*old(core), *final(core)),
        CoreContext::storage_unchanged(*old(core), *final(core)),
{
    let mask = unsafe_permission_mask();
    exit(core, mask);
    core.regs.stack_pointer = g.saved_stack_pointer;
}

/// Runs `f` inside a strong bracket: on the isolated stack, with the
/// unsafe permission bits open exactly for the duration of the call.  The
/// stack pointer always comes back to its pre-call value; the unsafe bits
/// always end cleared.
pub fn isolate_function_strong<R, F: FnOnce() -> R>(core: &mut CoreContext, f: F) -> (r: R)
    requires
        call_requires(f, ()),
    ensures
        call_ensures(f, (), r),
        final(core).regs == bracket_close_regs(
            bracket_open_regs(old(core).regs, old(core).isolated_stack_top),
            old(core).regs.stack_pointer,
        ),
        final(core).regs.stack_pointer == old(core).regs.stack_pointer,
        CoreContext::frame_unchanged(*old(core), *final(core)),
        CoreContext::storage_unchanged(*old(core), *final(core)),
{
    let g = isolation_strong_enter(core);
    let r = f();
    isolation_strong_exit(core, g);
    r
}

/// The strong bracket restores the caller's stack pointer no matter which
/// register state `mid` the callee left behind, and when the unsafe bits
/// were clear beforehand and the callee kept its hands off the register
/// file, the whole register file round-trips.
pub proof fn lemma_strong_bracket_restores(pre: CoreRegs, isolated_stack_top: u64, mid: CoreRegs)
    ensures
        bracket_close_regs(mid, pre.stack_pointer).stack_pointer == pre.stack_pointer,
        pre.pkru & unsafe_permission_bits() == 0 ==> bracket_close_regs(
            bracket_open_regs(pre, isolated_stack_top),
            pre.stack_pointer,
        ) == pre,
{
    if pre.pkru & unsafe_permission_bits() == 0 {
        lemma_enter_exit_restores(pre.pkru, unsafe_permission_bits());
    }
}

/// Two nested strong brackets unwind correctly: the inner close puts the
/// stack pointer back on the outer bracket's isolated stack, the outer
/// close puts it back on the original stack, whatever register states the
/// two callees left.
pub proof fn lemma_strong_brackets_nest(
    pre: CoreRegs,
    isolated_stack_top: u64,
    inner_mid: CoreRegs,
    outer_mid: CoreRegs,
)
    ensures
        bracket_close_regs(
            inner_mid,
            bracket_open_regs(pre, isolated_stack_top).stack_pointer,
        ).stack_pointer == isolated_stack_top,
        bracket_close_regs(outer_mid, pre.stack_pointer).stack_pointer == pre.stack_pointer,
{
}

/// Enters kernel mode for a system call: full kernel permission, and
/// execution moves from the user stack to the task's kernel stack.  The
/// user stack pointer is parked in the task's slot for the matching
/// [`kernel_exit`].
pub fn kernel_enter(core: &mut CoreContext)
    ensures
        final(core).regs == (CoreRegs {
            pkru: 0u32,
            stack_pointer: old(core).regs.kernel_stack_pointer,
            user_stack_pointer: old(core).regs.stack_pointer,
            ..old(core).regs
        }),
        CoreContext::frame_unchanged(*old(core), *final(core)),
        CoreContext::storage_unchanged(*old(core), *final(core)),
{
    core.regs.pkru = 0;
    core.regs.user_stack_pointer = core.regs.stack_pointer;
    core.regs.stack_pointer = core.regs.kernel_stack_pointer;
}

/// Leaves kernel mode: the kernel stack pointer is parked in the task's
/// slot, execution moves back to the user stack, and the permission
/// register drops to the user value.
pub fn kernel_exit(core: &mut CoreContext)
    ensures
        final(core).regs == (CoreRegs {
            pkru: USER_PKRU,
            stack_pointer: old(core).regs.user_stack_pointer,
            kernel_stack_pointer: old(core).regs.stack_pointer,
            ..old(core).regs
        }),
        CoreContext::frame_unchanged(*old(core), *final(core)),
        CoreContext::storage_unchanged(*old(core), *final(core)),
{
    core.regs.kernel_stack_pointer = core.regs.stack_pointer;
    core.regs.stack_pointer = core.regs.user_stack_pointer;
    core.regs.pkru = USER_PKRU;
}

/// Runs `f` as the body of a system call: on the kernel stack with full
/// kernel permission, returning to the caller's stack with user
/// permission.
pub fn kernel_function<R, F: FnOnce() -> R>(core: &mut CoreContext, f: F) -> (r: R)
    requires
        call_requires(f, ()),
    ensures
        call_ensures(f, (), r),
        final(core).regs == (CoreRegs {
            pkru: USER_PKRU,
            stack_pointer: old(core).regs.stack_pointer,
            user_stack_pointer: old(core).regs.stack_pointer,
            ..old(core).regs
        }),
        CoreContext::frame_unchanged(*old(core), *final(core)),
        CoreContext::storage_unchanged(*old(core), *final(core)),
{
    kernel_enter(core);
    let r = f();
    kernel_exit(core);
    r
}

/// Witness of an open weak bracket.
pub struct WeakGuard {
    /// The caller's stack pointer at the moment the bracket opened.
    pub saved_stack_pointer: u64,
    /// First page of the caller's stack frame, re-tagged for the crossing.
    pub frame_first_page: u64,
    /// Number of frame pages re-tagged for the crossing.
    pub frame_page_count: usize,
}

/// First page of the caller's current stack frame: the stack pointer's
/// page, since the stack grows downwards.
pub open spec fn frame_first_page(regs: CoreRegs) -> u64 {
    regs.stack_pointer / PAGE_SIZE
}

/// Number of pages between the stack pointer's page and the frame
/// pointer, the latter rounded up to a page boundary.
pub open spec fn frame_page_count(regs: CoreRegs) -> int
    recommends
        regs.stack_pointer <= regs.frame_pointer,
{
    (regs.frame_pointer + PAGE_SIZE - 1) / (PAGE_SIZE as int) - regs.stack_pointer / PAGE_SIZE
}

/// Opens a weak bracket: re-tags the caller's current stack frame to the
/// shared key so the callee can reach the caller's locals, then switches
/// to the isolated stack and sets the unsafe permission bits.  A frame
/// page that is not mapped leaves the tags untouched, as the paging layer
/// refuses the whole range.
pub fn isolation_weak_enter(core: &mut CoreContext, tags: &mut PageTags) -> (g: WeakGuard)
    requires
        old(core).regs.stack_pointer <= old(core).regs.frame_pointer,
        old(core).regs.frame_pointer + PAGE_SIZE <= u64::MAX,
        frame_page_count(old(core).regs) <= usize::MAX,
    ensures
        g.saved_stack_pointer == old(core).regs.stack_pointer,
        g.frame_first_page == frame_first_page(old(core).regs),
        g.frame_page_count == frame_page_count(old(core).regs),
        final(core).regs == bracket_open_regs(old(core).regs, old(core).isolated_stack_top),
        CoreContext::frame_unchanged(*old(core), *final(core)),
        CoreContext::storage_unchanged(*old(core), *final(core)),
        range_mapped(old(tags)@, g.frame_first_page, g.frame_page_count as nat) ==> range_tagged(
            old(tags)@,
            final(tags)@,
            g.frame_first_page,
            g.frame_page_count as nat,
            SHARED_KEY,
        ),
        !range_mapped(old(tags)@, g.frame_first_page, g.frame_page_count as nat) ==> final(tags)@
            == old(tags)@,
{
    let first: u64 = core.regs.stack_pointer / PAGE_SIZE;
    let last_excl: u64 = (core.regs.frame_pointer + (PAGE_SIZE - 1)) / PAGE_SIZE;
    let count: usize = (last_excl - first) as usize;
    tag_range(tags, first, count, SHARED_KEY);
    let saved = core.regs.stack_pointer;
    core.regs.stack_pointer = core.isolated_stack_top;
    let mask = unsafe_permission_mask();
    enter(core, mask);
    WeakGuard { saved_stack_pointer: saved, frame_first_page: first, frame_page_count: count }
}

/// Closes a weak bracket: removes the unsafe permission bits, restores the
/// saved stack pointer, and puts the protected key back on the frame pages
/// that the opening half shared.
pub fn isolation_weak_exit(core: &mut CoreContext, tags: &mut PageTags, g: WeakGuard)
    requires
        g.frame_first_page + g.frame_page_count <= u64::MAX,
    ensures
        final(core).regs == bracket_close_regs(old(core).regs, g.saved_stack_pointer),
        CoreContext::frame_unchanged(*old(core), *final(core)),
        CoreContext::storage_unchanged(*old(core), *final(core)),
        range_mapped(old(tags)@, g.frame_first_page, g.frame_page_count as nat) ==> range_tagged(
            old(tags)@,
            final(tags)@,
            g.frame_first_page,
            g.frame_page_count as nat,
            PROTECTED_KEY,
        ),
        !range_mapped(old(tags)@, g.frame_first_page, g.frame_page_count as nat) ==> final(tags)@
            == old(tags)@,
{
    let mask = unsafe_permission_mask();
    exit(core, mask);
    core.regs.stack_pointer = g.saved_stack_pointer;
    tag_range(tags, g.frame_first_page, g.frame_page_count, PROTECTED_KEY);
}

/// Runs `f` inside a weak bracket: the caller's stack frame is shared with
/// the callee for the duration of the call, execution moves to the
/// isolated stack, and the unsafe permission bits are open only while `f`
/// runs.  Stack pointer and permission bits are restored as in the strong
/// wrapper, and the frame pages end re-tagged to the protected key.
pub fn isolate_function_weak<R, F: FnOnce() -> R>(core: &mut CoreContext, tags: &mut PageTags, f: F) -> (r: R)
    requires
        call_requires(f, ()),
        old(core).regs.stack_pointer <= old(core).regs.frame_pointer,
        old(core).regs.frame_pointer + PAGE_SIZE <= u64::MAX,
        frame_page_count(old(core).regs) <= usize::MAX,
    ensures
        call_ensures(f, (), r),
        final(core).regs == bracket_close_regs(
            bracket_open_regs(old(core).regs, old(core).isolated_stack_top),
            old(core).regs.stack_pointer,
        ),
        final(core).regs.stack_pointer == old(core).regs.stack_pointer,
        CoreContext::frame_unchanged(*old(core), *final(core)),
        CoreContext::storage_unchanged(*old(core), *final(core)),
        range_mapped(
            old(tags)@,
            frame_first_page(old(core).regs),
            frame_page_count(old(core).regs) as nat,
        ) ==> range_tagged(
            old(tags)@,
            final(tags)@,
            frame_first_page(old(core).regs),
            frame_page_count(old(core).regs) as nat,
            PROTECTED_KEY,
        ),
        !range_mapped(
            old(tags)@,
            frame_first_page(old(core).regs),
            frame_page_count(old(core).regs) as nat,
        ) ==> final(tags)@ == old(tags)@,
{
    let g = isolation_weak_enter(core, tags);
    let r = f();
    isolation_weak_exit(core, tags, g);
    r
}

} // verus!
