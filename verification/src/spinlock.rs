//! The spinlock system-call surface: containers pairing a lock with its
//! held guard, manipulated only through the kernel bracket.
//!
//! The running system keeps each container behind a pointer handed to user
//! code; here the container is the value itself, and the held guard is the
//! `locked` flag.  Locking a held container, or unlocking a free one, is a
//! fatal caller error, so those inputs are excluded outright.

use vstd::prelude::*;
use crate::core_state::{CoreContext, CoreRegs};
use crate::wrappers::{kernel_enter, kernel_exit, USER_PKRU};

verus! {

/// A spinlock and the guard currently held on it, if any.
pub struct SpinlockContainer {
    /// Whether the lock is currently held.
    pub locked: bool,
}

/// A spinlock that also masks interrupts while held, and its guard.
pub struct SpinlockIrqSaveContainer {
    /// Whether the lock is currently held.
    pub locked: bool,
}

/// Creates a fresh, free spinlock container.
pub fn __sys_spinlock_init() -> (r: SpinlockContainer)
    ensures
        !r.locked,
{
    SpinlockContainer { locked: false }
}

/// Destroys a container, releasing its memory; reports success.
pub fn __sys_spinlock_destroy(lock: SpinlockContainer) -> (r: i32)
    ensures
        r == 0,
{
    let _ = lock;
    0
}

/// Takes the lock.  Locking a container whose guard is already held is a
/// fatal caller error and is excluded.
pub fn __sys_spinlock_lock(lock: &mut SpinlockContainer) -> (r: i32)
    requires
        !old(lock).locked,
    ensures
        r == 0,
        final(lock).locked,
{
    lock.locked = true;
    0
}

/// Releases the lock.  Unlocking a container whose guard is not held is a
/// fatal caller error and is excluded.
pub fn __sys_spinlock_unlock(lock: &mut SpinlockContainer) -> (r: i32)
    requires
        old(lock).locked,
    ensures
        r == 0,
        !final(lock).locked,
{
    lock.locked = false;
    0
}

/// Creates a fresh, free interrupt-saving spinlock container.
pub fn __sys_spinlock_irqsave_init() -> (r: SpinlockIrqSaveContainer)
    ensures
        !r.locked,
{
    SpinlockIrqSaveContainer { locked: false }
}

/// Destroys an interrupt-saving container; reports success.
pub fn __sys_spinlock_irqsave_destroy(lock: SpinlockIrqSaveContainer) -> (r: i32)
    ensures
        r == 0,
{
    let _ = lock;
    0
}

/// Takes the interrupt-saving lock; a held guard is excluded as above.
pub fn __sys_spinlock_irqsave_lock(lock: &mut SpinlockIrqSaveContainer) -> (r: i32)
    requires
        !old(lock).locked,
    ensures
        r == 0,
        final(lock).locked,
{
    lock.locked = true;
    0
}

/// Releases the interrupt-saving lock; a free guard is excluded as above.
pub fn __sys_spinlock_irqsave_unlock(lock: &mut SpinlockIrqSaveContainer) -> (r: i32)
    requires
        old(lock).locked,
    ensures
        r == 0,
        !final(lock).locked,
{
    lock.locked = false;
    0
}

/// System-call wrapper: takes the lock inside the kernel bracket.
pub fn sys_spinlock_lock(core: &mut CoreContext, lock: &mut SpinlockContainer) -> (r: i32)
    requires
        !old(lock).locked,
    ensures
        r == 0,
        final(lock).locked,
        final(core).regs == (CoreRegs {
            pkru: USER_PKRU,
            stack_pointer: old(core).regs.stack_pointer,
            user_stack_pointer: old(core).regs.stack_pointer,
            ..old(core).regs
        }),
        CoreContext::frame_unchanged(*old(core), *final(core)),
        CoreContext::storage_unchanged(*old(core), *final(core)),
{
    kernel_enter(core);
    let r = __sys_spinlock_lock(lock);
    kernel_exit(core);
    r
}

/// System-call wrapper: releases the lock inside the kernel bracket.
pub fn sys_spinlock_unlock(core: &mut CoreContext, lock: &mut SpinlockContainer) -> (r: i32)
    requires
        old(lock).locked,
    ensures
        r == 0,
        !final(lock).locked,
        final(core).regs == (CoreRegs {
            pkru: USER_PKRU,
            stack_pointer: old(core).regs.stack_pointer,
            user_stack_pointer: old(core).regs.stack_pointer,
            ..old(core).regs
        }),
        CoreContext::frame_unchanged(*old(core), *final(core)),
        CoreContext::storage_unchanged(*old(core), *final(core)),
{
    kernel_enter(core);
    let r = __sys_spinlock_unlock(lock);
    kernel_exit(core);
    r
}

} // verus!
