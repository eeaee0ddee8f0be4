//! The system-call interface trait: the hooks a deployment target
//! implements to give the kernel file and console behaviour.
//!
//! The defaults implement the hooks a plain target gets: most operations
//! are unsupported and say so, closing a standard descriptor succeeds
//! trivially.  Targets with real devices override them; writing to the
//! console and fetching application parameters touch device state and are
//! such overrides, outside this layer.

use vstd::prelude::*;
use crate::keys::{EINVAL, ENOSYS};

verus! {

/// Target-specific system-call hooks, with fail-safe defaults.
pub trait SyscallInterface {
    /// Interface-specific initialization steps; nothing by default.
    fn init(&self) {
    }

    /// Removes a file named by the address `name`; unsupported by default.
    fn unlink(&self, name: u64) -> (r: i32)
        ensures
            r == -ENOSYS,
    {
        let _ = name;
        -ENOSYS
    }

    /// Opens a file named by the address `name`; unsupported by default.
    fn open(&self, name: u64, flags: i32, mode: i32) -> (r: i32)
        ensures
            r == -ENOSYS,
    {
        let _ = name;
        let _ = flags;
        let _ = mode;
        -ENOSYS
    }

    /// Closes a descriptor: the standard descriptors close trivially, any
    /// other is rejected by default.
    fn close(&self, fd: i32) -> (r: i32)
        ensures
            r == if fd < 3 {
                0
            } else {
                -EINVAL as int
            },
    {
        if fd < 3 {
            return 0;
        }
        -EINVAL
    }

    /// Reads into the buffer at address `buf`; unsupported by default.
    fn read(&self, fd: i32, buf: u64, len: u64) -> (r: i64)
        ensures
            r == -ENOSYS as i64,
    {
        let _ = fd;
        let _ = buf;
        let _ = len;
        -(ENOSYS as i64)
    }

    /// Repositions a descriptor; unsupported by default.
    fn lseek(&self, fd: i32, offset: i64, whence: i32) -> (r: i64)
        ensures
            r == -ENOSYS as i64,
    {
        let _ = fd;
        let _ = offset;
        let _ = whence;
        -(ENOSYS as i64)
    }

    /// Queries a file named by the address `file`; unsupported by default.
    fn stat(&self, file: u64, st: u64) -> (r: i32)
        ensures
            r == -ENOSYS,
    {
        let _ = file;
        let _ = st;
        -ENOSYS
    }
}

/// The plain target: every hook keeps its default.
pub struct Generic;

impl SyscallInterface for Generic {
}

} // verus!
