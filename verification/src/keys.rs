//! Key registry: the small set of protection-key values the kernel uses and
//! the bit encoding of the per-core permission register.
//!
//! A protection key is a 4-bit integer (0 to 15) stamped on a page-table
//! entry.  The permission register holds two bits per key: bit `2k` disables
//! any access to pages tagged `k`, bit `2k + 1` disables writes to them.

use vstd::prelude::*;

verus! {

/// Key carried by pages that user-mode code may reach.
pub const USER_KEY: u8 = 0;
/// Key carried by kernel-private pages; the default for most kernel data.
pub const PROTECTED_KEY: u8 = 1;
/// Key carried by pages that stay reachable at all times, such as the
/// per-core scratch storage.
pub const UNPROTECTED_KEY: u8 = 2;
/// Key carried by pages made temporarily reachable during a weak boundary
/// crossing.
pub const SHARED_KEY: u8 = 3;

/// Largest valid protection-key value.
pub const MAX_KEY: u8 = 15;

/// Kernel error number for an invalid argument.
pub const EINVAL: i32 = 22;
/// Kernel error number for a missing hardware feature.
pub const ENOSYS: i32 = 38;

/// Register bit that disables all access to pages tagged `key`.
pub open spec fn access_disable_bit(key: u8) -> u32 {
    1u32 << ((2 * key) as u32)
}

/// Register bit that disables writes to pages tagged `key`.
pub open spec fn write_disable_bit(key: u8) -> u32 {
    1u32 << ((2 * key + 1) as u32)
}

/// Both register bits governing pages tagged `key`.
pub open spec fn key_bits(key: u8) -> u32 {
    access_disable_bit(key) | write_disable_bit(key)
}

/// Whether register value `pkru` permits reads of pages tagged `key`.
pub open spec fn allows_read(pkru: u32, key: u8) -> bool {
    pkru & access_disable_bit(key) == 0
}

/// Whether register value `pkru` permits writes to pages tagged `key`.
pub open spec fn allows_write(pkru: u32, key: u8) -> bool {
    allows_read(pkru, key) && pkru & write_disable_bit(key) == 0
}

/// Register bits added while a permission bracket is open: they govern the
/// protected region, so that code running inside the bracket loses direct
/// access to it and can touch only whitelisted, mediated copies.
pub open spec fn unsafe_permission_bits() -> u32 {
    key_bits(PROTECTED_KEY)
}

/// Exec mirror of [`unsafe_permission_bits`].
pub fn unsafe_permission_mask() -> (r: u32)
    ensures
        r == unsafe_permission_bits(),
{
    proof {
        assert((1u32 << 2u32) | (1u32 << 3u32) == 0xCu32) by (bit_vector);
    }
    0xC
}

/// Access-permission choice for one protection key.
pub enum MpkPerm {
    MpkRw,
    MpkRo,
    MpkNone,
}

/// Marks pages tagged `key` read-only in register value `val`: the
/// access-disable bit is cleared and the write-disable bit is set.
pub fn pkru_set_ro(key: u8, val: &mut u32) -> (r: i32)
    ensures
        key > MAX_KEY ==> r == -EINVAL && *final(val) == *old(val),
        key <= MAX_KEY ==> r == 0 && *final(val) == (*old(val) & !access_disable_bit(key))
            | write_disable_bit(key),
{
    if key > MAX_KEY {
        return -EINVAL;
    }
    *val = *val & !(1u32 << (2 * key as u32));
    *val = *val | (1u32 << (2 * key as u32 + 1));
    0
}

/// Marks pages tagged `key` fully accessible in register value `val`: both
/// of the key's bits are cleared.
pub fn pkru_set_rw(key: u8, val: &mut u32) -> (r: i32)
    ensures
        key > MAX_KEY ==> r == -EINVAL && *final(val) == *old(val),
        key <= MAX_KEY ==> r == 0 && *final(val) == *old(val) & !access_disable_bit(key) & !write_disable_bit(key),
{
    if key > MAX_KEY {
        return -EINVAL;
    }
    *val = *val & !(1u32 << (2 * key as u32));
    *val = *val & !(1u32 << (2 * key as u32 + 1));
    0
}

/// Marks pages tagged `key` inaccessible in register value `val`: both of
/// the key's bits are set.
pub fn pkru_set_no_access(key: u8, val: &mut u32) -> (r: i32)
    ensures
        key > MAX_KEY ==> r == -EINVAL && *final(val) == *old(val),
        key <= MAX_KEY ==> r == 0 && *final(val) == *old(val) | access_disable_bit(key)
            | write_disable_bit(key),
{
    if key > MAX_KEY {
        return -EINVAL;
    }
    *val = *val | (1u32 << (2 * key as u32));
    *val = *val | (1u32 << (2 * key as u32 + 1));
    0
}

} // verus!
