//! Intra-kernel isolation layer for a single-address-space kernel, built on
//! per-page protection-key tags and a per-core permission register.
//!
//! The layer lets the kernel tag most of its own memory as protected and open
//! access to it only inside narrow, explicitly bracketed windows:
//!
//! * [`keys`] — the protection-key values and the bit encoding of the
//!   per-core permission register;
//! * [`core_state`] — the explicit model of one core's architectural and
//!   isolation state: register file, scratch storage, address whitelist,
//!   and the per-core variable block;
//! * [`gate`] — adding and removing permission-register bits in strictly
//!   nested pairs;
//! * [`mpk`] — the register and tagging operations, degrading to no-ops
//!   when the hardware lacks the feature;
//! * [`tagger`] — stamping a protection key on a page range;
//! * [`bounce`] — the mediated bounce-buffer copy protocol between protected
//!   structures and the per-core scratch storage;
//! * [`bytes`] — the little-endian field encoding used by staged copies;
//! * [`wrappers`] — the permission, stack-switching and kernel-mode brackets
//!   placed around boundary crossings;
//! * [`percore`] — accessors for per-core kernel state that stay usable while
//!   the state's backing page is tagged protected;
//! * [`bootinfo`] — the boot descriptor and its mediated field accessors;
//! * [`kmsg`] — the kernel message ring for multi-kernel mode;
//! * [`random`] — the kernel's pseudo-random number source;
//! * [`spinlock`], [`syscall`] — the system-call surface over the layer;
//! * [`interfaces`] — the target-specific system-call hooks and their
//!   fail-safe defaults.

pub mod bootinfo;
pub mod bounce;
pub mod bytes;
pub mod core_state;
pub mod gate;
pub mod interfaces;
pub mod keys;
pub mod kmsg;
pub mod mpk;
pub mod percore;
pub mod random;
pub mod spinlock;
pub mod syscall;
pub mod tagger;
pub mod wrappers;

pub use keys::MpkPerm;
