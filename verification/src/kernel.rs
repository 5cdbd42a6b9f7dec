//! Plain kernel types and constants that the rest of the library speaks of.

use vstd::prelude::*;

verus! {

#[allow(non_camel_case_types)]
pub type USHORT = u16;

#[allow(non_camel_case_types)]
pub type ULONG = u32;

#[allow(non_camel_case_types)]
pub type DWORD = u32;

#[allow(non_camel_case_types)]
pub type LONG = i32;

/// A kernel status code. Zero is success; values with the top bit set are errors.
#[allow(non_camel_case_types)]
pub type NTSTATUS = i32;

/// An execution priority level.
#[allow(non_camel_case_types)]
pub type KIRQL = u8;

/// A pointer-sized word: an address, or one word of a device's private region.
#[allow(non_camel_case_types)]
pub type ULONG_PTR = u64;

/// The operation completed.
pub const STATUS_SUCCESS: NTSTATUS = 0;

/// Reported by an injector whose binding holds no callback (`0xC0000229`).
pub const STATUS_FAIL_CHECK: NTSTATUS = -1073741271;

/// The level at which ordinary thread code runs.
pub const PASSIVE_LEVEL: KIRQL = 0;

/// The level at which a hardware interrupt's deferred work delivers input.
pub const DISPATCH_LEVEL: KIRQL = 2;

/// Lookup attribute: names are compared without regard to case.
pub const OBJ_CASE_INSENSITIVE: ULONG = 0x40;

/// The width of a pointer-word in bytes, in the one memory layout this library assumes.
pub const POINTER_WIDTH: ULONG_PTR = 8;

pub const FILE_DEVICE_UNKNOWN: DWORD = 0x22;

pub const METHOD_BUFFERED: DWORD = 0;

pub const FILE_ANY_ACCESS: DWORD = 0;

pub const FILE_SPECIAL_ACCESS: DWORD = FILE_ANY_ACCESS;

} // verus!
