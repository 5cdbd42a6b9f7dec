//! Discovery of a class driver's service callback inside the private memory of
//! a hardware-interface device, and injection of synthetic input through it.
//!
//! There are two pipelines of the same shape, one for pointer devices
//! ([`mouse`]) and one for key-entry devices ([`keyboard`]). Each locates its two
//! drivers and runs discovery once ([`locator`], [`discovery`], [`scan`]), and
//! afterwards injects input records through the callback that discovery found
//! ([`injector`]).
//!
//! Nothing here touches kernel memory. The host reads the device objects into a
//! [`graph::DeviceGraph`], performs the actions that the step functions ask for,
//! and reports what came of them.

use vstd::prelude::*;
use crate::kernel::{
    DWORD, FILE_DEVICE_UNKNOWN, FILE_SPECIAL_ACCESS, LONG, METHOD_BUFFERED, NTSTATUS,
    STATUS_SUCCESS, ULONG, USHORT,
};
use crate::mouse::MOUSE_MOVE_ABSOLUTE;

pub mod kernel;
pub mod graph;
pub mod scan;
pub mod discovery;
pub mod locator;
pub mod injector;
pub mod mouse;
pub mod keyboard;

verus! {

/// The control code that a device type, a function number, a transfer method
/// and an access mode make up.
#[allow(non_snake_case)]
pub open spec fn ctl_code(DeviceType: DWORD, Function: DWORD, Method: DWORD, Access: DWORD)
    -> DWORD {
    (DeviceType << 16) | (Access << 14) | (Function << 2) | Method
}

/// Composes a control code.
#[allow(non_snake_case)]
pub fn CTL_CODE(DeviceType: DWORD, Function: DWORD, Method: DWORD, Access: DWORD) -> (code: DWORD)
    ensures
        code == ctl_code(DeviceType, Function, Method, Access),
{
    (DeviceType << 16) | (Access << 14) | (Function << 2) | Method
}

/// The function number of the pointer-event request.
pub const META_MOUSE_EVENT_FUNCTION: DWORD = 0xf9004;

/// The control code of the pointer-event request.
pub const META_IRP_MOUSE_EVENT: DWORD = 0x3e4010;

/// The number of bytes of a pointer-event request.
pub const MOUSE_REQUEST_SIZE: usize = 8;

/// The payload of a pointer-event request: two coordinates.
#[derive(Clone, Copy, Debug, PartialEq, Eq, Structural)]
pub struct MouseRequest {
    pub x: u32,
    pub y: u32,
}

/// The arguments of one pointer injection.
#[derive(Clone, Copy, Debug, PartialEq, Eq, Structural)]
pub struct MouseArguments {
    pub x: LONG,
    pub y: LONG,
    pub button_flags: USHORT,
    pub flags: USHORT,
}

impl MouseRequest {
    /// The injection that the request asks for: an absolute move to the two
    /// coordinates, each taken as the signed number with the same bits, with no
    /// button transition.
    pub open spec fn arguments_of(self) -> MouseArguments {
        MouseArguments {
            x: self.x as LONG,
            y: self.y as LONG,
            button_flags: 0,
            flags: MOUSE_MOVE_ABSOLUTE,
        }
    }

    /// Computes the injection that the request asks for.
    pub fn arguments(&self) -> (out: MouseArguments)
        ensures
            out == self.arguments_of(),
    {
        MouseArguments {
            x: #[verifier::truncate]
            (self.x as LONG),
            y: #[verifier::truncate]
            (self.y as LONG),
            button_flags: 0,
            flags: MOUSE_MOVE_ABSOLUTE,
        }
    }
}

/// What the dispatcher does with a device-control request.
#[derive(Clone, Copy, Debug, PartialEq, Eq, Structural)]
pub struct DeviceControl {
    /// Whether the request asks for a pointer injection.
    pub mouse_event: bool,
    /// The number of bytes that the request is completed with.
    pub information: usize,
    /// The status that the request is completed with.
    pub status: NTSTATUS,
}

/// Routes a device-control request by its control code. The pointer-event code
/// asks for an injection and completes with the size of the request; any other
/// code asks for nothing and completes with zero bytes. Either way the request
/// completes in success.
pub fn irp_mj_device_control(io_control_code: ULONG) -> (out: DeviceControl)
    ensures
        out.mouse_event == (io_control_code == META_IRP_MOUSE_EVENT),
        out.information == (if out.mouse_event {
            MOUSE_REQUEST_SIZE
        } else {
            0
        }),
        out.status == STATUS_SUCCESS,
{
    if io_control_code == META_IRP_MOUSE_EVENT {
        DeviceControl { mouse_event: true, information: MOUSE_REQUEST_SIZE, status: STATUS_SUCCESS }
    } else {
        DeviceControl { mouse_event: false, information: 0, status: STATUS_SUCCESS }
    }
}

/// The pointer-event code is the code of function `0xf9004` on an unknown device
/// type, with buffered transfer and special access.
pub proof fn law_mouse_event_code()
    ensures
        META_IRP_MOUSE_EVENT == ctl_code(
            FILE_DEVICE_UNKNOWN,
            META_MOUSE_EVENT_FUNCTION,
            METHOD_BUFFERED,
            FILE_SPECIAL_ACCESS,
        ),
{
    assert(0x3e4010u32 == (0x22u32 << 16) | (0u32 << 14) | (0xf9004u32 << 2) | 0u32)
        by (bit_vector);
}

/// The coordinates of a request reach the injection bit for bit: zero stays
/// zero, and the largest coordinate is taken as minus one.
pub proof fn law_coordinate_extremes()
    ensures
        (MouseRequest { x: 0, y: 0 }).arguments_of().x == 0,
        (MouseRequest { x: 0, y: 0 }).arguments_of().y == 0,
        (MouseRequest { x: u32::MAX, y: u32::MAX }).arguments_of().x == -1,
        (MouseRequest { x: u32::MAX, y: u32::MAX }).arguments_of().y == -1,
{
    assert(0u32 as i32 == 0i32) by (bit_vector);
    assert(0xffff_ffffu32 as i32 == -1i32) by (bit_vector);
}

} // verus!
