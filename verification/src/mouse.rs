//! The pointer-class pipeline.

use vstd::prelude::*;
use crate::kernel::{LONG, ULONG, ULONG_PTR, USHORT};
use crate::discovery::ResidentBinding;
use crate::injector::{inject_step, inject_step_spec, InjectAction, InjectEvent, InjectState};
use crate::locator::{init_step, init_step_spec, InitAction, InitEvent, InitState, InputClass};

verus! {

pub const MOUSE_LEFT_BUTTON_DOWN: USHORT = 0x0001;

pub const MOUSE_LEFT_BUTTON_UP: USHORT = 0x0002;

pub const MOUSE_RIGHT_BUTTON_DOWN: USHORT = 0x0004;

pub const MOUSE_RIGHT_BUTTON_UP: USHORT = 0x0008;

pub const MOUSE_MIDDLE_BUTTON_DOWN: USHORT = 0x0010;

pub const MOUSE_MIDDLE_BUTTON_UP: USHORT = 0x0020;

pub const MOUSE_BUTTON_1_DOWN: USHORT = MOUSE_LEFT_BUTTON_DOWN;

pub const MOUSE_BUTTON_1_UP: USHORT = MOUSE_LEFT_BUTTON_UP;

pub const MOUSE_BUTTON_2_DOWN: USHORT = MOUSE_RIGHT_BUTTON_DOWN;

pub const MOUSE_BUTTON_2_UP: USHORT = MOUSE_RIGHT_BUTTON_UP;

pub const MOUSE_BUTTON_3_DOWN: USHORT = MOUSE_MIDDLE_BUTTON_DOWN;

pub const MOUSE_BUTTON_3_UP: USHORT = MOUSE_MIDDLE_BUTTON_UP;

pub const MOUSE_BUTTON_4_DOWN: USHORT = 0x0040;

pub const MOUSE_BUTTON_4_UP: USHORT = 0x0080;

pub const MOUSE_BUTTON_5_DOWN: USHORT = 0x0100;

pub const MOUSE_BUTTON_5_UP: USHORT = 0x0200;

pub const MOUSE_WHEEL: USHORT = 0x0400;

pub const MOUSE_HWHEEL: USHORT = 0x0800;

/// Movement is relative to the last position.
pub const MOUSE_MOVE_RELATIVE: USHORT = 0;

/// Movement is given in absolute coordinates.
pub const MOUSE_MOVE_ABSOLUTE: USHORT = 1;

/// The coordinates are mapped to the virtual desktop.
pub const MOUSE_VIRTUAL_DESKTOP: USHORT = 0x02;

/// The mouse attributes changed and are to be queried again.
pub const MOUSE_ATTRIBUTES_CHANGED: USHORT = 0x04;

/// Mouse moves are not to be coalesced.
pub const MOUSE_MOVE_NOCOALESCE: USHORT = 0x08;

pub const MOUSE_TERMSRV_SRC_SHADOW: USHORT = 0x100;

/// One pointer input record, field for field as the class driver takes it.
#[allow(non_camel_case_types)]
#[allow(non_snake_case)]
#[derive(Clone, Copy, Debug, PartialEq, Eq, Structural)]
pub struct MOUSE_INPUT_DATA {
    pub UnitId: USHORT,
    pub Flags: USHORT,
    pub ButtonFlags: USHORT,
    pub ButtonData: USHORT,
    pub RawButtons: ULONG,
    pub LastX: LONG,
    pub LastY: LONG,
    pub ExtraInformation: ULONG,
}

/// The pointer pipeline's resident binding: the device that injected input is
/// addressed to, and the class driver's service callback. Both are addresses.
#[allow(non_camel_case_types)]
#[derive(Clone, Copy, Debug, PartialEq, Eq, Structural)]
pub struct MOUSE_OBJECT {
    pub mouse_device: ULONG_PTR,
    pub service_callback: Option<ULONG_PTR>,
}

impl MOUSE_OBJECT {
    /// The binding that the object holds.
    pub open spec fn binding(self) -> ResidentBinding {
        ResidentBinding { target_device: self.mouse_device, callback: self.service_callback }
    }

    /// Reads the binding that the object holds.
    pub fn to_binding(&self) -> (binding: ResidentBinding)
        ensures
            binding == self.binding(),
    {
        ResidentBinding { target_device: self.mouse_device, callback: self.service_callback }
    }

    /// The object that holds a binding.
    pub fn from_binding(binding: ResidentBinding) -> (object: Self)
        ensures
            object.binding() == binding,
    {
        MOUSE_OBJECT { mouse_device: binding.target_device, service_callback: binding.callback }
    }
}

/// The record of a pointer event at `(x, y)`: the coordinates and the button
/// transitions as given, the flags as given with absolute positioning marked,
/// and every other field zero.
pub open spec fn mouse_record(x: LONG, y: LONG, button_flags: USHORT, flags: USHORT)
    -> MOUSE_INPUT_DATA {
    MOUSE_INPUT_DATA {
        UnitId: 0,
        Flags: flags | MOUSE_MOVE_ABSOLUTE,
        ButtonFlags: button_flags,
        ButtonData: 0,
        RawButtons: 0,
        LastX: x,
        LastY: y,
        ExtraInformation: 0,
    }
}

/// An object without device and without callback: the state before discovery.
pub fn zeroed_mouse_object() -> (object: MOUSE_OBJECT)
    ensures
        object == (MOUSE_OBJECT { mouse_device: 0, service_callback: None }),
{
    MOUSE_OBJECT { mouse_device: 0, service_callback: None }
}

/// Builds the input record of a pointer event.
pub fn mouse_input_data(x: LONG, y: LONG, button_flags: USHORT, flags: USHORT) -> (record:
    MOUSE_INPUT_DATA)
    ensures
        record == mouse_record(x, y, button_flags, flags),
        record.Flags & MOUSE_MOVE_ABSOLUTE == MOUSE_MOVE_ABSOLUTE,
        flags == MOUSE_MOVE_RELATIVE || flags == MOUSE_MOVE_ABSOLUTE ==> record.Flags
            == MOUSE_MOVE_ABSOLUTE,
{
    assert((flags | 1u16) & 1u16 == 1u16) by (bit_vector);
    assert(0u16 | 1u16 == 1u16) by (bit_vector);
    assert(1u16 | 1u16 == 1u16) by (bit_vector);
    MOUSE_INPUT_DATA {
        UnitId: 0,
        Flags: flags | MOUSE_MOVE_ABSOLUTE,
        ButtonFlags: button_flags,
        ButtonData: 0,
        RawButtons: 0,
        LastX: x,
        LastY: y,
        ExtraInformation: 0,
    }
}

/// Takes one step of the pointer pipeline's initialisation sequence: the class
/// driver `\Driver\MouClass` and the hardware-interface driver `\Driver\MouHID`
/// are located, discovery fills `mouse_object`, and both drivers are released.
pub fn mouse_init(mouse_object: &mut MOUSE_OBJECT, state: InitState, event: InitEvent) -> (out: (
    InitState,
    InitAction,
))
    ensures
        out.0 == init_step_spec(
            InputClass::Pointer,
            old(mouse_object).binding(),
            state,
            event,
        ).state,
        out.1 == init_step_spec(
            InputClass::Pointer,
            old(mouse_object).binding(),
            state,
            event,
        ).action,
        final(mouse_object).binding() == init_step_spec(
            InputClass::Pointer,
            old(mouse_object).binding(),
            state,
            event,
        ).binding,
{
    let mut binding = mouse_object.to_binding();
    let out = init_step(InputClass::Pointer, &mut binding, state, event);
    *mouse_object = MOUSE_OBJECT::from_binding(binding);
    out
}

/// Takes one step of the injection of a pointer event at `(x, y)` through the
/// callback that `mouse_object` holds.
pub fn mouse_event(
    mouse_object: &MOUSE_OBJECT,
    x: LONG,
    y: LONG,
    button_flags: USHORT,
    flags: USHORT,
    state: InjectState<MOUSE_INPUT_DATA>,
    event: InjectEvent,
) -> (out: (InjectState<MOUSE_INPUT_DATA>, InjectAction<MOUSE_INPUT_DATA>))
    ensures
        out == inject_step_spec(
            mouse_object.binding(),
            mouse_record(x, y, button_flags, flags),
            state,
            event,
        ),
{
    let binding = mouse_object.to_binding();
    let record = mouse_input_data(x, y, button_flags, flags);
    inject_step(&binding, record, state, event)
}

} // verus!
