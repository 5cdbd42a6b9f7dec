//! The key-entry pipeline.

use vstd::prelude::*;
use crate::kernel::{ULONG, ULONG_PTR, USHORT};
use crate::discovery::ResidentBinding;
use crate::injector::{inject_step, inject_step_spec, InjectAction, InjectEvent, InjectState};
use crate::locator::{init_step, init_step_spec, InitAction, InitEvent, InitState, InputClass};

verus! {

/// One key input record, field for field as the class driver takes it.
#[allow(non_camel_case_types)]
#[allow(non_snake_case)]
#[derive(Clone, Copy, Debug, PartialEq, Eq, Structural)]
pub struct KEYBOARD_INPUT_DATA {
    pub UnitId: USHORT,
    pub MakeCode: USHORT,
    pub Flags: USHORT,
    pub Reserved: USHORT,
    pub ExtraInformation: ULONG,
}

/// The key-entry pipeline's resident binding: the device that injected input is
/// addressed to, and the class driver's service callback. Both are addresses.
#[allow(non_camel_case_types)]
#[derive(Clone, Copy, Debug, PartialEq, Eq, Structural)]
pub struct KBD_OBJECT {
    pub kbd_device: ULONG_PTR,
    pub service_callback: Option<ULONG_PTR>,
}

impl KBD_OBJECT {
    /// The binding that the object holds.
    pub open spec fn binding(self) -> ResidentBinding {
        ResidentBinding { target_device: self.kbd_device, callback: self.service_callback }
    }

    /// Reads the binding that the object holds.
    pub fn to_binding(&self) -> (binding: ResidentBinding)
        ensures
            binding == self.binding(),
    {
        ResidentBinding { target_device: self.kbd_device, callback: self.service_callback }
    }

    /// The object that holds a binding.
    pub fn from_binding(binding: ResidentBinding) -> (object: Self)
        ensures
            object.binding() == binding,
    {
        KBD_OBJECT { kbd_device: binding.target_device, service_callback: binding.callback }
    }
}

/// The record of a key event: the scan code and the flags as given, and every
/// other field zero.
pub open spec fn keyboard_record(make_code: USHORT, flags: USHORT) -> KEYBOARD_INPUT_DATA {
    KEYBOARD_INPUT_DATA {
        UnitId: 0,
        MakeCode: make_code,
        Flags: flags,
        Reserved: 0,
        ExtraInformation: 0,
    }
}

/// An object without device and without callback: the state before discovery.
pub fn zeroed_kbd_object() -> (object: KBD_OBJECT)
    ensures
        object == (KBD_OBJECT { kbd_device: 0, service_callback: None }),
{
    KBD_OBJECT { kbd_device: 0, service_callback: None }
}

/// Builds the input record of a key event.
pub fn keyboard_input_data(make_code: USHORT, flags: USHORT) -> (record: KEYBOARD_INPUT_DATA)
    ensures
        record == keyboard_record(make_code, flags),
{
    KEYBOARD_INPUT_DATA {
        UnitId: 0,
        MakeCode: make_code,
        Flags: flags,
        Reserved: 0,
        ExtraInformation: 0,
    }
}

/// Takes one step of the key-entry pipeline's initialisation sequence: the class
/// driver `\Driver\KbdClass` and the hardware-interface driver `\Driver\ASWkbd`
/// are located, discovery fills `kbd_object`, and both drivers are released.
pub fn kbd_init(kbd_object: &mut KBD_OBJECT, state: InitState, event: InitEvent) -> (out: (
    InitState,
    InitAction,
))
    ensures
        out.0 == init_step_spec(
            InputClass::KeyEntry,
            old(kbd_object).binding(),
            state,
            event,
        ).state,
        out.1 == init_step_spec(
            InputClass::KeyEntry,
            old(kbd_object).binding(),
            state,
            event,
        ).action,
        final(kbd_object).binding() == init_step_spec(
            InputClass::KeyEntry,
            old(kbd_object).binding(),
            state,
            event,
        ).binding,
{
    let mut binding = kbd_object.to_binding();
    let out = init_step(InputClass::KeyEntry, &mut binding, state, event);
    *kbd_object = KBD_OBJECT::from_binding(binding);
    out
}

/// Takes one step of the injection of a key event through the callback that
/// `kbd_object` holds.
pub fn kbd_event(
    kbd_object: &KBD_OBJECT,
    make_code: USHORT,
    flags: USHORT,
    state: InjectState<KEYBOARD_INPUT_DATA>,
    event: InjectEvent,
) -> (out: (InjectState<KEYBOARD_INPUT_DATA>, InjectAction<KEYBOARD_INPUT_DATA>))
    ensures
        out == inject_step_spec(
            kbd_object.binding(),
            keyboard_record(make_code, flags),
            state,
            event,
        ),
{
    let binding = kbd_object.to_binding();
    let record = keyboard_input_data(make_code, flags);
    inject_step(&binding, record, state, event)
}

} // verus!
