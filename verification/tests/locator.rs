use meta_driver::discovery::ResidentBinding;
use meta_driver::graph::{DeviceGraph, DeviceNode};
use meta_driver::kernel::{OBJ_CASE_INSENSITIVE, STATUS_SUCCESS};
use meta_driver::keyboard::{kbd_init, zeroed_kbd_object, KBD_OBJECT};
use meta_driver::locator::{
    init_step, DriverName, DriverRole, InitAction, InitEvent, InitState, InputClass, Notice,
    KBD_DRIVER_CLASS_NAME, KBD_DRIVER_HID_NAME, MOUSE_DRIVER_CLASS_NAME, MOUSE_DRIVER_HID_NAME,
};
use meta_driver::mouse::{mouse_init, zeroed_mouse_object, MOUSE_OBJECT};

const STATUS_OBJECT_NAME_NOT_FOUND: i32 = 0xC000_0034u32 as i32;
const STATUS_ACCESS_DENIED: i32 = 0xC000_0022u32 as i32;
const CLASS_DRIVER: u64 = 0xffff_8000_0020_0000;
const INTERFACE_DRIVER: u64 = 0xffff_8000_0030_0000;
const DEVICE: u64 = 0xffff_8000_0000_1000;
const CALLBACK: u64 = 0xffff_8000_0020_4440;

/// A kernel that answers lookups as told and keeps count of what it is asked.
struct Host {
    class_lookup: (i32, u64),
    interface_lookup: (i32, u64),
    region_start: u64,
    words: Vec<u64>,
    lookups: Vec<DriverName>,
    attributes: Vec<u32>,
    acquired: Vec<u64>,
    released: Vec<u64>,
    snapshots: Vec<(u64, u64)>,
    notices: Vec<Notice>,
}

impl Host {
    fn new(class_lookup: (i32, u64), interface_lookup: (i32, u64)) -> Host {
        Host {
            class_lookup,
            interface_lookup,
            region_start: 0x9000,
            words: vec![0x1, DEVICE, CALLBACK, 0x2],
            lookups: Vec::new(),
            attributes: Vec::new(),
            acquired: Vec::new(),
            released: Vec::new(),
            snapshots: Vec::new(),
            notices: Vec::new(),
        }
    }

    fn graph(&self) -> DeviceGraph {
        let (graph, device) = DeviceGraph::new().add(DeviceNode {
            address: DEVICE,
            next: None,
            attached: None,
            region_start: 0,
            extension_end: 0,
            region: Vec::new(),
        });
        let (graph, ok) = graph.with_class_head(device);
        assert!(ok);
        let degenerate = self.region_start == 0;
        let (graph, at) = graph.add(DeviceNode {
            address: 0xffff_8000_0000_7000,
            next: None,
            attached: None,
            region_start: self.region_start,
            extension_end: if degenerate {
                0
            } else {
                self.region_start + 8 * self.words.len() as u64
            },
            region: if degenerate { Vec::new() } else { self.words.clone() },
        });
        assert!(at.is_some());
        let (graph, ok) = graph.with_interface_head(at);
        assert!(ok);
        graph
    }

    fn perform(&mut self, action: InitAction) -> Result<InitEvent, i32> {
        match action {
            InitAction::Lookup { name, attributes } => {
                self.lookups.push(name);
                self.attributes.push(attributes);
                let (status, driver) = match name.role {
                    DriverRole::Class => self.class_lookup,
                    DriverRole::HardwareInterface => self.interface_lookup,
                };
                if status == STATUS_SUCCESS {
                    self.acquired.push(driver);
                }
                Ok(InitEvent::Lookup { status, driver })
            }
            InitAction::Snapshot { class_driver, interface_driver } => {
                self.snapshots.push((class_driver, interface_driver));
                Ok(InitEvent::Snapshot { graph: self.graph() })
            }
            InitAction::Log { notice } => {
                self.notices.push(notice);
                Ok(InitEvent::Logged)
            }
            InitAction::Release { driver } => {
                self.released.push(driver);
                Ok(InitEvent::Released)
            }
            InitAction::Finish { status } => Err(status),
            InitAction::Unexpected => panic!("the host answered out of turn"),
        }
    }
}

fn run(
    class: InputClass,
    binding: &mut ResidentBinding,
    host: &mut Host,
) -> (i32, Vec<InitAction>) {
    let mut state = InitState::Idle;
    let mut event = InitEvent::Start;
    let mut actions = Vec::new();
    for _ in 0..16 {
        let (next, action) = init_step(class, binding, state, event);
        actions.push(action);
        state = next;
        match host.perform(action) {
            Ok(answer) => event = answer,
            Err(status) => {
                assert_eq!(state, InitState::Done);
                return (status, actions);
            }
        }
    }
    panic!("the sequence did not end");
}

fn unbound() -> ResidentBinding {
    ResidentBinding { target_device: 0, callback: None }
}

fn name(class: InputClass, role: DriverRole) -> DriverName {
    DriverName { class, role }
}

#[test]
fn driver_names_are_the_namespace_paths() {
    assert_eq!(name(InputClass::Pointer, DriverRole::Class).path(), "\\Driver\\MouClass");
    assert_eq!(name(InputClass::Pointer, DriverRole::HardwareInterface).path(), "\\Driver\\MouHID");
    assert_eq!(name(InputClass::KeyEntry, DriverRole::Class).path(), "\\Driver\\KbdClass");
    assert_eq!(
        name(InputClass::KeyEntry, DriverRole::HardwareInterface).path(),
        "\\Driver\\ASWkbd"
    );
    assert_eq!(MOUSE_DRIVER_CLASS_NAME, "\\Driver\\MouClass");
    assert_eq!(MOUSE_DRIVER_HID_NAME, "\\Driver\\MouHID");
    assert_eq!(KBD_DRIVER_CLASS_NAME, "\\Driver\\KbdClass");
    assert_eq!(KBD_DRIVER_HID_NAME, "\\Driver\\ASWkbd");
}

#[test]
fn successful_sequence_releases_both_drivers() {
    let mut host = Host::new((STATUS_SUCCESS, CLASS_DRIVER), (STATUS_SUCCESS, INTERFACE_DRIVER));
    let mut binding = unbound();
    let (status, actions) = run(InputClass::Pointer, &mut binding, &mut host);
    assert_eq!(status, STATUS_SUCCESS);
    assert_eq!(host.acquired, vec![CLASS_DRIVER, INTERFACE_DRIVER]);
    assert_eq!(host.released, vec![CLASS_DRIVER, INTERFACE_DRIVER]);
    assert_eq!(host.snapshots, vec![(CLASS_DRIVER, INTERFACE_DRIVER)]);
    assert!(host.notices.is_empty());
    assert_eq!(binding, ResidentBinding { target_device: DEVICE, callback: Some(CALLBACK) });
    assert_eq!(
        actions,
        vec![
            InitAction::Lookup {
                name: name(InputClass::Pointer, DriverRole::Class),
                attributes: OBJ_CASE_INSENSITIVE
            },
            InitAction::Lookup {
                name: name(InputClass::Pointer, DriverRole::HardwareInterface),
                attributes: OBJ_CASE_INSENSITIVE
            },
            InitAction::Snapshot { class_driver: CLASS_DRIVER, interface_driver: INTERFACE_DRIVER },
            InitAction::Release { driver: CLASS_DRIVER },
            InitAction::Release { driver: INTERFACE_DRIVER },
            InitAction::Finish { status: STATUS_SUCCESS },
        ]
    );
}

#[test]
fn failed_second_lookup_still_releases_first_driver() {
    let mut host =
        Host::new((STATUS_SUCCESS, CLASS_DRIVER), (STATUS_OBJECT_NAME_NOT_FOUND, 0));
    let mut binding = unbound();
    let (status, actions) = run(InputClass::Pointer, &mut binding, &mut host);
    assert_eq!(status, STATUS_OBJECT_NAME_NOT_FOUND);
    assert_eq!(host.acquired, vec![CLASS_DRIVER]);
    assert_eq!(host.released, vec![CLASS_DRIVER]);
    assert!(host.snapshots.is_empty());
    assert_eq!(binding, unbound());
    assert_eq!(actions.len(), 4);
    assert_eq!(actions[2], InitAction::Release { driver: CLASS_DRIVER });
    assert_eq!(actions[3], InitAction::Finish { status: STATUS_OBJECT_NAME_NOT_FOUND });
}

#[test]
fn failed_first_lookup_ends_sequence_without_release() {
    let mut host = Host::new((STATUS_ACCESS_DENIED, 0), (STATUS_SUCCESS, INTERFACE_DRIVER));
    let mut binding = unbound();
    let (status, actions) = run(InputClass::Pointer, &mut binding, &mut host);
    assert_eq!(status, STATUS_ACCESS_DENIED);
    assert_eq!(host.lookups, vec![name(InputClass::Pointer, DriverRole::Class)]);
    assert!(host.acquired.is_empty());
    assert!(host.released.is_empty());
    assert_eq!(binding, unbound());
    assert_eq!(actions.len(), 2);
}

#[test]
fn acquisitions_equal_releases_on_every_exit() {
    let failures = [STATUS_OBJECT_NAME_NOT_FOUND, STATUS_ACCESS_DENIED, 1, -1, i32::MIN, i32::MAX];
    let mut outcomes = vec![STATUS_SUCCESS];
    outcomes.extend_from_slice(&failures);
    for class in [InputClass::Pointer, InputClass::KeyEntry] {
        for first in outcomes.iter() {
            for second in outcomes.iter() {
                let mut host = Host::new((*first, CLASS_DRIVER), (*second, INTERFACE_DRIVER));
                let mut binding = unbound();
                let (status, _) = run(class, &mut binding, &mut host);
                assert_eq!(host.acquired, host.released);
                let expected = if *first != STATUS_SUCCESS { *first } else { *second };
                assert_eq!(status, expected);
            }
        }
    }
}

#[test]
fn any_status_but_success_is_a_failed_lookup() {
    // A positive status is informational in the kernel's reading, but the
    // sequence goes on only with success itself.
    let (state, action) = init_step(
        InputClass::Pointer,
        &mut unbound(),
        InitState::AwaitingClass,
        InitEvent::Lookup { status: 1, driver: CLASS_DRIVER },
    );
    assert_eq!(state, InitState::Done);
    assert_eq!(action, InitAction::Finish { status: 1 });
}

#[test]
fn lookups_ignore_case() {
    let mut host = Host::new((STATUS_SUCCESS, CLASS_DRIVER), (STATUS_SUCCESS, INTERFACE_DRIVER));
    run(InputClass::KeyEntry, &mut unbound(), &mut host);
    assert_eq!(OBJ_CASE_INSENSITIVE, 0x40);
    assert_eq!(host.attributes, vec![OBJ_CASE_INSENSITIVE, OBJ_CASE_INSENSITIVE]);
    assert_eq!(
        host.lookups,
        vec![
            name(InputClass::KeyEntry, DriverRole::Class),
            name(InputClass::KeyEntry, DriverRole::HardwareInterface)
        ]
    );
}

#[test]
fn sequence_without_callback_still_succeeds() {
    let mut host = Host::new((STATUS_SUCCESS, CLASS_DRIVER), (STATUS_SUCCESS, INTERFACE_DRIVER));
    host.words = vec![0x1, 0x2, 0x3];
    let mut binding = unbound();
    let (status, _) = run(InputClass::Pointer, &mut binding, &mut host);
    assert_eq!(status, STATUS_SUCCESS);
    assert_eq!(binding, ResidentBinding { target_device: DEVICE, callback: None });
    assert_eq!(host.acquired, host.released);
}

#[test]
fn degenerate_region_is_logged_and_not_escalated() {
    let mut host = Host::new((STATUS_SUCCESS, CLASS_DRIVER), (STATUS_SUCCESS, INTERFACE_DRIVER));
    host.region_start = 0;
    let mut binding = unbound();
    let (status, actions) = run(InputClass::Pointer, &mut binding, &mut host);
    assert_eq!(status, STATUS_SUCCESS);
    assert_eq!(host.notices, vec![Notice::DegenerateRegion]);
    assert_eq!(binding, ResidentBinding { target_device: DEVICE, callback: None });
    assert_eq!(host.released, vec![CLASS_DRIVER, INTERFACE_DRIVER]);
    assert_eq!(actions.len(), 7);
    assert_eq!(actions[3], InitAction::Log { notice: Notice::DegenerateRegion });
    assert_eq!(actions[4], InitAction::Release { driver: CLASS_DRIVER });
}

#[test]
fn heuristic_compares_against_class_driver_handle() {
    // The word behind the device address lies above the hardware-interface
    // driver but not above the class driver.
    let mut host = Host::new((STATUS_SUCCESS, CLASS_DRIVER), (STATUS_SUCCESS, 0x10));
    host.words = vec![DEVICE, CLASS_DRIVER];
    let mut binding = unbound();
    run(InputClass::Pointer, &mut binding, &mut host);
    assert_eq!(binding.callback, None);
    host.words = vec![DEVICE, CLASS_DRIVER + 1];
    run(InputClass::Pointer, &mut binding, &mut host);
    assert_eq!(binding.callback, Some(CLASS_DRIVER + 1));
}

#[test]
fn second_run_keeps_published_binding() {
    let mut host = Host::new((STATUS_SUCCESS, CLASS_DRIVER), (STATUS_SUCCESS, INTERFACE_DRIVER));
    let mut binding = unbound();
    run(InputClass::Pointer, &mut binding, &mut host);
    let published = binding;
    host.words = vec![DEVICE, CALLBACK + 0x100];
    let (status, _) = run(InputClass::Pointer, &mut binding, &mut host);
    assert_eq!(status, STATUS_SUCCESS);
    assert_eq!(binding, published);
    assert_eq!(host.acquired, host.released);
}

fn states() -> Vec<InitState> {
    vec![
        InitState::Idle,
        InitState::AwaitingClass,
        InitState::AwaitingInterface { class_driver: CLASS_DRIVER },
        InitState::AwaitingSnapshot {
            class_driver: CLASS_DRIVER,
            interface_driver: INTERFACE_DRIVER,
        },
        InitState::Reporting { class_driver: CLASS_DRIVER, interface_driver: INTERFACE_DRIVER },
        InitState::ReleasingClass { interface_driver: INTERFACE_DRIVER },
        InitState::ReleasingInterface,
        InitState::Abandoning { status: STATUS_ACCESS_DENIED },
        InitState::Done,
    ]
}

fn events() -> Vec<InitEvent> {
    vec![
        InitEvent::Start,
        InitEvent::Lookup { status: STATUS_SUCCESS, driver: 0x55 },
        InitEvent::Snapshot { graph: DeviceGraph::new() },
        InitEvent::Logged,
        InitEvent::Released,
    ]
}

#[test]
fn init_event_out_of_turn_changes_nothing() {
    // For each state, the one kind of event that it waits for.
    let expected = [Some(0), Some(1), Some(1), Some(2), Some(3), Some(4), Some(4), Some(4), None];
    for (s, state) in states().into_iter().enumerate() {
        for (e, event) in events().into_iter().enumerate() {
            let mut binding = ResidentBinding { target_device: 0x77, callback: None };
            let (next, action) = init_step(InputClass::Pointer, &mut binding, state, event);
            if expected[s] == Some(e) {
                assert_ne!(action, InitAction::Unexpected);
                assert_ne!(next, state);
            } else {
                assert_eq!(action, InitAction::Unexpected);
                assert_eq!(next, state);
                assert_eq!(binding, ResidentBinding { target_device: 0x77, callback: None });
            }
        }
    }
}

#[test]
fn finished_sequence_stays_finished() {
    for event in events() {
        let (next, action) =
            init_step(InputClass::KeyEntry, &mut unbound(), InitState::Done, event);
        assert_eq!(next, InitState::Done);
        assert_eq!(action, InitAction::Unexpected);
    }
}

fn run_mouse(object: &mut MOUSE_OBJECT, host: &mut Host) -> i32 {
    let mut state = InitState::Idle;
    let mut event = InitEvent::Start;
    loop {
        let (next, action) = mouse_init(object, state, event);
        state = next;
        match host.perform(action) {
            Ok(answer) => event = answer,
            Err(status) => return status,
        }
    }
}

fn run_kbd(object: &mut KBD_OBJECT, host: &mut Host) -> i32 {
    let mut state = InitState::Idle;
    let mut event = InitEvent::Start;
    loop {
        let (next, action) = kbd_init(object, state, event);
        state = next;
        match host.perform(action) {
            Ok(answer) => event = answer,
            Err(status) => return status,
        }
    }
}

#[test]
fn mouse_init_locates_pointer_drivers_and_fills_object() {
    let mut host = Host::new((STATUS_SUCCESS, CLASS_DRIVER), (STATUS_SUCCESS, INTERFACE_DRIVER));
    let mut object = zeroed_mouse_object();
    assert_eq!(run_mouse(&mut object, &mut host), STATUS_SUCCESS);
    assert_eq!(object, MOUSE_OBJECT { mouse_device: DEVICE, service_callback: Some(CALLBACK) });
    assert_eq!(
        host.lookups,
        vec![
            name(InputClass::Pointer, DriverRole::Class),
            name(InputClass::Pointer, DriverRole::HardwareInterface)
        ]
    );
    assert_eq!(host.acquired, host.released);
}

#[test]
fn mouse_init_hands_back_failed_lookup_status() {
    let mut host = Host::new((STATUS_SUCCESS, CLASS_DRIVER), (STATUS_ACCESS_DENIED, 0));
    let mut object = zeroed_mouse_object();
    assert_eq!(run_mouse(&mut object, &mut host), STATUS_ACCESS_DENIED);
    assert_eq!(object, zeroed_mouse_object());
    assert_eq!(host.released, vec![CLASS_DRIVER]);
}

#[test]
fn kbd_init_locates_key_drivers_and_fills_object() {
    let mut host = Host::new((STATUS_SUCCESS, CLASS_DRIVER), (STATUS_SUCCESS, INTERFACE_DRIVER));
    let mut object = zeroed_kbd_object();
    assert_eq!(run_kbd(&mut object, &mut host), STATUS_SUCCESS);
    assert_eq!(object, KBD_OBJECT { kbd_device: DEVICE, service_callback: Some(CALLBACK) });
    assert_eq!(
        host.lookups,
        vec![
            name(InputClass::KeyEntry, DriverRole::Class),
            name(InputClass::KeyEntry, DriverRole::HardwareInterface)
        ]
    );
    assert_eq!(host.acquired, host.released);
}

#[test]
fn kbd_init_hands_back_failed_lookup_status() {
    let mut host = Host::new((STATUS_OBJECT_NAME_NOT_FOUND, 0), (STATUS_SUCCESS, 0));
    let mut object = zeroed_kbd_object();
    assert_eq!(run_kbd(&mut object, &mut host), STATUS_OBJECT_NAME_NOT_FOUND);
    assert_eq!(object, zeroed_kbd_object());
    assert!(host.released.is_empty());
}

#[test]
fn zeroed_objects_hold_nothing() {
    assert_eq!(zeroed_mouse_object(), MOUSE_OBJECT { mouse_device: 0, service_callback: None });
    assert_eq!(zeroed_kbd_object(), KBD_OBJECT { kbd_device: 0, service_callback: None });
}
