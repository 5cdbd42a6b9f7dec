//! The initialisation sequence: locate two drivers, run discovery, release them.
//!
//! Looking a driver up, reading kernel memory and releasing a driver are the
//! host's work. The decisions between them are made here, by a step function:
//! it takes the state of the sequence and the event that the host reports, and
//! gives the next state and the action that the host is to perform next. The
//! host starts with [`InitState::Idle`] and [`InitEvent::Start`], performs each
//! action, reports its outcome as the next event, and stops at
//! [`InitAction::Finish`].

use vstd::prelude::*;
use vstd::multiset::Multiset;
use crate::kernel::{NTSTATUS, OBJ_CASE_INSENSITIVE, STATUS_SUCCESS, ULONG, ULONG_PTR};
use crate::graph::DeviceGraph;
use crate::discovery::{discover, discovered, ResidentBinding};

verus! {

pub const MOUSE_DRIVER_CLASS_NAME: &'static str = "\\Driver\\MouClass";

pub const MOUSE_DRIVER_HID_NAME: &'static str = "\\Driver\\MouHID";

pub const KBD_DRIVER_CLASS_NAME: &'static str = "\\Driver\\KbdClass";

pub const KBD_DRIVER_HID_NAME: &'static str = "\\Driver\\ASWkbd";

/// The class of input that a pipeline serves.
#[derive(Clone, Copy, Debug, PartialEq, Eq, Structural)]
pub enum InputClass {
    /// Pointer devices.
    Pointer,
    /// Key-entry devices.
    KeyEntry,
}

/// Which of a pipeline's two drivers is meant.
#[derive(Clone, Copy, Debug, PartialEq, Eq, Structural)]
pub enum DriverRole {
    /// The class driver, whose callback is sought.
    Class,
    /// The hardware-interface driver, whose device memory is scanned.
    HardwareInterface,
}

/// A driver that the locator looks up.
#[derive(Clone, Copy, Debug, PartialEq, Eq, Structural)]
pub struct DriverName {
    pub class: InputClass,
    pub role: DriverRole,
}

impl DriverName {
    /// The driver's path in the object namespace.
    pub open spec fn path_of(self) -> Seq<char> {
        match (self.class, self.role) {
            (InputClass::Pointer, DriverRole::Class) => MOUSE_DRIVER_CLASS_NAME@,
            (InputClass::Pointer, DriverRole::HardwareInterface) => MOUSE_DRIVER_HID_NAME@,
            (InputClass::KeyEntry, DriverRole::Class) => KBD_DRIVER_CLASS_NAME@,
            (InputClass::KeyEntry, DriverRole::HardwareInterface) => KBD_DRIVER_HID_NAME@,
        }
    }

    /// The driver's path in the object namespace.
    pub fn path(&self) -> (path: &'static str)
        ensures
            path@ == self.path_of(),
    {
        match (self.class, self.role) {
            (InputClass::Pointer, DriverRole::Class) => MOUSE_DRIVER_CLASS_NAME,
            (InputClass::Pointer, DriverRole::HardwareInterface) => MOUSE_DRIVER_HID_NAME,
            (InputClass::KeyEntry, DriverRole::Class) => KBD_DRIVER_CLASS_NAME,
            (InputClass::KeyEntry, DriverRole::HardwareInterface) => KBD_DRIVER_HID_NAME,
        }
    }
}

/// Something to be reported that is no failure.
#[derive(Clone, Copy, Debug, PartialEq, Eq, Structural)]
pub enum Notice {
    /// The bounds of the scanned device's private region are null or out of
    /// order, so nothing was scanned.
    DegenerateRegion,
}

/// Where the sequence stands. A driver is named by the address of its object,
/// which is also the handle that a successful lookup returns.
#[derive(Clone, Copy, Debug, PartialEq, Eq, Structural)]
pub enum InitState {
    /// Nothing has happened yet.
    Idle,
    /// The class driver is being looked up.
    AwaitingClass,
    /// The class driver is held; the hardware-interface driver is being looked up.
    AwaitingInterface { class_driver: ULONG_PTR },
    /// Both drivers are held; their devices are being read.
    AwaitingSnapshot { class_driver: ULONG_PTR, interface_driver: ULONG_PTR },
    /// Discovery is done and a notice is being reported; both drivers are held.
    Reporting { class_driver: ULONG_PTR, interface_driver: ULONG_PTR },
    /// The class driver is being released; the hardware-interface driver is held.
    ReleasingClass { interface_driver: ULONG_PTR },
    /// The hardware-interface driver is being released.
    ReleasingInterface,
    /// The second lookup failed with `status`; the class driver is being released.
    Abandoning { status: NTSTATUS },
    /// The sequence has finished.
    Done,
}

/// What the host reports.
pub enum InitEvent {
    /// The sequence is to begin.
    Start,
    /// A lookup returned `status`, and on success the driver's handle.
    Lookup { status: NTSTATUS, driver: ULONG_PTR },
    /// The devices of both drivers were read.
    Snapshot { graph: DeviceGraph },
    /// A notice was reported.
    Logged,
    /// A driver was released.
    Released,
}

/// What the host is to do next.
#[derive(Clone, Copy, Debug, PartialEq, Eq, Structural)]
pub enum InitAction {
    /// Look the driver up by name, with the given lookup attributes.
    Lookup { name: DriverName, attributes: ULONG },
    /// Read the devices of both drivers into a graph.
    Snapshot { class_driver: ULONG_PTR, interface_driver: ULONG_PTR },
    /// Report a notice.
    Log { notice: Notice },
    /// Release a driver that a lookup returned.
    Release { driver: ULONG_PTR },
    /// Return `status` to the caller; the sequence is over.
    Finish { status: NTSTATUS },
    /// The event does not answer the pending action. Nothing is to be done, and
    /// the state is as it was.
    Unexpected,
}

/// The result of one step.
pub struct InitStep {
    pub binding: ResidentBinding,
    pub state: InitState,
    pub action: InitAction,
}

/// The lookup of one of a pipeline's drivers. Names are compared without regard
/// to case, as the object namespace does.
pub open spec fn lookup_of(class: InputClass, role: DriverRole) -> InitAction {
    InitAction::Lookup { name: DriverName { class, role }, attributes: OBJ_CASE_INSENSITIVE }
}

/// The step function of the initialisation sequence.
///
/// - The class driver is looked up first. A failed lookup ends the sequence with
///   the lookup's status, unchanged.
/// - The hardware-interface driver is looked up next. Where that fails, the
///   class driver is released before the sequence ends with the lookup's status.
/// - With both drivers held, their devices are read and discovery runs on them:
///   this is the only step that changes the binding. A region that was skipped
///   is reported.
/// - Both drivers are released, the class driver first, and the sequence ends in
///   success, whether a callback was found or not.
pub open spec fn init_step_spec(
    class: InputClass,
    binding: ResidentBinding,
    state: InitState,
    event: InitEvent,
) -> InitStep {
    match (state, event) {
        (InitState::Idle, InitEvent::Start) => InitStep {
            binding,
            state: InitState::AwaitingClass,
            action: lookup_of(class, DriverRole::Class),
        },
        (InitState::AwaitingClass, InitEvent::Lookup { status, driver }) => {
            if status == STATUS_SUCCESS {
                InitStep {
                    binding,
                    state: InitState::AwaitingInterface { class_driver: driver },
                    action: lookup_of(class, DriverRole::HardwareInterface),
                }
            } else {
                InitStep { binding, state: InitState::Done, action: InitAction::Finish { status } }
            }
        },
        (InitState::AwaitingInterface { class_driver }, InitEvent::Lookup { status, driver }) => {
            if status == STATUS_SUCCESS {
                InitStep {
                    binding,
                    state: InitState::AwaitingSnapshot { class_driver, interface_driver: driver },
                    action: InitAction::Snapshot { class_driver, interface_driver: driver },
                }
            } else {
                InitStep {
                    binding,
                    state: InitState::Abandoning { status },
                    action: InitAction::Release { driver: class_driver },
                }
            }
        },
        (InitState::Abandoning { status }, InitEvent::Released) => InitStep {
            binding,
            state: InitState::Done,
            action: InitAction::Finish { status },
        },
        (
            InitState::AwaitingSnapshot { class_driver, interface_driver },
            InitEvent::Snapshot { graph },
        ) => {
            let found = discovered(graph@, class_driver, binding);
            if found.region_skipped {
                InitStep {
                    binding: found.binding,
                    state: InitState::Reporting { class_driver, interface_driver },
                    action: InitAction::Log { notice: Notice::DegenerateRegion },
                }
            } else {
                InitStep {
                    binding: found.binding,
                    state: InitState::ReleasingClass { interface_driver },
                    action: InitAction::Release { driver: class_driver },
                }
            }
        },
        (InitState::Reporting { class_driver, interface_driver }, InitEvent::Logged) => InitStep {
            binding,
            state: InitState::ReleasingClass { interface_driver },
            action: InitAction::Release { driver: class_driver },
        },
        (InitState::ReleasingClass { interface_driver }, InitEvent::Released) => InitStep {
            binding,
            state: InitState::ReleasingInterface,
            action: InitAction::Release { driver: interface_driver },
        },
        (InitState::ReleasingInterface, InitEvent::Released) => InitStep {
            binding,
            state: InitState::Done,
            action: InitAction::Finish { status: STATUS_SUCCESS },
        },
        _ => InitStep { binding, state, action: InitAction::Unexpected },
    }
}

/// Takes one step of the initialisation sequence of an input class.
///
/// `binding` is the pipeline's resident binding; only the step that runs
/// discovery writes to it.
pub fn init_step(
    class: InputClass,
    binding: &mut ResidentBinding,
    state: InitState,
    event: InitEvent,
) -> (out: (InitState, InitAction))
    ensures
        out.0 == init_step_spec(class, *old(binding), state, event).state,
        out.1 == init_step_spec(class, *old(binding), state, event).action,
        *final(binding) == init_step_spec(class, *old(binding), state, event).binding,
{
    match (state, event) {
        (InitState::Idle, InitEvent::Start) => (
            InitState::AwaitingClass,
            InitAction::Lookup {
                name: DriverName { class, role: DriverRole::Class },
                attributes: OBJ_CASE_INSENSITIVE,
            },
        ),
        (InitState::AwaitingClass, InitEvent::Lookup { status, driver }) => {
            if status == STATUS_SUCCESS {
                (
                    InitState::AwaitingInterface { class_driver: driver },
                    InitAction::Lookup {
                        name: DriverName { class, role: DriverRole::HardwareInterface },
                        attributes: OBJ_CASE_INSENSITIVE,
                    },
                )
            } else {
                (InitState::Done, InitAction::Finish { status })
            }
        },
        (InitState::AwaitingInterface { class_driver }, InitEvent::Lookup { status, driver }) => {
            if status == STATUS_SUCCESS {
                (
                    InitState::AwaitingSnapshot { class_driver, interface_driver: driver },
                    InitAction::Snapshot { class_driver, interface_driver: driver },
                )
            } else {
                (InitState::Abandoning { status }, InitAction::Release { driver: class_driver })
            }
        },
        (InitState::Abandoning { status }, InitEvent::Released) => (
            InitState::Done,
            InitAction::Finish { status },
        ),
        (
            InitState::AwaitingSnapshot { class_driver, interface_driver },
            InitEvent::Snapshot { graph },
        ) => {
            let found = discover(&graph, class_driver, *binding);
            *binding = found.binding;
            if found.region_skipped {
                (
                    InitState::Reporting { class_driver, interface_driver },
                    InitAction::Log { notice: Notice::DegenerateRegion },
                )
            } else {
                (
                    InitState::ReleasingClass { interface_driver },
                    InitAction::Release { driver: class_driver },
                )
            }
        },
        (InitState::Reporting { class_driver, interface_driver }, InitEvent::Logged) => (
            InitState::ReleasingClass { interface_driver },
            InitAction::Release { driver: class_driver },
        ),
        (InitState::ReleasingClass { interface_driver }, InitEvent::Released) => (
            InitState::ReleasingInterface,
            InitAction::Release { driver: interface_driver },
        ),
        (InitState::ReleasingInterface, InitEvent::Released) => (
            InitState::Done,
            InitAction::Finish { status: STATUS_SUCCESS },
        ),
        (state, _) => (state, InitAction::Unexpected),
    }
}

/// The handles that a state holds: those that a lookup has returned and for
/// which no release has been asked yet.
pub open spec fn held(state: InitState) -> Multiset<ULONG_PTR> {
    match state {
        InitState::AwaitingInterface { class_driver } => Multiset::singleton(class_driver),
        InitState::AwaitingSnapshot { class_driver, interface_driver } => Multiset::singleton(
            class_driver,
        ).insert(interface_driver),
        InitState::Reporting { class_driver, interface_driver } => Multiset::singleton(
            class_driver,
        ).insert(interface_driver),
        InitState::ReleasingClass { interface_driver } => Multiset::singleton(interface_driver),
        _ => Multiset::empty(),
    }
}

/// The handle that an event hands to the sequence: that of a successful lookup
/// which the state was waiting for.
pub open spec fn acquired_by(state: InitState, event: InitEvent) -> Multiset<ULONG_PTR> {
    match (state, event) {
        (InitState::AwaitingClass, InitEvent::Lookup { status, driver }) => if status
            == STATUS_SUCCESS {
            Multiset::singleton(driver)
        } else {
            Multiset::empty()
        },
        (InitState::AwaitingInterface { .. }, InitEvent::Lookup { status, driver }) => if status
            == STATUS_SUCCESS {
            Multiset::singleton(driver)
        } else {
            Multiset::empty()
        },
        _ => Multiset::empty(),
    }
}

/// The handle that an action gives back.
pub open spec fn released_by(action: InitAction) -> Multiset<ULONG_PTR> {
    match action {
        InitAction::Release { driver } => Multiset::singleton(driver),
        _ => Multiset::empty(),
    }
}

/// Where a sequence of events leaves the machine, and what passed on the way.
pub struct InitRun {
    pub binding: ResidentBinding,
    pub state: InitState,
    /// The handles that lookups returned.
    pub acquired: Multiset<ULONG_PTR>,
    /// The handles whose release was asked.
    pub released: Multiset<ULONG_PTR>,
    /// The actions that were asked, in order.
    pub actions: Seq<InitAction>,
}

/// Feeds a sequence of events to the step function, one after the other.
pub open spec fn init_run(
    class: InputClass,
    binding: ResidentBinding,
    state: InitState,
    events: Seq<InitEvent>,
) -> InitRun
    decreases events.len(),
{
    if events.len() == 0 {
        InitRun {
            binding,
            state,
            acquired: Multiset::empty(),
            released: Multiset::empty(),
            actions: Seq::empty(),
        }
    } else {
        let step = init_step_spec(class, binding, state, events[0]);
        let rest = init_run(class, step.binding, step.state, events.drop_first());
        InitRun {
            binding: rest.binding,
            state: rest.state,
            acquired: acquired_by(state, events[0]).add(rest.acquired),
            released: released_by(step.action).add(rest.released),
            actions: seq![step.action] + rest.actions,
        }
    }
}

/// One step keeps the books: what was held before and what the event hands in is
/// what the action gives back and what is held after.
pub proof fn lemma_step_balance(
    class: InputClass,
    binding: ResidentBinding,
    state: InitState,
    event: InitEvent,
)
    ensures
        held(state).add(acquired_by(state, event)) =~= released_by(
            init_step_spec(class, binding, state, event).action,
        ).add(held(init_step_spec(class, binding, state, event).state)),
{
}

/// Handle balance: whatever events arrive, every handle that a lookup returned
/// is either released or still held, and nothing else is released. A sequence
/// that has finished holds nothing, so on every path to the end, the failed
/// ones too, each acquired handle has been released exactly once.
pub proof fn law_handle_balance(
    class: InputClass,
    binding: ResidentBinding,
    state: InitState,
    events: Seq<InitEvent>,
)
    ensures
        held(state).add(init_run(class, binding, state, events).acquired) =~= init_run(
            class,
            binding,
            state,
            events,
        ).released.add(held(init_run(class, binding, state, events).state)),
        state == InitState::Idle && init_run(class, binding, state, events).state
            == InitState::Done ==> {
            &&& init_run(class, binding, state, events).acquired == init_run(
                class,
                binding,
                state,
                events,
            ).released
            &&& init_run(class, binding, state, events).acquired.len() == init_run(
                class,
                binding,
                state,
                events,
            ).released.len()
        },
    decreases events.len(),
{
    let run = init_run(class, binding, state, events);
    if events.len() > 0 {
        let step = init_step_spec(class, binding, state, events[0]);
        let rest = init_run(class, step.binding, step.state, events.drop_first());
        lemma_step_balance(class, binding, state, events[0]);
        law_handle_balance(class, step.binding, step.state, events.drop_first());
        assert forall|handle: ULONG_PTR|
            held(state).add(run.acquired).count(handle) == run.released.add(
                held(run.state),
            ).count(handle) by {
            assert(held(state).add(acquired_by(state, events[0])).count(handle) == released_by(
                step.action,
            ).add(held(step.state)).count(handle));
            assert(held(step.state).add(rest.acquired).count(handle) == rest.released.add(
                held(rest.state),
            ).count(handle));
        }
    }
    assert(held(state).add(run.acquired) =~= run.released.add(held(run.state)));
    if state == InitState::Idle && run.state == InitState::Done {
        assert(run.acquired =~= run.released);
    }
}

/// A finished sequence stays finished: no event leads out of `Done`, and none
/// makes it ask for anything.
pub proof fn law_done_is_final(class: InputClass, binding: ResidentBinding, event: InitEvent)
    ensures
        init_step_spec(class, binding, InitState::Done, event).state == InitState::Done,
        init_step_spec(class, binding, InitState::Done, event).action == InitAction::Unexpected,
        init_step_spec(class, binding, InitState::Done, event).binding == binding,
{
}

/// Write-once: a binding that holds a callback comes out of every sequence of
/// events as it went in.
pub proof fn law_published_binding_is_final(
    class: InputClass,
    binding: ResidentBinding,
    state: InitState,
    events: Seq<InitEvent>,
)
    requires
        binding.callback is Some,
    ensures
        init_run(class, binding, state, events).binding == binding,
    decreases events.len(),
{
    if events.len() > 0 {
        let step = init_step_spec(class, binding, state, events[0]);
        assert(step.binding == binding);
        law_published_binding_is_final(class, binding, step.state, events.drop_first());
    }
}

/// The first exit: the class driver is not found. Nothing was acquired, nothing
/// is released, the binding is untouched, and the lookup's status is handed back
/// as it came.
pub proof fn law_class_lookup_failure(
    class: InputClass,
    binding: ResidentBinding,
    status: NTSTATUS,
    driver: ULONG_PTR,
)
    requires
        status != STATUS_SUCCESS,
    ensures
        init_run(
            class,
            binding,
            InitState::Idle,
            seq![InitEvent::Start, InitEvent::Lookup { status, driver }],
        ) == (InitRun {
            binding,
            state: InitState::Done,
            acquired: Multiset::empty(),
            released: Multiset::empty(),
            actions: seq![lookup_of(class, DriverRole::Class), InitAction::Finish { status }],
        }),
{
    reveal_with_fuel(init_run, 3);
    let events = seq![InitEvent::Start, InitEvent::Lookup { status, driver }];
    let run = init_run(class, binding, InitState::Idle, events);
    assert(events.drop_first().drop_first().len() == 0);
    assert(run.actions =~= seq![
        lookup_of(class, DriverRole::Class),
        InitAction::Finish { status },
    ]);
    assert(run.acquired =~= Multiset::empty());
    assert(run.released =~= Multiset::empty());
}

/// The second exit: the class driver is found and the hardware-interface driver
/// is not. The class driver is released before the sequence ends, the binding
/// is untouched, and the status of the failed lookup is handed back as it came.
pub proof fn law_interface_lookup_failure(
    class: InputClass,
    binding: ResidentBinding,
    class_driver: ULONG_PTR,
    status: NTSTATUS,
    driver: ULONG_PTR,
)
    requires
        status != STATUS_SUCCESS,
    ensures
        init_run(
            class,
            binding,
            InitState::Idle,
            seq![
                InitEvent::Start,
                InitEvent::Lookup { status: STATUS_SUCCESS, driver: class_driver },
                InitEvent::Lookup { status, driver },
                InitEvent::Released,
            ],
        ) == (InitRun {
            binding,
            state: InitState::Done,
            acquired: Multiset::singleton(class_driver),
            released: Multiset::singleton(class_driver),
            actions: seq![
                lookup_of(class, DriverRole::Class),
                lookup_of(class, DriverRole::HardwareInterface),
                InitAction::Release { driver: class_driver },
                InitAction::Finish { status },
            ],
        }),
{
    reveal_with_fuel(init_run, 5);
    let events = seq![
        InitEvent::Start,
        InitEvent::Lookup { status: STATUS_SUCCESS, driver: class_driver },
        InitEvent::Lookup { status, driver },
        InitEvent::Released,
    ];
    let run = init_run(class, binding, InitState::Idle, events);
    let e1 = events.drop_first();
    let e2 = e1.drop_first();
    let e3 = e2.drop_first();
    assert(e3.drop_first().len() == 0);
    assert(run.actions =~= seq![
        lookup_of(class, DriverRole::Class),
        lookup_of(class, DriverRole::HardwareInterface),
        InitAction::Release { driver: class_driver },
        InitAction::Finish { status },
    ]);
    assert(run.acquired =~= Multiset::singleton(class_driver));
    assert(run.released =~= Multiset::singleton(class_driver));
}

/// The events of a sequence in which both lookups succeed.
pub open spec fn success_events(
    class_driver: ULONG_PTR,
    interface_driver: ULONG_PTR,
    graph: DeviceGraph,
    skipped: bool,
) -> Seq<InitEvent> {
    let lookups = seq![
        InitEvent::Start,
        InitEvent::Lookup { status: STATUS_SUCCESS, driver: class_driver },
        InitEvent::Lookup { status: STATUS_SUCCESS, driver: interface_driver },
        InitEvent::Snapshot { graph },
    ];
    let releases = seq![InitEvent::Released, InitEvent::Released];
    if skipped {
        lookups + seq![InitEvent::Logged] + releases
    } else {
        lookups + releases
    }
}

/// The actions of a sequence in which both lookups succeed.
pub open spec fn success_actions(
    class: InputClass,
    class_driver: ULONG_PTR,
    interface_driver: ULONG_PTR,
    skipped: bool,
) -> Seq<InitAction> {
    let lookups = seq![
        lookup_of(class, DriverRole::Class),
        lookup_of(class, DriverRole::HardwareInterface),
        InitAction::Snapshot { class_driver, interface_driver },
    ];
    let releases = seq![
        InitAction::Release { driver: class_driver },
        InitAction::Release { driver: interface_driver },
        InitAction::Finish { status: STATUS_SUCCESS },
    ];
    if skipped {
        lookups + seq![InitAction::Log { notice: Notice::DegenerateRegion }] + releases
    } else {
        lookups + releases
    }
}

/// The third exit: both drivers are found. Discovery runs on their devices
/// against the address of the class driver, a skipped region is reported, both
/// drivers are released, and the sequence ends in success whether or not a
/// callback was found.
pub proof fn law_discovery_completes(
    class: InputClass,
    binding: ResidentBinding,
    class_driver: ULONG_PTR,
    interface_driver: ULONG_PTR,
    graph: DeviceGraph,
)
    ensures
        init_run(
            class,
            binding,
            InitState::Idle,
            success_events(
                class_driver,
                interface_driver,
                graph,
                discovered(graph@, class_driver, binding).region_skipped,
            ),
        ) == (InitRun {
            binding: discovered(graph@, class_driver, binding).binding,
            state: InitState::Done,
            acquired: Multiset::singleton(class_driver).insert(interface_driver),
            released: Multiset::singleton(class_driver).insert(interface_driver),
            actions: success_actions(
                class,
                class_driver,
                interface_driver,
                discovered(graph@, class_driver, binding).region_skipped,
            ),
        }),
{
    reveal_with_fuel(init_run, 8);
    let skipped = discovered(graph@, class_driver, binding).region_skipped;
    let events = success_events(class_driver, interface_driver, graph, skipped);
    let run = init_run(class, binding, InitState::Idle, events);
    let e1 = events.drop_first();
    let e2 = e1.drop_first();
    let e3 = e2.drop_first();
    let e4 = e3.drop_first();
    let e5 = e4.drop_first();
    let e6 = e5.drop_first();
    assert(events[3] == InitEvent::Snapshot { graph });
    if skipped {
        assert(e6.drop_first().len() == 0);
        assert(e4[0] == InitEvent::Logged);
        assert(e5[0] == InitEvent::Released);
        assert(e6[0] == InitEvent::Released);
    } else {
        assert(e6.len() == 0);
        assert(e4[0] == InitEvent::Released);
        assert(e5[0] == InitEvent::Released);
    }
    assert(run.actions =~= success_actions(class, class_driver, interface_driver, skipped));
    assert(run.acquired =~= Multiset::singleton(class_driver).insert(interface_driver));
    assert(run.released =~= Multiset::singleton(class_driver).insert(interface_driver));
}

} // verus!
