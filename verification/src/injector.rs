//! Event injection: one call of the discovered callback, at raised priority.
//!
//! Raising and lowering the execution priority and calling the callback are the
//! host's work. What is done, in which order and with which values is decided
//! here, by a step function: it takes the state of the injection and the event
//! that the host reports, and gives the next state and the action that the host
//! is to perform next. The host starts with [`InjectState::Idle`] and
//! [`InjectEvent::Start`], performs each action, reports its outcome as the next
//! event, and stops at [`InjectAction::Finish`].

use vstd::prelude::*;
use crate::kernel::{
    DISPATCH_LEVEL, KIRQL, NTSTATUS, STATUS_FAIL_CHECK, STATUS_SUCCESS, ULONG, ULONG_PTR,
};
use crate::discovery::ResidentBinding;

verus! {

/// One call of the service callback: the callback, the device it is called for,
/// and the single input record that is handed to it.
#[derive(Debug, PartialEq, Eq)]
pub struct Invocation<R> {
    pub callback: ULONG_PTR,
    pub device: ULONG_PTR,
    pub record: R,
}

impl<R: Copy> Clone for Invocation<R> {
    fn clone(&self) -> (copy: Self)
        ensures
            copy == *self,
    {
        *self
    }
}

impl<R: Copy> Copy for Invocation<R> {

}

/// Where an injection stands.
#[derive(Debug, PartialEq, Eq)]
pub enum InjectState<R> {
    /// Nothing has happened yet.
    Idle,
    /// The priority is being raised; the call is prepared.
    Raising { call: Invocation<R> },
    /// The callback is running. `previous` is the level that was in force before
    /// the raise.
    Calling { previous: KIRQL },
    /// The priority is being restored.
    Lowering,
    /// The injection has finished.
    Done,
}

impl<R: Copy> Clone for InjectState<R> {
    fn clone(&self) -> (copy: Self)
        ensures
            copy == *self,
    {
        *self
    }
}

impl<R: Copy> Copy for InjectState<R> {

}

/// What the host reports.
#[derive(Clone, Copy, Debug, PartialEq, Eq, Structural)]
pub enum InjectEvent {
    /// An injection is to begin.
    Start,
    /// The priority was raised; `previous` is the level that was in force before.
    Raised { previous: KIRQL },
    /// The callback returned `status` and reported `consumed` records as taken.
    Returned { status: NTSTATUS, consumed: ULONG },
    /// The priority was lowered.
    Lowered,
}

/// What the host is to do next.
#[derive(Debug, PartialEq, Eq)]
pub enum InjectAction<R> {
    /// Raise the execution priority to `level` and report the level before.
    Raise { level: KIRQL },
    /// Call the callback with the device, a buffer that holds the one record,
    /// the end of that buffer, and a place for the count of records consumed.
    Invoke { call: Invocation<R> },
    /// Lower the execution priority to `level`.
    Lower { level: KIRQL },
    /// Return `status` to the caller; the injection is over.
    Finish { status: NTSTATUS },
    /// The event does not answer the pending action. Nothing is to be done, and
    /// the state is as it was.
    Unexpected,
}

impl<R: Copy> Clone for InjectAction<R> {
    fn clone(&self) -> (copy: Self)
        ensures
            copy == *self,
    {
        *self
    }
}

impl<R: Copy> Copy for InjectAction<R> {

}

/// The step function of an injection.
///
/// - An injection through a binding without callback ends at once with
///   `STATUS_FAIL_CHECK`: nothing is raised and nothing is called.
/// - Otherwise the priority is raised to `DISPATCH_LEVEL`, the callback is
///   called with the binding's target device and the record, and the priority is
///   lowered to the level that the raise reported. What the callback returns is
///   not examined: the priority is restored and the injection ends in success
///   whatever it was.
///
/// `binding` and `record` are read by the first step only.
pub open spec fn inject_step_spec<R>(
    binding: ResidentBinding,
    record: R,
    state: InjectState<R>,
    event: InjectEvent,
) -> (InjectState<R>, InjectAction<R>) {
    match (state, event) {
        (InjectState::Idle, InjectEvent::Start) => match binding.callback {
            Some(callback) => (
                InjectState::Raising {
                    call: Invocation { callback, device: binding.target_device, record },
                },
                InjectAction::Raise { level: DISPATCH_LEVEL },
            ),
            None => (InjectState::Done, InjectAction::Finish { status: STATUS_FAIL_CHECK }),
        },
        (InjectState::Raising { call }, InjectEvent::Raised { previous }) => (
            InjectState::Calling { previous },
            InjectAction::Invoke { call },
        ),
        (InjectState::Calling { previous }, InjectEvent::Returned { .. }) => (
            InjectState::Lowering,
            InjectAction::Lower { level: previous },
        ),
        (InjectState::Lowering, InjectEvent::Lowered) => (
            InjectState::Done,
            InjectAction::Finish { status: STATUS_SUCCESS },
        ),
        _ => (state, InjectAction::Unexpected),
    }
}

/// Takes one step of an injection.
pub fn inject_step<R>(
    binding: &ResidentBinding,
    record: R,
    state: InjectState<R>,
    event: InjectEvent,
) -> (out: (InjectState<R>, InjectAction<R>))
    ensures
        out == inject_step_spec(*binding, record, state, event),
{
    match (state, event) {
        (InjectState::Idle, InjectEvent::Start) => match binding.callback {
            Some(callback) => (
                InjectState::Raising {
                    call: Invocation { callback, device: binding.target_device, record },
                },
                InjectAction::Raise { level: DISPATCH_LEVEL },
            ),
            None => (InjectState::Done, InjectAction::Finish { status: STATUS_FAIL_CHECK }),
        },
        (InjectState::Raising { call }, InjectEvent::Raised { previous }) => (
            InjectState::Calling { previous },
            InjectAction::Invoke { call },
        ),
        (InjectState::Calling { previous }, InjectEvent::Returned { .. }) => (
            InjectState::Lowering,
            InjectAction::Lower { level: previous },
        ),
        (InjectState::Lowering, InjectEvent::Lowered) => (
            InjectState::Done,
            InjectAction::Finish { status: STATUS_SUCCESS },
        ),
        (state, _) => (state, InjectAction::Unexpected),
    }
}

/// A call of the host's priority control.
#[derive(Clone, Copy, Debug, PartialEq, Eq, Structural)]
pub enum PriorityCall {
    Raise { level: KIRQL },
    Lower { level: KIRQL },
}

/// The priority-control call that an action asks for, if it asks for one.
pub open spec fn priority_call_of<R>(action: InjectAction<R>) -> Seq<PriorityCall> {
    match action {
        InjectAction::Raise { level } => seq![PriorityCall::Raise { level }],
        InjectAction::Lower { level } => seq![PriorityCall::Lower { level }],
        _ => Seq::empty(),
    }
}

/// The call of the callback that an action asks for, if it asks for one.
pub open spec fn invocation_of<R>(action: InjectAction<R>) -> Seq<Invocation<R>> {
    match action {
        InjectAction::Invoke { call } => seq![call],
        _ => Seq::empty(),
    }
}

/// The status that an action ends the injection with, if it ends it.
pub open spec fn status_of<R>(action: InjectAction<R>) -> Seq<NTSTATUS> {
    match action {
        InjectAction::Finish { status } => seq![status],
        _ => Seq::empty(),
    }
}

/// The level that an event records: the one that a raise reports as having been
/// in force before it, where the injection was waiting for that report.
pub open spec fn level_recorded_by<R>(state: InjectState<R>, event: InjectEvent) -> Seq<KIRQL> {
    match (state, event) {
        (InjectState::Raising { .. }, InjectEvent::Raised { previous }) => seq![previous],
        _ => Seq::empty(),
    }
}

/// Where a sequence of events leaves an injection, and what passed on the way.
pub struct InjectRun<R> {
    pub state: InjectState<R>,
    /// The actions that were asked, in order.
    pub actions: Seq<InjectAction<R>>,
    /// The priority-control calls among them, in order.
    pub priority_calls: Seq<PriorityCall>,
    /// The calls of the callback among them, in order.
    pub invocations: Seq<Invocation<R>>,
    /// The levels that raises reported as having been in force before them.
    pub recorded: Seq<KIRQL>,
    /// The statuses that were handed back to the caller.
    pub statuses: Seq<NTSTATUS>,
}

/// Feeds a sequence of events to the step function, one after the other,
/// starting from `Idle`.
pub open spec fn inject_run<R>(
    binding: ResidentBinding,
    record: R,
    events: Seq<InjectEvent>,
) -> InjectRun<R>
    decreases events.len(),
{
    if events.len() == 0 {
        InjectRun {
            state: InjectState::Idle,
            actions: Seq::empty(),
            priority_calls: Seq::empty(),
            invocations: Seq::empty(),
            recorded: Seq::empty(),
            statuses: Seq::empty(),
        }
    } else {
        let before = inject_run(binding, record, events.drop_last());
        let step = inject_step_spec(binding, record, before.state, events.last());
        InjectRun {
            state: step.0,
            actions: before.actions.push(step.1),
            priority_calls: before.priority_calls + priority_call_of(step.1),
            invocations: before.invocations + invocation_of(step.1),
            recorded: before.recorded + level_recorded_by(before.state, events.last()),
            statuses: before.statuses + status_of(step.1),
        }
    }
}

/// What holds of every run of an injection through a binding with a callback,
/// by the state that the run has reached: which calls were made so far, in which
/// order and with which values.
pub open spec fn hooked_run_ok<R>(binding: ResidentBinding, record: R, run: InjectRun<R>) -> bool {
    let call = Invocation {
        callback: binding.callback.unwrap(),
        device: binding.target_device,
        record,
    };
    let raise = PriorityCall::Raise { level: DISPATCH_LEVEL };
    match run.state {
        InjectState::Idle => {
            &&& run.priority_calls == Seq::<PriorityCall>::empty()
            &&& run.invocations == Seq::<Invocation<R>>::empty()
            &&& run.recorded == Seq::<KIRQL>::empty()
            &&& run.statuses == Seq::<NTSTATUS>::empty()
        },
        InjectState::Raising { call: prepared } => {
            &&& prepared == call
            &&& run.priority_calls == seq![raise]
            &&& run.invocations == Seq::<Invocation<R>>::empty()
            &&& run.recorded == Seq::<KIRQL>::empty()
            &&& run.statuses == Seq::<NTSTATUS>::empty()
        },
        InjectState::Calling { previous } => {
            &&& run.priority_calls == seq![raise]
            &&& run.invocations == seq![call]
            &&& run.recorded == seq![previous]
            &&& run.statuses == Seq::<NTSTATUS>::empty()
        },
        InjectState::Lowering => {
            &&& run.recorded.len() == 1
            &&& run.priority_calls == seq![raise, PriorityCall::Lower { level: run.recorded[0] }]
            &&& run.invocations == seq![call]
            &&& run.statuses == Seq::<NTSTATUS>::empty()
        },
        InjectState::Done => {
            &&& run.recorded.len() == 1
            &&& run.priority_calls == seq![raise, PriorityCall::Lower { level: run.recorded[0] }]
            &&& run.invocations == seq![call]
            &&& run.statuses == seq![STATUS_SUCCESS]
        },
    }
}

/// Injection gating: through a binding without callback nothing is ever raised,
/// lowered or called, whatever events arrive. The first `Start` ends the
/// injection with `STATUS_FAIL_CHECK`, and that is all that is ever handed back.
pub proof fn law_injection_gating<R>(binding: ResidentBinding, record: R, events: Seq<InjectEvent>)
    requires
        binding.callback is None,
    ensures
        inject_run(binding, record, events).priority_calls == Seq::<PriorityCall>::empty(),
        inject_run(binding, record, events).invocations == Seq::<Invocation<R>>::empty(),
        inject_run(binding, record, events).recorded == Seq::<KIRQL>::empty(),
        inject_run(binding, record, events).state == InjectState::<R>::Idle || inject_run(
            binding,
            record,
            events,
        ).state == InjectState::<R>::Done,
        inject_run(binding, record, events).state == InjectState::<R>::Idle <==> inject_run(
            binding,
            record,
            events,
        ).statuses == Seq::<NTSTATUS>::empty(),
        inject_run(binding, record, events).state == InjectState::<R>::Done <==> inject_run(
            binding,
            record,
            events,
        ).statuses == seq![STATUS_FAIL_CHECK],
        events.contains(InjectEvent::Start) ==> inject_run(binding, record, events).state
            == InjectState::<R>::Done,
    decreases events.len(),
{
    if events.len() > 0 {
        law_injection_gating(binding, record, events.drop_last());
        let before = inject_run(binding, record, events.drop_last());
        let run = inject_run(binding, record, events);
        assert(run.priority_calls =~= Seq::<PriorityCall>::empty());
        assert(run.invocations =~= Seq::<Invocation<R>>::empty());
        assert(run.recorded =~= Seq::<KIRQL>::empty());
        if before.state == InjectState::<R>::Idle {
            if events.last() == InjectEvent::Start {
                assert(run.statuses =~= seq![STATUS_FAIL_CHECK]);
            } else {
                assert(run.statuses =~= Seq::<NTSTATUS>::empty());
            }
        } else {
            assert(run.statuses =~= seq![STATUS_FAIL_CHECK]);
        }
        if events.contains(InjectEvent::Start) {
            let at = choose|at: int| 0 <= at < events.len() && events[at] == InjectEvent::Start;
            if at < events.len() - 1 {
                assert(events.drop_last()[at] == InjectEvent::Start);
                assert(events.drop_last().contains(InjectEvent::Start));
            }
        }
    }
}

/// Priority pairing: through a binding with a callback, whatever events arrive,
/// the calls of priority control are a raise to `DISPATCH_LEVEL` and then a lower
/// to the level that the raise reported, in that order, and none besides. The
/// callback is called once, between the two, with the binding's target device
/// and the record. An injection that has finished has made both calls and has
/// handed back success.
pub proof fn law_priority_pairing<R>(binding: ResidentBinding, record: R, events: Seq<InjectEvent>)
    requires
        binding.callback is Some,
    ensures
        hooked_run_ok(binding, record, inject_run(binding, record, events)),
        inject_run(binding, record, events).state == InjectState::<R>::Done ==> {
            &&& inject_run(binding, record, events).recorded.len() == 1
            &&& inject_run(binding, record, events).priority_calls == seq![
                PriorityCall::Raise { level: DISPATCH_LEVEL },
                PriorityCall::Lower { level: inject_run(binding, record, events).recorded[0] },
            ]
            &&& inject_run(binding, record, events).statuses == seq![STATUS_SUCCESS]
        },
    decreases events.len(),
{
    let run = inject_run(binding, record, events);
    if events.len() > 0 {
        law_priority_pairing(binding, record, events.drop_last());
        let before = inject_run(binding, record, events.drop_last());
        let step = inject_step_spec(binding, record, before.state, events.last());
        let raise = PriorityCall::Raise { level: DISPATCH_LEVEL };
        let call = Invocation {
            callback: binding.callback.unwrap(),
            device: binding.target_device,
            record,
        };
        assert(run.priority_calls =~= before.priority_calls + priority_call_of(step.1));
        assert(run.invocations =~= before.invocations + invocation_of(step.1));
        assert(run.recorded =~= before.recorded + level_recorded_by(before.state, events.last()));
        assert(run.statuses =~= before.statuses + status_of(step.1));
        match run.state {
            InjectState::Idle => {
                assert(run.priority_calls =~= Seq::<PriorityCall>::empty());
                assert(run.invocations =~= Seq::<Invocation<R>>::empty());
                assert(run.recorded =~= Seq::<KIRQL>::empty());
                assert(run.statuses =~= Seq::<NTSTATUS>::empty());
            },
            InjectState::Raising { .. } => {
                assert(run.priority_calls =~= seq![raise]);
                assert(run.invocations =~= Seq::<Invocation<R>>::empty());
                assert(run.recorded =~= Seq::<KIRQL>::empty());
                assert(run.statuses =~= Seq::<NTSTATUS>::empty());
            },
            InjectState::Calling { previous } => {
                assert(run.priority_calls =~= seq![raise]);
                assert(run.invocations =~= seq![call]);
                assert(run.recorded =~= seq![previous]);
                assert(run.statuses =~= Seq::<NTSTATUS>::empty());
            },
            InjectState::Lowering => {
                assert(run.recorded.len() == 1);
                assert(run.priority_calls =~= seq![
                    raise,
                    PriorityCall::Lower { level: run.recorded[0] },
                ]);
                assert(run.invocations =~= seq![call]);
                assert(run.statuses =~= Seq::<NTSTATUS>::empty());
            },
            InjectState::Done => {
                assert(run.recorded.len() == 1);
                assert(run.priority_calls =~= seq![
                    raise,
                    PriorityCall::Lower { level: run.recorded[0] },
                ]);
                assert(run.invocations =~= seq![call]);
                assert(run.statuses =~= seq![STATUS_SUCCESS]);
            },
        }
    }
}

/// The events of an injection in which the host answers each action.
pub open spec fn answered_events(previous: KIRQL, status: NTSTATUS, consumed: ULONG) -> Seq<
    InjectEvent,
> {
    seq![
        InjectEvent::Start,
        InjectEvent::Raised { previous },
        InjectEvent::Returned { status, consumed },
        InjectEvent::Lowered,
    ]
}

/// A successful injection, step by step: raise to `DISPATCH_LEVEL`, call the
/// callback with the target device and the record, lower to the level that was
/// in force before the raise, and hand back success. This holds for every record
/// and every level, and whatever the callback returns.
pub proof fn law_injection_sequence<R>(
    binding: ResidentBinding,
    record: R,
    previous: KIRQL,
    status: NTSTATUS,
    consumed: ULONG,
)
    requires
        binding.callback is Some,
    ensures
        inject_run(binding, record, answered_events(previous, status, consumed)).state
            == InjectState::<R>::Done,
        inject_run(binding, record, answered_events(previous, status, consumed)).actions == seq![
            InjectAction::Raise { level: DISPATCH_LEVEL },
            InjectAction::Invoke {
                call: Invocation {
                    callback: binding.callback.unwrap(),
                    device: binding.target_device,
                    record,
                },
            },
            InjectAction::Lower { level: previous },
            InjectAction::Finish { status: STATUS_SUCCESS },
        ],
        inject_run(binding, record, answered_events(previous, status, consumed)).priority_calls
            == seq![
            PriorityCall::Raise { level: DISPATCH_LEVEL },
            PriorityCall::Lower { level: previous },
        ],
{
    reveal_with_fuel(inject_run, 5);
    let events = answered_events(previous, status, consumed);
    let e3 = events.drop_last();
    let e2 = e3.drop_last();
    let e1 = e2.drop_last();
    assert(e1.drop_last().len() == 0);
    assert(e1.last() == InjectEvent::Start);
    assert(e2.last() == InjectEvent::Raised { previous });
    assert(e3.last() == InjectEvent::Returned { status, consumed });
    assert(events.last() == InjectEvent::Lowered);
    let run = inject_run(binding, record, events);
    assert(run.actions =~= seq![
        InjectAction::Raise { level: DISPATCH_LEVEL },
        InjectAction::Invoke {
            call: Invocation {
                callback: binding.callback.unwrap(),
                device: binding.target_device,
                record,
            },
        },
        InjectAction::Lower { level: previous },
        InjectAction::Finish { status: STATUS_SUCCESS },
    ]);
    assert(run.priority_calls =~= seq![
        PriorityCall::Raise { level: DISPATCH_LEVEL },
        PriorityCall::Lower { level: previous },
    ]);
}

} // verus!
