use vstd::prelude::*;
use crate::error::{ExportError, ExportOutcome};

verus! {

/// Where one export stands.
pub enum FlowState {
    /// Nothing has happened yet.
    Idle,
    /// The native call is being issued.
    Dispatched,
    /// The native call registered its completion; its outcome is awaited.
    AwaitingCallback,
    /// The payload is being written to the destination.
    Writing,
    /// Exactly one result has been reported; nothing more happens.
    Finished,
}

/// What the surrounding host tells the export about the outside work it did.
pub enum FlowEvent {
    /// The export was requested; `native_capable` is the build's capability gate.
    Start { native_capable: bool },
    /// The native call was issued: `Err` carries the description of a synchronous failure.
    Registered(Result<(), String>),
    /// The awaited outcome of the native operation arrived.
    Resolved(ExportOutcome),
    /// The payload was written, or the write failed with this description.
    Written(Result<(), String>),
}

/// What the export asks the surrounding host to do next.
pub enum FlowAction {
    /// Arm a delivery channel and issue the native call with its delivery half.
    CallNative,
    /// Await the outcome on the awaiting half.
    AwaitOutcome,
    /// Write `bytes` verbatim to `path`, in one attempt, replacing any file
    /// there whole or not at all: afterwards `path` holds either all of
    /// `bytes` or what it held before, never a part.
    WriteFile { path: String, bytes: Vec<u8> },
    /// Hand this result to the caller; the export is over.
    Report(Result<(), ExportError>),
    /// The event does not apply where the export stands; nothing to do.
    Ignore,
}

/// One transition of the export: the state after `e`, and the action it asks for.
pub open spec fn next(s: FlowState, destination: String, e: FlowEvent) -> (FlowState, FlowAction) {
    match (s, e) {
        (FlowState::Idle, FlowEvent::Start { native_capable }) => if native_capable {
            (FlowState::Dispatched, FlowAction::CallNative)
        } else {
            (FlowState::Finished, FlowAction::Report(Err(ExportError::UnsupportedPlatform)))
        },
        (FlowState::Dispatched, FlowEvent::Registered(r)) => match r {
            Ok(_) => (FlowState::AwaitingCallback, FlowAction::AwaitOutcome),
            Err(m) => (
                FlowState::Finished,
                FlowAction::Report(Err(ExportError::NativeRegistrationFailed(m))),
            ),
        },
        (FlowState::AwaitingCallback, FlowEvent::Resolved(o)) => match o {
            Ok(bytes) => (FlowState::Writing, FlowAction::WriteFile { path: destination, bytes }),
            Err(err) => (FlowState::Finished, FlowAction::Report(Err(err))),
        },
        (FlowState::Writing, FlowEvent::Written(r)) => match r {
            Ok(_) => (FlowState::Finished, FlowAction::Report(Ok(()))),
            Err(m) => (
                FlowState::Finished,
                FlowAction::Report(Err(ExportError::PersistenceFailed(m))),
            ),
        },
        (s, _) => (s, FlowAction::Ignore),
    }
}

/// The state reached and the actions asked for when `events` happen in order from `s`.
pub open spec fn run(s: FlowState, destination: String, events: Seq<FlowEvent>) -> (
    FlowState,
    Seq<FlowAction>,
)
    decreases events.len(),
{
    if events.len() == 0 {
        (s, Seq::empty())
    } else {
        let (s1, a) = next(s, destination, events[0]);
        let (sn, rest) = run(s1, destination, events.drop_first());
        (sn, seq![a] + rest)
    }
}

/// One export request as it proceeds, from idle to its single report.
pub struct ExportFlow {
    destination: String,
    state: FlowState,
}

impl ExportFlow {
    /// Where the payload is to be written.
    pub closed spec fn destination(&self) -> String {
        self.destination
    }

    /// Where the export stands.
    pub closed spec fn state(&self) -> FlowState {
        self.state
    }

    /// A new, idle export whose payload is bound for `destination`.
    pub fn new(destination: String) -> (r: ExportFlow)
        ensures
            r.destination() == destination,
            r.state() == FlowState::Idle,
    {
        ExportFlow { destination, state: FlowState::Idle }
    }

    /// Whether the export has reported its result.
    pub fn is_finished(&self) -> (r: bool)
        ensures
            r == (self.state() is Finished),
    {
        match self.state {
            FlowState::Finished => true,
            _ => false,
        }
    }

    /// Takes one event and returns the action it calls for.
    pub fn step(&mut self, e: FlowEvent) -> (a: FlowAction)
        ensures
            final(self).destination() == old(self).destination(),
            (final(self).state(), a) == next(old(self).state(), old(self).destination(), e),
    {
        match (&self.state, e) {
            (FlowState::Idle, FlowEvent::Start { native_capable }) => {
                if native_capable {
                    self.state = FlowState::Dispatched;
                    FlowAction::CallNative
                } else {
                    self.state = FlowState::Finished;
                    FlowAction::Report(Err(ExportError::UnsupportedPlatform))
                }
            },
            (FlowState::Dispatched, FlowEvent::Registered(r)) => match r {
                Ok(_) => {
                    self.state = FlowState::AwaitingCallback;
                    FlowAction::AwaitOutcome
                },
                Err(m) => {
                    self.state = FlowState::Finished;
                    FlowAction::Report(Err(ExportError::NativeRegistrationFailed(m)))
                },
            },
            (FlowState::AwaitingCallback, FlowEvent::Resolved(o)) => match o {
                Ok(bytes) => {
                    self.state = FlowState::Writing;
                    FlowAction::WriteFile { path: self.destination.clone(), bytes }
                },
                Err(err) => {
                    self.state = FlowState::Finished;
                    FlowAction::Report(Err(err))
                },
            },
            (FlowState::Writing, FlowEvent::Written(r)) => match r {
                Ok(_) => {
                    self.state = FlowState::Finished;
                    FlowAction::Report(Ok(()))
                },
                Err(m) => {
                    self.state = FlowState::Finished;
                    FlowAction::Report(Err(ExportError::PersistenceFailed(m)))
                },
            },
            _ => FlowAction::Ignore,
        }
    }
}

/// `n` actions that each do nothing.
pub open spec fn ignored(n: nat) -> Seq<FlowAction> {
    Seq::new(n, |i: int| FlowAction::Ignore)
}

/// How many of `actions` report a result.
pub open spec fn report_count(actions: Seq<FlowAction>) -> nat
    decreases actions.len(),
{
    if actions.len() == 0 {
        0
    } else {
        (if actions[0] is Report {
            1nat
        } else {
            0nat
        }) + report_count(actions.drop_first())
    }
}

/// Running `e` then `events` is one transition followed by the rest.
pub proof fn lemma_run_cons(s: FlowState, destination: String, e: FlowEvent, events: Seq<FlowEvent>)
    ensures
        run(s, destination, seq![e] + events) == ({
            let (s1, a) = next(s, destination, e);
            let (sn, rest) = run(s1, destination, events);
            (sn, seq![a] + rest)
        }),
{
    assert((seq![e] + events).drop_first() =~= events);
    assert((seq![e] + events)[0] == e);
}

/// Once an export has reported, every further event is ignored: no native
/// call, no wait, no write and no second report.
pub proof fn lemma_finished_is_final(destination: String, events: Seq<FlowEvent>)
    ensures
        run(FlowState::Finished, destination, events) == (FlowState::Finished, ignored(
            events.len(),
        )),
    decreases events.len(),
{
    if events.len() > 0 {
        lemma_finished_is_final(destination, events.drop_first());
        assert(seq![FlowAction::Ignore] + ignored((events.len() - 1) as nat) =~= ignored(
            events.len(),
        ));
    }
}

/// An export reports at most once: from a state that has not reported, the
/// actions asked for hold exactly one report if the export finishes, and
/// none otherwise.
pub proof fn lemma_single_report(s: FlowState, destination: String, events: Seq<FlowEvent>)
    ensures
        report_count(run(s, destination, events).1) == if s !is Finished && run(
            s,
            destination,
            events,
        ).0 is Finished {
            1nat
        } else {
            0nat
        },
    decreases events.len(),
{
    if events.len() > 0 {
        let (s1, a) = next(s, destination, events[0]);
        lemma_single_report(s1, destination, events.drop_first());
        let rest = run(s1, destination, events.drop_first()).1;
        assert((seq![a] + rest).drop_first() =~= rest);
        if s1 is Finished {
            lemma_finished_is_final(destination, events.drop_first());
        }
    } else {
        assert(report_count(Seq::<FlowAction>::empty()) == 0);
    }
}

/// With the capability gate closed, an export reports `UnsupportedPlatform`
/// at once and then ignores everything: no native call and no file write.
pub proof fn lemma_gate_closed(destination: String, events: Seq<FlowEvent>)
    ensures
        run(FlowState::Idle, destination, seq![FlowEvent::Start { native_capable: false }] + events)
            == (FlowState::Finished, seq![
            FlowAction::Report(Err(ExportError::UnsupportedPlatform)),
        ] + ignored(events.len())),
{
    lemma_run_cons(FlowState::Idle, destination, FlowEvent::Start { native_capable: false }, events);
    lemma_finished_is_final(destination, events);
}

/// When issuing the native call fails synchronously, the export reports that
/// failure and never waits for an outcome.
pub proof fn lemma_registration_failure(destination: String, m: String, events: Seq<FlowEvent>)
    ensures
        run(
            FlowState::Idle,
            destination,
            seq![FlowEvent::Start { native_capable: true }, FlowEvent::Registered(Err(m))] + events,
        ) == (FlowState::Finished, seq![
            FlowAction::CallNative,
            FlowAction::Report(Err(ExportError::NativeRegistrationFailed(m))),
        ] + ignored(events.len())),
{
    let e0 = FlowEvent::Start { native_capable: true };
    let e1 = FlowEvent::Registered(Err(m));
    assert(seq![e0, e1] + events =~= seq![e0] + (seq![e1] + events));
    lemma_run_cons(FlowState::Idle, destination, e0, seq![e1] + events);
    lemma_run_cons(FlowState::Dispatched, destination, e1, events);
    lemma_finished_is_final(destination, events);
    let a0 = FlowAction::CallNative;
    let a1 = FlowAction::Report(Err(ExportError::NativeRegistrationFailed(m)));
    assert(seq![a0] + (seq![a1] + ignored(events.len())) =~= seq![a0, a1] + ignored(
        events.len(),
    ));
}

/// A delivered payload is written whole to the destination, in one attempt,
/// and the write's result decides the one report: success, or the write's
/// own error description as `PersistenceFailed`.
pub proof fn lemma_payload_written(
    destination: String,
    bytes: Vec<u8>,
    written: Result<(), String>,
    events: Seq<FlowEvent>,
)
    ensures
        run(
            FlowState::Idle,
            destination,
            seq![
                FlowEvent::Start { native_capable: true },
                FlowEvent::Registered(Ok(())),
                FlowEvent::Resolved(Ok(bytes)),
                FlowEvent::Written(written),
            ] + events,
        ) == (FlowState::Finished, seq![
            FlowAction::CallNative,
            FlowAction::AwaitOutcome,
            FlowAction::WriteFile { path: destination, bytes },
            FlowAction::Report(
                match written {
                    Ok(_) => Ok(()),
                    Err(m) => Err(ExportError::PersistenceFailed(m)),
                },
            ),
        ] + ignored(events.len())),
{
    let e0 = FlowEvent::Start { native_capable: true };
    let e1 = FlowEvent::Registered(Ok(()));
    let e2 = FlowEvent::Resolved(Ok(bytes));
    let e3 = FlowEvent::Written(written);
    assert(seq![e0, e1, e2, e3] + events =~= seq![e0] + (seq![e1] + (seq![e2] + (seq![e3]
        + events))));
    lemma_run_cons(FlowState::Idle, destination, e0, seq![e1] + (seq![e2] + (seq![e3] + events)));
    lemma_run_cons(FlowState::Dispatched, destination, e1, seq![e2] + (seq![e3] + events));
    lemma_run_cons(FlowState::AwaitingCallback, destination, e2, seq![e3] + events);
    lemma_run_cons(FlowState::Writing, destination, e3, events);
    lemma_finished_is_final(destination, events);
    let a0 = FlowAction::CallNative;
    let a1 = FlowAction::AwaitOutcome;
    let a2 = FlowAction::WriteFile { path: destination, bytes };
    let a3 = FlowAction::Report(
        match written {
            Ok(_) => Ok(()),
            Err(m) => Err(ExportError::PersistenceFailed(m)),
        },
    );
    let tail = ignored(events.len());
    assert(seq![a0] + (seq![a1] + (seq![a2] + (seq![a3] + tail))) =~= seq![a0, a1, a2, a3]
        + tail);
}

} // verus!
