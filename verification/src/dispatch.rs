//! Registration for device arrivals, and the scan that each signal sets off.
//!
//! At startup an event is created, registered for arrivals of the PCI I/O
//! protocol, and signalled once by hand, so that devices which arrived
//! before the registration are seen too. Every signal starts a scan: the
//! handles that are new to the registration are enumerated once, the
//! handles that this brings are visited one by one, and the scan returns.

use vstd::prelude::*;

verus! {

/// One of the steps of registration.
#[derive(Clone, Copy, Debug, PartialEq, Eq, Structural)]
pub enum StartupStep {
    CreateEvent,
    RegisterNotify,
    SignalEvent,
}

/// Registration failed at `step`, and the platform gave `code` as the reason.
#[derive(Clone, Copy, Debug, PartialEq, Eq, Structural)]
pub struct RegistrationFailure {
    pub step: StartupStep,
    pub code: usize,
}

/// What the platform answered to the pending action of the startup.
#[derive(Clone, Copy, Debug, PartialEq, Eq, Structural)]
pub enum StartupEvent {
    /// The pending action was carried out.
    Done,
    /// The pending action failed with this status code.
    Failed(usize),
}

/// What the startup wants done.
#[derive(Clone, Copy, Debug, PartialEq, Eq)]
pub enum StartupAction {
    /// Create the event whose signal starts a scan.
    CreateEvent,
    /// Register the event for arrivals of the protocol and keep the key
    /// that comes back.
    RegisterNotify,
    /// Signal the event once by hand.
    SignalEvent,
    /// Close the event; whether that succeeds does not matter.
    CloseEvent,
    /// Leave with this result.
    Exit { result: Result<(), RegistrationFailure> },
}

/// Where the startup stands. Until `RegisterNotify` has succeeded the
/// driver is unregistered; from then on it is registered, unless the first
/// signal fails and the event is closed again.
#[derive(Clone, Copy, Debug, PartialEq, Eq, Structural)]
pub enum Startup {
    CreatingEvent,
    Registering,
    Signalling,
    Closing { failure: RegistrationFailure },
    Registered,
    Failed { failure: RegistrationFailure },
}

/// What the platform answered to the pending action of a scan.
#[derive(Clone, Copy, Debug, PartialEq, Eq, Structural)]
pub enum ScanEvent {
    /// The enumeration brought this many handles.
    Handles(usize),
    /// The enumeration failed or brought nothing.
    NoHandles,
    /// The pass over the handle is over.
    Visited,
}

/// What a scan wants done.
#[derive(Clone, Copy, Debug, PartialEq, Eq, Structural)]
pub enum ScanAction {
    /// Enumerate the handles that are new to the registration.
    Enumerate,
    /// Run a pass over the handle at `index` of the enumeration.
    Visit { index: usize },
    /// Return from the signal.
    Return,
}

/// Where a scan stands.
#[derive(Clone, Copy, Debug, PartialEq, Eq, Structural)]
pub enum Scan {
    Enumerating,
    Visiting { index: usize, count: usize },
    Finished,
}

impl Startup {
    /// The startup at its beginning: unregistered, about to create its event.
    pub open spec fn initial() -> Startup {
        Startup::CreatingEvent
    }

    /// Whether the event is registered for arrivals.
    pub open spec fn is_registered(self) -> bool {
        self is Signalling || self is Registered
    }

    /// The action that the startup waits for.
    pub open spec fn pending_spec(self) -> StartupAction {
        match self {
            Startup::CreatingEvent => StartupAction::CreateEvent,
            Startup::Registering => StartupAction::RegisterNotify,
            Startup::Signalling => StartupAction::SignalEvent,
            Startup::Closing { .. } => StartupAction::CloseEvent,
            Startup::Registered => StartupAction::Exit { result: Ok(()) },
            Startup::Failed { failure } => StartupAction::Exit { result: Err(failure) },
        }
    }

    /// The state that an event leads to. A failure before the event exists
    /// ends the startup at once; a later one has the event closed first.
    pub open spec fn next(self, event: StartupEvent) -> Startup {
        match self {
            Startup::CreatingEvent => match event {
                StartupEvent::Done => Startup::Registering,
                StartupEvent::Failed(code) => Startup::Failed {
                    failure: RegistrationFailure { step: StartupStep::CreateEvent, code },
                },
            },
            Startup::Registering => match event {
                StartupEvent::Done => Startup::Signalling,
                StartupEvent::Failed(code) => Startup::Closing {
                    failure: RegistrationFailure { step: StartupStep::RegisterNotify, code },
                },
            },
            Startup::Signalling => match event {
                StartupEvent::Done => Startup::Registered,
                StartupEvent::Failed(code) => Startup::Closing {
                    failure: RegistrationFailure { step: StartupStep::SignalEvent, code },
                },
            },
            Startup::Closing { failure } => Startup::Failed { failure },
            Startup::Registered => self,
            Startup::Failed { .. } => self,
        }
    }

    /// The startup after a sequence of events.
    pub open spec fn after(self, events: Seq<StartupEvent>) -> Startup
        decreases events.len(),
    {
        if events.len() == 0 {
            self
        } else {
            self.after(events.drop_last()).next(events.last())
        }
    }

    /// Begins the startup.
    pub fn start() -> (startup: Startup)
        ensures
            startup == Startup::initial(),
    {
        Startup::CreatingEvent
    }

    /// The action that the startup waits for.
    #[verifier::when_used_as_spec(pending_spec)]
    pub fn pending(self) -> (action: StartupAction)
        ensures
            action == self.pending_spec(),
    {
        match self {
            Startup::CreatingEvent => StartupAction::CreateEvent,
            Startup::Registering => StartupAction::RegisterNotify,
            Startup::Signalling => StartupAction::SignalEvent,
            Startup::Closing { .. } => StartupAction::CloseEvent,
            Startup::Registered => StartupAction::Exit { result: Ok(()) },
            Startup::Failed { failure } => StartupAction::Exit { result: Err(failure) },
        }
    }

    /// Takes in what the platform answered and returns what to do next.
    pub fn step(&mut self, event: StartupEvent) -> (action: StartupAction)
        ensures
            *final(self) == old(self).next(event),
            action == final(self).pending_spec(),
    {
        let state: Startup = match *self {
            Startup::CreatingEvent => match event {
                StartupEvent::Done => Startup::Registering,
                StartupEvent::Failed(code) => Startup::Failed {
                    failure: RegistrationFailure { step: StartupStep::CreateEvent, code },
                },
            },
            Startup::Registering => match event {
                StartupEvent::Done => Startup::Signalling,
                StartupEvent::Failed(code) => Startup::Closing {
                    failure: RegistrationFailure { step: StartupStep::RegisterNotify, code },
                },
            },
            Startup::Signalling => match event {
                StartupEvent::Done => Startup::Registered,
                StartupEvent::Failed(code) => Startup::Closing {
                    failure: RegistrationFailure { step: StartupStep::SignalEvent, code },
                },
            },
            Startup::Closing { failure } => Startup::Failed { failure },
            Startup::Registered => Startup::Registered,
            Startup::Failed { failure } => Startup::Failed { failure },
        };
        *self = state;
        state.pending()
    }
}

impl Scan {
    /// A scan at its beginning: about to enumerate.
    pub open spec fn initial() -> Scan {
        Scan::Enumerating
    }

    /// The action that the scan waits for.
    pub open spec fn pending_spec(self) -> ScanAction {
        match self {
            Scan::Enumerating => ScanAction::Enumerate,
            Scan::Visiting { index, .. } => ScanAction::Visit { index },
            Scan::Finished => ScanAction::Return,
        }
    }

    /// The state that an event leads to. A scan enumerates once: an
    /// enumeration that brings handles has each of them visited in turn,
    /// and the scan ends after the last; one that brings none ends the scan
    /// at once. An event that answers no question of the current state
    /// leaves the state as it is.
    pub open spec fn next(self, event: ScanEvent) -> Scan {
        match self {
            Scan::Enumerating => match event {
                ScanEvent::Handles(count) => if count > 0 {
                    Scan::Visiting { index: 0, count }
                } else {
                    Scan::Finished
                },
                ScanEvent::NoHandles => Scan::Finished,
                ScanEvent::Visited => self,
            },
            Scan::Visiting { index, count } => match event {
                ScanEvent::Visited => if index + 1 < count {
                    Scan::Visiting { index: (index + 1) as usize, count }
                } else {
                    Scan::Finished
                },
                _ => self,
            },
            Scan::Finished => self,
        }
    }

    /// The scan after a sequence of events.
    pub open spec fn after(self, events: Seq<ScanEvent>) -> Scan
        decreases events.len(),
    {
        if events.len() == 0 {
            self
        } else {
            self.after(events.drop_last()).next(events.last())
        }
    }

    /// Begins a scan.
    pub fn start() -> (scan: Scan)
        ensures
            scan == Scan::initial(),
    {
        Scan::Enumerating
    }

    /// The action that the scan waits for.
    #[verifier::when_used_as_spec(pending_spec)]
    pub fn pending(self) -> (action: ScanAction)
        ensures
            action == self.pending_spec(),
    {
        match self {
            Scan::Enumerating => ScanAction::Enumerate,
            Scan::Visiting { index, .. } => ScanAction::Visit { index },
            Scan::Finished => ScanAction::Return,
        }
    }

    /// Takes in what the platform answered and returns what to do next.
    pub fn step(&mut self, event: ScanEvent) -> (action: ScanAction)
        ensures
            *final(self) == old(self).next(event),
            action == final(self).pending_spec(),
    {
        let state: Scan = match *self {
            Scan::Enumerating => match event {
                ScanEvent::Handles(count) => if count > 0 {
                    Scan::Visiting { index: 0, count }
                } else {
                    Scan::Finished
                },
                ScanEvent::NoHandles => Scan::Finished,
                ScanEvent::Visited => Scan::Enumerating,
            },
            Scan::Visiting { index, count } => match event {
                ScanEvent::Visited => if count > 0 && index < count - 1 {
                    Scan::Visiting { index: index + 1, count }
                } else {
                    Scan::Finished
                },
                _ => Scan::Visiting { index, count },
            },
            Scan::Finished => Scan::Finished,
        };
        *self = state;
        state.pending()
    }
}

/// The startup succeeds exactly when all three steps do, and then it is
/// registered; a step that fails gives the failure its name and its code.
pub proof fn lemma_startup_outcomes(first: StartupEvent, second: StartupEvent, third: StartupEvent)
    ensures
        ({
            let created = Startup::initial().next(first);
            let registered = created.next(second);
            let signalled = registered.next(third);
            &&& first matches StartupEvent::Failed(code) ==> created.pending_spec() == (
            StartupAction::Exit {
                result: Err(RegistrationFailure { step: StartupStep::CreateEvent, code }),
            })
            &&& first is Done && second is Done ==> registered.is_registered()
            &&& first is Done && second is Done && third is Done ==> signalled
                == Startup::Registered && signalled.pending_spec() == (StartupAction::Exit {
                result: Ok(()),
            })
            &&& first is Done ==> (second matches StartupEvent::Failed(code) ==> {
                &&& registered.pending_spec() == StartupAction::CloseEvent
                &&& registered.next(third).pending_spec() == (StartupAction::Exit {
                    result: Err(RegistrationFailure { step: StartupStep::RegisterNotify, code }),
                })
            })
            &&& first is Done && second is Done ==> (third matches StartupEvent::Failed(code) ==> {
                &&& signalled.pending_spec() == StartupAction::CloseEvent
                &&& !signalled.is_registered()
                &&& forall|fourth: StartupEvent| #[trigger]
                    signalled.next(fourth).pending_spec() == (StartupAction::Exit {
                        result: Err(RegistrationFailure { step: StartupStep::SignalEvent, code }),
                    })
            })
        }),
{
}

/// The startup never leaves with success unless the event was created,
/// registered and signalled: success is only reached through `Signalling`.
pub proof fn lemma_success_needs_registration(events: Seq<StartupEvent>)
    ensures
        Startup::initial().after(events) is Registered ==> events.len() >= 3 && events[0] is Done
            && events[1] is Done && events[2] is Done,
    decreases events.len(),
{
    lemma_startup_progress(events);
}

/// Where the startup can stand after a sequence of events, by what the
/// first events were.
proof fn lemma_startup_progress(events: Seq<StartupEvent>)
    ensures
        ({
            let s = Startup::initial().after(events);
            &&& s is CreatingEvent ==> events.len() == 0
            &&& s is Registering ==> events.len() == 1 && events[0] is Done
            &&& s is Signalling ==> events.len() == 2 && events[0] is Done && events[1] is Done
            &&& s is Registered ==> events.len() >= 3 && events[0] is Done && events[1] is Done
                && events[2] is Done
        }),
    decreases events.len(),
{
    if events.len() > 0 {
        let earlier = events.drop_last();
        lemma_startup_progress(earlier);
        assert(forall|i: int| 0 <= i < earlier.len() ==> earlier[i] == events[i]);
        assert(events.last() == events[events.len() - 1]);
    }
}

/// After an enumeration that brought `count` handles, the handles are
/// visited in order, each once: when `done` passes are over the scan wants
/// the handle at `done` visited, and when all are over it returns.
pub proof fn lemma_every_handle_is_visited(count: usize, done: nat)
    requires
        count > 0,
        done <= count,
    ensures
        Scan::initial().next(ScanEvent::Handles(count)).after(
            Seq::new(done, |i: int| ScanEvent::Visited),
        ).pending_spec() == if done < count {
            ScanAction::Visit { index: done as usize }
        } else {
            ScanAction::Return
        },
        done < count ==> Scan::initial().next(ScanEvent::Handles(count)).after(
            Seq::new(done, |i: int| ScanEvent::Visited),
        ) == (Scan::Visiting { index: done as usize, count }),
    decreases done,
{
    if done > 0 {
        lemma_every_handle_is_visited(count, (done - 1) as nat);
        let all = Seq::new(done, |i: int| ScanEvent::Visited);
        assert(all.drop_last() =~= Seq::new((done - 1) as nat, |i: int| ScanEvent::Visited));
    }
}

/// A scan ends on an enumeration that brings nothing or after the pass over
/// the last handle, in no other way, and then it stays ended.
pub proof fn lemma_scan_ends_after_enumeration_or_last_handle(scan: Scan, event: ScanEvent)
    ensures
        scan.next(event) is Finished <==> {
            ||| scan is Finished
            ||| scan is Enumerating && (event is NoHandles || event == ScanEvent::Handles(0))
            ||| scan matches Scan::Visiting { index, count } && event is Visited && index + 1
                >= count
        },
{
}

/// No event leads a scan back to enumerating: a state that enumerates is
/// followed by it only where the event is one that it ignores.
pub proof fn lemma_nothing_leads_to_enumeration(scan: Scan, event: ScanEvent)
    ensures
        scan.next(event) is Enumerating ==> scan is Enumerating && event is Visited,
{
}

/// A scan enumerates once: `Enumerate` is pending only in the initial
/// state, before any answer to it has come in. Whatever events follow such
/// an answer, the scan does not ask for another enumeration.
pub proof fn lemma_one_enumeration_per_scan(events: Seq<ScanEvent>)
    ensures
        Scan::initial().after(events).pending_spec() == ScanAction::Enumerate ==> {
            &&& Scan::initial().after(events) == Scan::initial()
            &&& forall|i: int| 0 <= i < events.len() ==> events[i] is Visited
        },
    decreases events.len(),
{
    if events.len() > 0 {
        let earlier = events.drop_last();
        lemma_one_enumeration_per_scan(earlier);
        lemma_nothing_leads_to_enumeration(Scan::initial().after(earlier), events.last());
        assert(forall|i: int| 0 <= i < earlier.len() ==> earlier[i] == events[i]);
        assert(events.last() == events[events.len() - 1]);
    }
}

/// However the platform answers, a scan over `count` handles has ended once
/// the enumeration and `count` passes have been answered: the accesses of
/// one signal are bounded by the length of the one list.
pub proof fn lemma_scan_is_bounded(count: usize)
    ensures
        Scan::initial().next(ScanEvent::Handles(count)).after(
            Seq::new(count as nat, |i: int| ScanEvent::Visited),
        ) == Scan::Finished,
    decreases count,
{
    if count > 0 {
        lemma_every_handle_is_visited(count, (count - 1) as nat);
        let all = Seq::new(count as nat, |i: int| ScanEvent::Visited);
        assert(all.drop_last() =~= Seq::new((count - 1) as nat, |i: int| ScanEvent::Visited));
    } else {
        assert(Seq::new(0nat, |i: int| ScanEvent::Visited).len() == 0);
    }
}

} // verus!
