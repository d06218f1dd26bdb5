use igd_provision::dispatch::{
    RegistrationFailure, Scan, ScanAction, ScanEvent, Startup, StartupAction, StartupEvent,
    StartupStep,
};

#[test]
fn startup_registers_then_signals() {
    let mut startup = Startup::start();
    assert_eq!(startup, Startup::CreatingEvent);
    assert_eq!(startup.pending(), StartupAction::CreateEvent);
    assert_eq!(startup.step(StartupEvent::Done), StartupAction::RegisterNotify);
    assert_eq!(startup.step(StartupEvent::Done), StartupAction::SignalEvent);
    assert_eq!(startup, Startup::Signalling);
    assert_eq!(startup.step(StartupEvent::Done), StartupAction::Exit { result: Ok(()) });
    assert_eq!(startup, Startup::Registered);
    assert_eq!(startup.step(StartupEvent::Failed(9)), StartupAction::Exit { result: Ok(()) });
    assert_eq!(startup.step(StartupEvent::Done), StartupAction::Exit { result: Ok(()) });
}

#[test]
fn failed_event_creation_exits_at_once() {
    let mut startup = Startup::start();
    let failure = RegistrationFailure { step: StartupStep::CreateEvent, code: 9 };
    assert_eq!(
        startup.step(StartupEvent::Failed(9)),
        StartupAction::Exit { result: Err(failure) }
    );
    assert_eq!(startup, Startup::Failed { failure });
    assert_eq!(startup.step(StartupEvent::Done), StartupAction::Exit { result: Err(failure) });
}

#[test]
fn failed_registration_closes_the_event() {
    let mut startup = Startup::start();
    startup.step(StartupEvent::Done);
    let failure = RegistrationFailure { step: StartupStep::RegisterNotify, code: 0x8000_0009 };
    assert_eq!(startup.step(StartupEvent::Failed(0x8000_0009)), StartupAction::CloseEvent);
    assert_eq!(startup, Startup::Closing { failure });
    assert_eq!(startup.step(StartupEvent::Done), StartupAction::Exit { result: Err(failure) });
}

#[test]
fn failed_signal_closes_the_event() {
    let mut startup = Startup::start();
    startup.step(StartupEvent::Done);
    startup.step(StartupEvent::Done);
    let failure = RegistrationFailure { step: StartupStep::SignalEvent, code: 2 };
    assert_eq!(startup.step(StartupEvent::Failed(2)), StartupAction::CloseEvent);
    // Closing is best effort: its own failure changes nothing.
    assert_eq!(
        startup.step(StartupEvent::Failed(77)),
        StartupAction::Exit { result: Err(failure) }
    );
    assert_eq!(startup, Startup::Failed { failure });
}

#[test]
fn scan_visits_every_handle_then_returns() {
    let mut scan = Scan::start();
    assert_eq!(scan.pending(), ScanAction::Enumerate);
    assert_eq!(scan.step(ScanEvent::Handles(3)), ScanAction::Visit { index: 0 });
    assert_eq!(scan.step(ScanEvent::Visited), ScanAction::Visit { index: 1 });
    assert_eq!(scan.step(ScanEvent::Visited), ScanAction::Visit { index: 2 });
    assert_eq!(scan, Scan::Visiting { index: 2, count: 3 });
    assert_eq!(scan.step(ScanEvent::Visited), ScanAction::Return);
    assert_eq!(scan, Scan::Finished);
}

#[test]
fn scan_enumerates_once_though_the_list_never_changes() {
    // The platform would bring the same handle at every enumeration; the
    // scan asks once, visits it, and returns.
    let mut scan = Scan::start();
    let mut enumerations = 0;
    let mut visits = 0;
    let mut action = scan.pending();
    for _ in 0..16 {
        let event = match action {
            ScanAction::Enumerate => {
                enumerations += 1;
                ScanEvent::Handles(1)
            }
            ScanAction::Visit { index } => {
                assert_eq!(index, 0);
                visits += 1;
                ScanEvent::Visited
            }
            ScanAction::Return => break,
        };
        action = scan.step(event);
    }
    assert_eq!(action, ScanAction::Return);
    assert_eq!(enumerations, 1);
    assert_eq!(visits, 1);
}

#[test]
fn finished_scan_stays_finished() {
    let mut scan = Scan::start();
    scan.step(ScanEvent::Handles(1));
    assert_eq!(scan.step(ScanEvent::Visited), ScanAction::Return);
    assert_eq!(scan.step(ScanEvent::Handles(2)), ScanAction::Return);
    assert_eq!(scan.step(ScanEvent::Visited), ScanAction::Return);
    assert_eq!(scan.step(ScanEvent::NoHandles), ScanAction::Return);
    assert_eq!(scan, Scan::Finished);
}

#[test]
fn scan_ends_when_enumeration_brings_nothing() {
    let mut scan = Scan::start();
    assert_eq!(scan.step(ScanEvent::NoHandles), ScanAction::Return);
    let mut scan = Scan::start();
    assert_eq!(scan.step(ScanEvent::Handles(0)), ScanAction::Return);
    assert_eq!(scan.step(ScanEvent::Handles(4)), ScanAction::Return);
    assert_eq!(scan.step(ScanEvent::Visited), ScanAction::Return);
}

#[test]
fn scan_ignores_answers_out_of_turn() {
    let mut scan = Scan::start();
    assert_eq!(scan.step(ScanEvent::Visited), ScanAction::Enumerate);
    scan.step(ScanEvent::Handles(2));
    assert_eq!(scan.step(ScanEvent::Handles(5)), ScanAction::Visit { index: 0 });
    assert_eq!(scan.step(ScanEvent::NoHandles), ScanAction::Visit { index: 0 });
    assert_eq!(scan, Scan::Visiting { index: 0, count: 2 });
}

#[test]
fn scan_with_most_handles() {
    let mut scan = Scan::Visiting { index: usize::MAX - 2, count: usize::MAX };
    assert_eq!(scan.step(ScanEvent::Visited), ScanAction::Visit { index: usize::MAX - 1 });
    assert_eq!(scan.step(ScanEvent::Visited), ScanAction::Return);
    let mut scan = Scan::Visiting { index: usize::MAX, count: 0 };
    assert_eq!(scan.step(ScanEvent::Visited), ScanAction::Return);
}
