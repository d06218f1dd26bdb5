//! What holds of a pass over a device whatever the platform answers.

use vstd::prelude::*;
use crate::device::{
    class_of, is_graphics_slot, is_intel_display, vendor_of, ClassCode, Location, VENDOR_INTEL,
};
use crate::pass::{PassAction, PassEvent, PassOutcome, PassState};
use crate::stage::{StageAction, StageEvent, StageKind, StageModel, ASLS_OFFSET};

verus! {

/// Every answer about the identity of the device in `events` is the same:
/// this vendor, this class code, this location.
pub open spec fn reports(
    events: Seq<PassEvent>,
    vendor: int,
    class: ClassCode,
    location: Location,
) -> bool {
    forall|i: int|
        0 <= i < events.len() ==> match #[trigger] events[i] {
            PassEvent::Vendor(bytes) => vendor_of(bytes@) == vendor,
            PassEvent::Class(bytes) => class_of(bytes@) == class,
            PassEvent::Location(place) => place == location,
            _ => true,
        }
}

/// What is reported by a sequence of events is reported by all but its last.
pub proof fn lemma_reports_earlier(
    events: Seq<PassEvent>,
    vendor: int,
    class: ClassCode,
    location: Location,
)
    requires
        events.len() > 0,
        reports(events, vendor, class, location),
    ensures
        reports(events.drop_last(), vendor, class, location),
{
    let earlier = events.drop_last();
    assert forall|i: int| 0 <= i < earlier.len() implies match #[trigger] earlier[i] {
        PassEvent::Vendor(bytes) => vendor_of(bytes@) == vendor,
        PassEvent::Class(bytes) => class_of(bytes@) == class,
        PassEvent::Location(place) => place == location,
        _ => true,
    } by {
        assert(earlier[i] == events[i]);
    }
}

/// Validity is kept along every sequence of events.
pub proof fn lemma_after_keeps_wf(pass: PassState, events: Seq<PassEvent>)
    requires
        pass.wf(),
    ensures
        pass.after(events).wf(),
    decreases events.len(),
{
    if events.len() > 0 {
        lemma_after_keeps_wf(pass, events.drop_last());
        pass.after(events.drop_last()).lemma_next_keeps_wf(events.last());
    }
}

/// A device whose vendor is not Intel, or whose class code is not that of a
/// VGA-compatible display controller, never has a stage run for it: the
/// pass asks for no blob, no pages and no write, whatever it is told.
pub proof fn lemma_other_devices_are_left_alone(
    events: Seq<PassEvent>,
    vendor: int,
    class: ClassCode,
    location: Location,
)
    requires
        reports(events, vendor, class, location),
        !is_intel_display(vendor, class),
    ensures
        ({
            let pass = PassState::initial().after(events);
            &&& pass is AwaitingVendor || pass is AwaitingClass || pass is Finished
            &&& !(pass.pending() is Stage)
            &&& !pass.pending().touches_platform()
            &&& pass is AwaitingClass ==> vendor == VENDOR_INTEL
            &&& pass matches PassState::Finished { outcome } ==> outcome is Skipped
                || outcome is Aborted
        }),
    decreases events.len(),
{
    if events.len() > 0 {
        lemma_reports_earlier(events, vendor, class, location);
        lemma_other_devices_are_left_alone(events.drop_last(), vendor, class, location);
        assert(events.last() == events[events.len() - 1]);
    }
}

/// An Intel VGA-compatible display controller has the OpRegion stage begun
/// for it as soon as vendor and class code are known.
pub proof fn lemma_display_controller_gets_opregion_stage(vendor: [u8; 2], class: [u8; 3])
    requires
        is_intel_display(vendor_of(vendor@), class_of(class@)),
    ensures
        PassState::initial().next(PassEvent::Vendor(vendor)).next(PassEvent::Class(class)) == (
        PassState::OpRegion { stage: StageModel::initial(StageKind::OpRegion) }),
        PassState::initial().next(PassEvent::Vendor(vendor)).next(
            PassEvent::Class(class),
        ).pending() == (PassAction::Stage {
            kind: StageKind::OpRegion,
            action: StageAction::FindBlob { kind: StageKind::OpRegion },
        }),
{
}

/// An Intel VGA-compatible display controller, wherever it sits, has the
/// base of its OpRegion written to the OpRegion register once the blob has
/// been found, pages that honour the request have been allocated at `start`,
/// and they have been filled.
pub proof fn lemma_display_controller_gets_opregion_write(
    vendor: [u8; 2],
    class: [u8; 3],
    blob: Vec<u8>,
    start: u64,
)
    requires
        is_intel_display(vendor_of(vendor@), class_of(class@)),
        blob@.len() > 0,
        StageKind::OpRegion.request_for(blob@) matches Ok(request) && request.honoured_by(start),
    ensures
        PassState::initial().next(PassEvent::Vendor(vendor)).next(PassEvent::Class(class)).next(
            PassEvent::Stage(StageEvent::Blob(blob)),
        ).next(PassEvent::Stage(StageEvent::Allocated(start))).next(
            PassEvent::Stage(StageEvent::Done),
        ).pending() == (PassAction::Stage {
            kind: StageKind::OpRegion,
            action: StageAction::WriteConfig { offset: ASLS_OFFSET, value: start as u32 },
        }),
        start <= u32::MAX,
{
    crate::stage_laws::lemma_opregion_runs_to_its_write(blob, start);
}

/// A device outside the graphics slot never has the stolen-memory stage run
/// for it: no action of that stage is ever pending, and the pass cannot end
/// with an outcome of that stage.
pub proof fn lemma_stolen_memory_only_in_graphics_slot(
    events: Seq<PassEvent>,
    vendor: int,
    class: ClassCode,
    location: Location,
)
    requires
        reports(events, vendor, class, location),
        !is_graphics_slot(location),
    ensures
        ({
            let pass = PassState::initial().after(events);
            &&& !(pass is StolenMemory)
            &&& !pass.pending().is_for(StageKind::StolenMemory)
            &&& pass matches PassState::Finished { outcome } ==> !(outcome is Both)
        }),
    decreases events.len(),
{
    if events.len() > 0 {
        lemma_reports_earlier(events, vendor, class, location);
        lemma_stolen_memory_only_in_graphics_slot(events.drop_last(), vendor, class, location);
        assert(events.last() == events[events.len() - 1]);
    }
}

/// Every write that a pass asks for goes to the register of the stage that
/// is running, and while the OpRegion stage runs no action of the
/// stolen-memory stage is pending.
pub proof fn lemma_writes_go_to_stage_register(pass: PassState)
    requires
        pass.wf(),
    ensures
        pass.pending() matches PassAction::Stage {
            kind,
            action: StageAction::WriteConfig { offset, .. },
        } ==> offset == kind.register_spec(),
        pass is OpRegion ==> pass.pending().is_for(StageKind::OpRegion),
{
}

/// A pass that has ended stays where it is, whatever it is told.
pub proof fn lemma_finished_pass_stays(pass: PassState, events: Seq<PassEvent>)
    requires
        pass is Finished,
    ensures
        pass.after(events) == pass,
    decreases events.len(),
{
    if events.len() > 0 {
        lemma_finished_pass_stays(pass, events.drop_last());
    }
}

} // verus!
