//! One pass over one device: identify it, and run the stages it is due.
//!
//! A device that is no Intel VGA-compatible display controller is left
//! alone. One that is gets the OpRegion stage, and after that, if it sits in
//! the graphics slot, the stolen-memory stage.

use vstd::prelude::*;
use crate::device::{
    class_code, class_of, is_graphics_slot, is_intel_display, qualifies, vendor_id, vendor_of,
    Location, VENDOR_INTEL,
};
use crate::error::ProvisionError;
use crate::region::MemoryRegion;
use crate::stage::{Stage, StageAction, StageEvent, StageKind, StageModel, StageState};

verus! {

/// What the platform answered to the pending action of a pass.
#[derive(Debug, PartialEq, Eq)]
pub enum PassEvent {
    /// The two bytes at the offset of the vendor identifier.
    Vendor([u8; 2]),
    /// The three bytes at the offset of the class code.
    Class([u8; 3]),
    /// Where the device sits.
    Location(Location),
    /// The configuration space or the location could not be read.
    AccessFailed,
    /// An answer to the pending action of the stage that is running.
    Stage(StageEvent),
}

/// How a pass ended.
#[derive(Clone, Copy, Debug, PartialEq, Eq)]
pub enum PassOutcome {
    /// The device is no Intel VGA-compatible display controller; nothing
    /// was done to it.
    Skipped,
    /// The device is such a controller outside the graphics slot; the
    /// OpRegion stage ran and ended like this.
    OpRegionOnly { opregion: Result<MemoryRegion, ProvisionError> },
    /// The device is the controller in the graphics slot; both stages ran.
    Both {
        opregion: Result<MemoryRegion, ProvisionError>,
        stolen_memory: Result<MemoryRegion, ProvisionError>,
    },
    /// An access to the device failed and the pass was cut short.
    Aborted,
}

/// What a pass wants done.
#[derive(Clone, Copy, Debug, PartialEq, Eq)]
pub enum PassAction {
    /// Read the two bytes of the vendor identifier.
    ReadVendor,
    /// Read the three bytes of the class code.
    ReadClass,
    /// Ask where the device sits.
    ReadLocation,
    /// Carry out this action of the stage of this kind.
    Stage { kind: StageKind, action: StageAction },
    /// Nothing more: the pass has ended.
    Finish { outcome: PassOutcome },
}

/// Where a pass stands, as contracts see it.
pub enum PassState {
    AwaitingVendor,
    AwaitingClass,
    OpRegion { stage: StageModel },
    AwaitingLocation { opregion: Result<MemoryRegion, ProvisionError> },
    StolenMemory { opregion: Result<MemoryRegion, ProvisionError>, stage: StageModel },
    Finished { outcome: PassOutcome },
}

#[derive(Clone, Copy, Debug, PartialEq, Eq)]
enum Phase {
    AwaitingVendor,
    AwaitingClass,
    OpRegion,
    AwaitingLocation,
    StolenMemory,
    Finished,
}

/// A pass over one device, in progress.
#[derive(Debug)]
pub struct Pass {
    phase: Phase,
    stage: Stage,
    opregion: Result<MemoryRegion, ProvisionError>,
    outcome: PassOutcome,
}

impl PassAction {
    /// Whether the action takes memory from the allocator or writes to the
    /// configuration space of the device.
    pub open spec fn touches_platform(self) -> bool {
        self matches PassAction::Stage { action, .. } && action.touches_platform()
    }

    /// Whether the action belongs to the stage of this kind.
    pub open spec fn is_for(self, wanted: StageKind) -> bool {
        self matches PassAction::Stage { kind, .. } && kind == wanted
    }
}

impl PassState {
    /// A pass that has just begun: it wants the vendor identifier.
    pub open spec fn initial() -> PassState {
        PassState::AwaitingVendor
    }

    /// A running stage is valid, of the kind of its phase, and not at its
    /// end.
    pub open spec fn wf(self) -> bool {
        match self {
            PassState::OpRegion { stage } => {
                &&& stage.wf()
                &&& stage.kind == StageKind::OpRegion
                &&& !(stage.state is Finished)
            },
            PassState::StolenMemory { stage, .. } => {
                &&& stage.wf()
                &&& stage.kind == StageKind::StolenMemory
                &&& !(stage.state is Finished)
            },
            _ => true,
        }
    }

    /// The action that the pass waits for.
    pub open spec fn pending(self) -> PassAction {
        match self {
            PassState::AwaitingVendor => PassAction::ReadVendor,
            PassState::AwaitingClass => PassAction::ReadClass,
            PassState::OpRegion { stage } => PassAction::Stage {
                kind: StageKind::OpRegion,
                action: stage.pending(),
            },
            PassState::AwaitingLocation { .. } => PassAction::ReadLocation,
            PassState::StolenMemory { stage, .. } => PassAction::Stage {
                kind: StageKind::StolenMemory,
                action: stage.pending(),
            },
            PassState::Finished { outcome } => PassAction::Finish { outcome },
        }
    }

    /// The state after the OpRegion stage has moved to `stage`.
    pub open spec fn after_opregion_step(stage: StageModel) -> PassState {
        match stage.state {
            StageState::Finished { outcome } => if outcome == Err::<MemoryRegion, ProvisionError>(
                ProvisionError::HardwareAccessFailure,
            ) {
                PassState::Finished { outcome: PassOutcome::Aborted }
            } else {
                PassState::AwaitingLocation { opregion: outcome }
            },
            _ => PassState::OpRegion { stage },
        }
    }

    /// The state after the stolen-memory stage has moved to `stage`.
    pub open spec fn after_stolen_memory_step(
        opregion: Result<MemoryRegion, ProvisionError>,
        stage: StageModel,
    ) -> PassState {
        match stage.state {
            StageState::Finished { outcome } => if outcome == Err::<MemoryRegion, ProvisionError>(
                ProvisionError::HardwareAccessFailure,
            ) {
                PassState::Finished { outcome: PassOutcome::Aborted }
            } else {
                PassState::Finished {
                    outcome: PassOutcome::Both { opregion, stolen_memory: outcome },
                }
            },
            _ => PassState::StolenMemory { opregion, stage },
        }
    }

    /// The state that an event leads to. An event that answers no question
    /// of the current state leaves the state as it is.
    pub open spec fn next(self, event: PassEvent) -> PassState {
        match self {
            PassState::AwaitingVendor => match event {
                PassEvent::Vendor(bytes) => if vendor_of(bytes@) == VENDOR_INTEL {
                    PassState::AwaitingClass
                } else {
                    PassState::Finished { outcome: PassOutcome::Skipped }
                },
                PassEvent::AccessFailed => PassState::Finished { outcome: PassOutcome::Aborted },
                _ => self,
            },
            PassState::AwaitingClass => match event {
                PassEvent::Class(bytes) => if is_intel_display(
                    VENDOR_INTEL as int,
                    class_of(bytes@),
                ) {
                    PassState::OpRegion { stage: StageModel::initial(StageKind::OpRegion) }
                } else {
                    PassState::Finished { outcome: PassOutcome::Skipped }
                },
                PassEvent::AccessFailed => PassState::Finished { outcome: PassOutcome::Aborted },
                _ => self,
            },
            PassState::OpRegion { stage } => match event {
                PassEvent::Stage(inner) => Self::after_opregion_step(stage.next(inner)),
                _ => self,
            },
            PassState::AwaitingLocation { opregion } => match event {
                PassEvent::Location(location) => if is_graphics_slot(location) {
                    PassState::StolenMemory {
                        opregion,
                        stage: StageModel::initial(StageKind::StolenMemory),
                    }
                } else {
                    PassState::Finished { outcome: PassOutcome::OpRegionOnly { opregion } }
                },
                PassEvent::AccessFailed => PassState::Finished { outcome: PassOutcome::Aborted },
                _ => self,
            },
            PassState::StolenMemory { opregion, stage } => match event {
                PassEvent::Stage(inner) => Self::after_stolen_memory_step(
                    opregion,
                    stage.next(inner),
                ),
                _ => self,
            },
            PassState::Finished { .. } => self,
        }
    }

    /// The pass after a sequence of events.
    pub open spec fn after(self, events: Seq<PassEvent>) -> PassState
        decreases events.len(),
    {
        if events.len() == 0 {
            self
        } else {
            self.after(events.drop_last()).next(events.last())
        }
    }

    /// Every event leads from a valid pass to a valid pass.
    pub proof fn lemma_next_keeps_wf(self, event: PassEvent)
        requires
            self.wf(),
        ensures
            self.next(event).wf(),
    {
        match self {
            PassState::OpRegion { stage } => {
                if let PassEvent::Stage(inner) = event {
                    stage.lemma_next_keeps_wf(inner);
                }
            },
            PassState::StolenMemory { stage, .. } => {
                if let PassEvent::Stage(inner) = event {
                    stage.lemma_next_keeps_wf(inner);
                }
            },
            _ => {},
        }
    }
}

impl View for Pass {
    type V = PassState;

    closed spec fn view(&self) -> PassState {
        match self.phase {
            Phase::AwaitingVendor => PassState::AwaitingVendor,
            Phase::AwaitingClass => PassState::AwaitingClass,
            Phase::OpRegion => PassState::OpRegion { stage: self.stage@ },
            Phase::AwaitingLocation => PassState::AwaitingLocation { opregion: self.opregion },
            Phase::StolenMemory => PassState::StolenMemory {
                opregion: self.opregion,
                stage: self.stage@,
            },
            Phase::Finished => PassState::Finished { outcome: self.outcome },
        }
    }
}

impl Pass {
    #[verifier::type_invariant]
    spec fn inv(self) -> bool {
        self@.wf()
    }

    /// Begins a pass over a device.
    pub fn start() -> (pass: Pass)
        ensures
            pass@ == PassState::initial(),
            pass@.wf(),
    {
        Pass {
            phase: Phase::AwaitingVendor,
            stage: Stage::start(StageKind::OpRegion),
            opregion: Err(ProvisionError::ResourceMissing),
            outcome: PassOutcome::Skipped,
        }
    }

    /// The action that the pass waits for.
    pub fn pending(&self) -> (action: PassAction)
        ensures
            action == self@.pending(),
            self@.wf(),
    {
        proof {
            use_type_invariant(self);
        }
        match self.phase {
            Phase::AwaitingVendor => PassAction::ReadVendor,
            Phase::AwaitingClass => PassAction::ReadClass,
            Phase::OpRegion => PassAction::Stage {
                kind: StageKind::OpRegion,
                action: self.stage.pending(),
            },
            Phase::AwaitingLocation => PassAction::ReadLocation,
            Phase::StolenMemory => PassAction::Stage {
                kind: StageKind::StolenMemory,
                action: self.stage.pending(),
            },
            Phase::Finished => PassAction::Finish { outcome: self.outcome },
        }
    }

    /// How the pass ended, once it has.
    pub fn outcome(&self) -> (outcome: Option<PassOutcome>)
        ensures
            outcome == match self@ {
                PassState::Finished { outcome } => Some(outcome),
                _ => None,
            },
    {
        match self.phase {
            Phase::Finished => Some(self.outcome),
            _ => None,
        }
    }

    /// Takes in what the platform answered and returns what to do next.
    pub fn step(&mut self, event: &PassEvent) -> (action: PassAction)
        ensures
            final(self)@ == old(self)@.next(*event),
            final(self)@.wf(),
            action == final(self)@.pending(),
    {
        proof {
            use_type_invariant(&*self);
            self@.lemma_next_keeps_wf(*event);
        }
        match self.phase {
            Phase::AwaitingVendor => match event {
                PassEvent::Vendor(bytes) => {
                    if vendor_id(*bytes) == VENDOR_INTEL {
                        self.phase = Phase::AwaitingClass;
                    } else {
                        self.outcome = PassOutcome::Skipped;
                        self.phase = Phase::Finished;
                    }
                },
                PassEvent::AccessFailed => {
                    self.outcome = PassOutcome::Aborted;
                    self.phase = Phase::Finished;
                },
                _ => {},
            },
            Phase::AwaitingClass => match event {
                PassEvent::Class(bytes) => {
                    if qualifies(VENDOR_INTEL, class_code(*bytes)) {
                        self.stage = Stage::start(StageKind::OpRegion);
                        self.phase = Phase::OpRegion;
                    } else {
                        self.outcome = PassOutcome::Skipped;
                        self.phase = Phase::Finished;
                    }
                },
                PassEvent::AccessFailed => {
                    self.outcome = PassOutcome::Aborted;
                    self.phase = Phase::Finished;
                },
                _ => {},
            },
            Phase::OpRegion => match event {
                PassEvent::Stage(inner) => {
                    let mut stage: Stage = self.stage;
                    let action: StageAction = stage.step(inner);
                    match action {
                        StageAction::Finish { outcome } => match outcome {
                            Err(ProvisionError::HardwareAccessFailure) => {
                                self.outcome = PassOutcome::Aborted;
                                self.phase = Phase::Finished;
                            },
                            _ => {
                                self.opregion = outcome;
                                self.phase = Phase::AwaitingLocation;
                            },
                        },
                        _ => {
                            self.stage = stage;
                        },
                    }
                },
                _ => {},
            },
            Phase::AwaitingLocation => match event {
                PassEvent::Location(location) => {
                    if location.is_graphics_slot() {
                        self.stage = Stage::start(StageKind::StolenMemory);
                        self.phase = Phase::StolenMemory;
                    } else {
                        self.outcome = PassOutcome::OpRegionOnly { opregion: self.opregion };
                        self.phase = Phase::Finished;
                    }
                },
                PassEvent::AccessFailed => {
                    self.outcome = PassOutcome::Aborted;
                    self.phase = Phase::Finished;
                },
                _ => {},
            },
            Phase::StolenMemory => match event {
                PassEvent::Stage(inner) => {
                    let mut stage: Stage = self.stage;
                    let action: StageAction = stage.step(inner);
                    match action {
                        StageAction::Finish { outcome } => match outcome {
                            Err(ProvisionError::HardwareAccessFailure) => {
                                self.outcome = PassOutcome::Aborted;
                                self.phase = Phase::Finished;
                            },
                            _ => {
                                self.outcome = PassOutcome::Both {
                                    opregion: self.opregion,
                                    stolen_memory: outcome,
                                };
                                self.phase = Phase::Finished;
                            },
                        },
                        _ => {
                            self.stage = stage;
                        },
                    }
                },
                _ => {},
            },
            Phase::Finished => {},
        }
        self.pending()
    }
}

} // verus!
