//! The two provisioning stages, each as a machine that is told what the
//! platform answered and says what to do next.
//!
//! A stage looks up its blob, validates it, has pages allocated and trimmed
//! to its alignment, has them filled, and has their base address written to
//! its configuration register. The caller carries out the pending action and
//! reports back with an event; the stage takes every decision.

use vstd::prelude::*;
use crate::blob::{
    bdsm_size_key, bdsm_size_key_spec, decode_size, le_u64, opregion_key, opregion_key_spec,
    BDSM_SIZE_LEN,
};
use crate::error::ProvisionError;
use crate::layout::{page_count, pages_for, ADDRESS_CEILING, PAGE_SIZE};
use crate::region::{
    blob_image, lemma_carving_tiles_allocation, load_blob, zeroed, zeroize_bytes, Carving,
    MemoryRegion, PageRange, RegionRequest,
};

verus! {

/// Alignment of the stolen memory: 1 MiB.
pub const STOLEN_MEMORY_ALIGNMENT: u64 = 0x10_0000;

/// Configuration-space offset of the register that points at the OpRegion.
pub const ASLS_OFFSET: u32 = 0xFC;

/// Configuration-space offset of the register that mirrors the base of the
/// stolen memory.
pub const BDSM_MIRROR_OFFSET: u32 = 0x5C;

/// Which of the two stages.
#[derive(Clone, Copy, Debug, PartialEq, Eq, Structural)]
pub enum StageKind {
    OpRegion,
    StolenMemory,
}

/// How allocated pages are classified in the memory map of the platform.
#[derive(Clone, Copy, Debug, PartialEq, Eq, Structural)]
pub enum MemoryClass {
    /// Reserved by the platform and kept across later boot stages, so that
    /// nothing else allocates the pages and the guest can map them.
    ReservedNonVolatile,
}

/// What the platform answered to the pending action of a stage.
#[derive(Debug, PartialEq, Eq)]
pub enum StageEvent {
    /// The blob was found; these are its bytes.
    Blob(Vec<u8>),
    /// Pages were allocated, starting at this address.
    Allocated(u64),
    /// The pending action was carried out and has nothing to report.
    Done,
    /// The pending action could not be carried out.
    Failed,
}

/// What a stage wants done.
#[derive(Clone, Copy, Debug, PartialEq, Eq)]
pub enum StageAction {
    /// Look up the blob of this stage and report its bytes.
    FindBlob { kind: StageKind },
    /// Allocate this many pages of this class that end at or below the
    /// ceiling.
    Allocate { pages: u64, ceiling: u64, class: MemoryClass },
    /// Give this range back to the allocator.
    Release { range: PageRange },
    /// Fill the region as `StageKind::populate` does.
    Populate { kind: StageKind, region: MemoryRegion },
    /// Write `value` as four bytes, least significant first, at `offset` of
    /// the configuration space.
    WriteConfig { offset: u32, value: u32 },
    /// Nothing more: the stage has ended with this outcome.
    Finish { outcome: Result<MemoryRegion, ProvisionError> },
}

/// Where a stage stands.
#[derive(Clone, Copy, Debug, PartialEq, Eq)]
pub enum StageState {
    /// The blob has been asked for.
    AwaitingBlob,
    /// Pages for this request have been asked for.
    AwaitingPages { request: RegionRequest },
    /// `range` is being given back; `rest` is to follow.
    Releasing { range: PageRange, rest: Option<PageRange>, region: MemoryRegion },
    /// The region is being filled.
    Populating { region: MemoryRegion },
    /// The base of the region is being written to the register.
    Writing { region: MemoryRegion },
    /// The stage has ended.
    Finished { outcome: Result<MemoryRegion, ProvisionError> },
}

impl StageState {
    /// The region that the state holds, if it holds one.
    pub open spec fn region(self) -> Option<MemoryRegion> {
        match self {
            StageState::Releasing { region, .. } => Some(region),
            StageState::Populating { region } => Some(region),
            StageState::Writing { region } => Some(region),
            StageState::Finished { outcome: Ok(region) } => Some(region),
            _ => None,
        }
    }

    /// Whether the stage has come to a halt without a region.
    pub open spec fn has_failed(self) -> bool {
        self matches StageState::Finished { outcome: Err(_) }
    }
}

impl StageAction {
    /// Whether the action takes memory from the allocator or writes to the
    /// configuration space of the device.
    pub open spec fn touches_platform(self) -> bool {
        self is Allocate || self is Release || self is Populate || self is WriteConfig
    }
}

/// A stage as contracts see it.
pub struct StageModel {
    pub kind: StageKind,
    pub state: StageState,
}

/// A provisioning stage in progress.
#[derive(Clone, Copy, Debug)]
pub struct Stage {
    kind: StageKind,
    state: StageState,
}

/// The state that follows an honoured allocation: the first release that is
/// due, or the filling of the region where there is no slack.
pub open spec fn state_after_carving(carving: Carving) -> StageState {
    match carving.leading {
        Some(range) => StageState::Releasing {
            range,
            rest: carving.trailing,
            region: carving.region,
        },
        None => match carving.trailing {
            Some(range) => StageState::Releasing { range, rest: None, region: carving.region },
            None => StageState::Populating { region: carving.region },
        },
    }
}

impl StageKind {
    /// Name of the blob that the stage reads.
    pub open spec fn blob_key_spec(self) -> Seq<char> {
        match self {
            StageKind::OpRegion => opregion_key_spec(),
            StageKind::StolenMemory => bdsm_size_key_spec(),
        }
    }

    /// Alignment of the region that the stage publishes.
    pub open spec fn alignment_spec(self) -> u64 {
        match self {
            StageKind::OpRegion => PAGE_SIZE,
            StageKind::StolenMemory => STOLEN_MEMORY_ALIGNMENT,
        }
    }

    /// Offset of the register that receives the base of the region.
    pub open spec fn register_spec(self) -> u32 {
        match self {
            StageKind::OpRegion => ASLS_OFFSET,
            StageKind::StolenMemory => BDSM_MIRROR_OFFSET,
        }
    }

    /// Number of pages that the blob asks for, if the blob is valid. The
    /// OpRegion blob must not be empty and is given the pages that hold it.
    /// The stolen-memory blob must be eight bytes that encode a size which is
    /// a positive whole number of pages.
    pub open spec fn pages_wanted(self, blob: Seq<u8>) -> Option<int> {
        match self {
            StageKind::OpRegion => if blob.len() > 0 {
                Some(page_count(blob.len() as int))
            } else {
                None
            },
            StageKind::StolenMemory => if blob.len() == BDSM_SIZE_LEN && le_u64(blob) > 0 && le_u64(
                blob,
            ) % (PAGE_SIZE as int) == 0 {
                Some(le_u64(blob) / (PAGE_SIZE as int))
            } else {
                None
            },
        }
    }

    /// The request that the stage makes for a blob, or `InvalidFormat`.
    pub open spec fn request_for(self, blob: Seq<u8>) -> Result<RegionRequest, ProvisionError> {
        match self.pages_wanted(blob) {
            Some(pages) => Ok(
                RegionRequest {
                    pages: pages as u64,
                    alignment: self.alignment_spec(),
                    ceiling: ADDRESS_CEILING,
                },
            ),
            None => Err(ProvisionError::InvalidFormat),
        }
    }

    /// A region that the stage may publish: it has pages, its base is
    /// aligned as the stage demands, and it lies wholly at or below the
    /// address ceiling, so that its base fits the 32-bit register.
    pub open spec fn publishable(self, region: MemoryRegion) -> bool {
        &&& region.wf()
        &&& region.alignment == self.alignment_spec()
        &&& region.end() - 1 <= ADDRESS_CEILING
    }

    /// A request that the stage may make.
    pub open spec fn admits(self, request: RegionRequest) -> bool {
        &&& request.wf()
        &&& request.alignment == self.alignment_spec()
        &&& request.ceiling == ADDRESS_CEILING
    }

    /// What a region of `len` bytes holds once the stage has filled it: the
    /// OpRegion blob followed by zeros, or nothing but zeros for the stolen
    /// memory, into which no content is copied.
    pub open spec fn contents(self, len: nat, blob: Seq<u8>) -> Seq<u8> {
        match self {
            StageKind::OpRegion => blob_image(len, blob),
            StageKind::StolenMemory => zeroed(len),
        }
    }

    /// Name of the blob that the stage reads.
    pub fn blob_key(self) -> (key: &'static str)
        ensures
            key@ == self.blob_key_spec(),
    {
        match self {
            StageKind::OpRegion => opregion_key(),
            StageKind::StolenMemory => bdsm_size_key(),
        }
    }

    /// Alignment of the region that the stage publishes.
    pub fn alignment(self) -> (alignment: u64)
        ensures
            alignment == self.alignment_spec(),
    {
        match self {
            StageKind::OpRegion => PAGE_SIZE,
            StageKind::StolenMemory => STOLEN_MEMORY_ALIGNMENT,
        }
    }

    /// Offset of the register that receives the base of the region.
    pub fn register(self) -> (offset: u32)
        ensures
            offset == self.register_spec(),
    {
        match self {
            StageKind::OpRegion => ASLS_OFFSET,
            StageKind::StolenMemory => BDSM_MIRROR_OFFSET,
        }
    }

    /// Validates the blob and derives the request for pages from it.
    pub fn validate(self, blob: &[u8]) -> (request: Result<RegionRequest, ProvisionError>)
        ensures
            request == self.request_for(blob@),
            request matches Ok(r) ==> self.admits(r),
    {
        proof {
            lemma_stage_alignments();
        }
        let pages: u64 = match self {
            StageKind::OpRegion => {
                if blob.len() == 0 {
                    return Err(ProvisionError::InvalidFormat);
                }
                pages_for(blob.len() as u64)
            },
            StageKind::StolenMemory => {
                match decode_size(blob) {
                    Some(size) => {
                        if size == 0 || size % PAGE_SIZE != 0 {
                            return Err(ProvisionError::InvalidFormat);
                        }
                        size / PAGE_SIZE
                    },
                    None => {
                        return Err(ProvisionError::InvalidFormat);
                    },
                }
            },
        };
        RegionRequest::new(pages, self.alignment(), ADDRESS_CEILING)
    }

    /// Fills the pages of the region: with the blob and then zeros for the
    /// OpRegion, with zeros alone for the stolen memory. No slice of memory
    /// is longer than `isize::MAX`, the most that the clearing accepts.
    pub fn populate(self, region: &mut [u8], blob: &[u8])
        requires
            old(region)@.len() <= isize::MAX,
        ensures
            final(region)@ == self.contents(old(region)@.len(), blob@),
    {
        match self {
            StageKind::OpRegion => load_blob(region, blob),
            StageKind::StolenMemory => zeroize_bytes(region),
        }
    }
}

impl StageKind {
    /// The request made for a valid blob of a length that a machine can
    /// hold is one that the stage admits.
    pub proof fn lemma_request_is_admitted(self, blob: Seq<u8>)
        requires
            blob.len() <= usize::MAX,
        ensures
            self.request_for(blob) matches Ok(request) ==> self.admits(request)
                && self.pages_wanted(blob) == Some(request.pages as int),
    {
        lemma_stage_alignments();
    }
}

/// Both stage alignments are powers of two of at least a page.
pub proof fn lemma_stage_alignments()
    ensures
        crate::layout::is_alignment(PAGE_SIZE),
        crate::layout::is_alignment(STOLEN_MEMORY_ALIGNMENT),
{
    assert(0x1000u64 & ((0x1000u64 - 1) as u64) == 0) by (bit_vector);
    assert(0x10_0000u64 & ((0x10_0000u64 - 1) as u64) == 0) by (bit_vector);
}

impl StageModel {
    /// A stage that has just begun: it wants its blob.
    pub open spec fn initial(kind: StageKind) -> StageModel {
        StageModel { kind, state: StageState::AwaitingBlob }
    }

    /// The requests and regions that the state holds are valid, and every
    /// region is publishable.
    pub open spec fn wf(self) -> bool {
        match self.state {
            StageState::AwaitingBlob => true,
            StageState::AwaitingPages { request } => self.kind.admits(request),
            StageState::Releasing { region, .. } => self.kind.publishable(region),
            StageState::Populating { region } => self.kind.publishable(region),
            StageState::Writing { region } => self.kind.publishable(region),
            StageState::Finished { outcome } => outcome matches Ok(region)
                ==> self.kind.publishable(region),
        }
    }

    /// The action that the stage waits for.
    pub open spec fn pending(self) -> StageAction {
        match self.state {
            StageState::AwaitingBlob => StageAction::FindBlob { kind: self.kind },
            StageState::AwaitingPages { request } => StageAction::Allocate {
                pages: request.total_pages() as u64,
                ceiling: request.ceiling,
                class: MemoryClass::ReservedNonVolatile,
            },
            StageState::Releasing { range, .. } => StageAction::Release { range },
            StageState::Populating { region } => StageAction::Populate { kind: self.kind, region },
            StageState::Writing { region } => StageAction::WriteConfig {
                offset: self.kind.register_spec(),
                value: region.base.0 as u32,
            },
            StageState::Finished { outcome } => StageAction::Finish { outcome },
        }
    }

    /// The state that an event leads to. An event that answers no question
    /// of the current state leaves the state as it is.
    pub open spec fn next_state(self, event: StageEvent) -> StageState {
        match self.state {
            StageState::AwaitingBlob => match event {
                StageEvent::Blob(bytes) => match self.kind.request_for(bytes@) {
                    Ok(request) => StageState::AwaitingPages { request },
                    Err(error) => StageState::Finished { outcome: Err(error) },
                },
                StageEvent::Failed => StageState::Finished {
                    outcome: Err(ProvisionError::ResourceMissing),
                },
                _ => self.state,
            },
            StageState::AwaitingPages { request } => match event {
                StageEvent::Allocated(start) => if request.honoured_by(start) {
                    state_after_carving(request.carving(start))
                } else {
                    StageState::Finished { outcome: Err(ProvisionError::AllocationFailure) }
                },
                StageEvent::Failed => StageState::Finished {
                    outcome: Err(ProvisionError::AllocationFailure),
                },
                _ => self.state,
            },
            StageState::Releasing { rest, region, .. } => match event {
                StageEvent::Done => match rest {
                    Some(range) => StageState::Releasing { range, rest: None, region },
                    None => StageState::Populating { region },
                },
                StageEvent::Failed => StageState::Finished {
                    outcome: Err(ProvisionError::AllocationFailure),
                },
                _ => self.state,
            },
            StageState::Populating { region } => match event {
                StageEvent::Done => StageState::Writing { region },
                _ => self.state,
            },
            StageState::Writing { region } => match event {
                StageEvent::Done => StageState::Finished { outcome: Ok(region) },
                StageEvent::Failed => StageState::Finished {
                    outcome: Err(ProvisionError::HardwareAccessFailure),
                },
                _ => self.state,
            },
            StageState::Finished { .. } => self.state,
        }
    }

    /// The stage after one event.
    pub open spec fn next(self, event: StageEvent) -> StageModel {
        StageModel { kind: self.kind, state: self.next_state(event) }
    }

    /// The stage after a sequence of events.
    pub open spec fn after(self, events: Seq<StageEvent>) -> StageModel
        decreases events.len(),
    {
        if events.len() == 0 {
            self
        } else {
            self.after(events.drop_last()).next(events.last())
        }
    }

    /// Every event leads from a valid stage to a valid stage.
    pub proof fn lemma_next_keeps_wf(self, event: StageEvent)
        requires
            self.wf(),
        ensures
            self.next(event).wf(),
    {
        match self.state {
            StageState::AwaitingBlob => {
                if let StageEvent::Blob(bytes) = event {
                    assert(bytes@.len() == bytes.len());
                    self.kind.lemma_request_is_admitted(bytes@);
                }
            },
            StageState::AwaitingPages { request } => {
                if let StageEvent::Allocated(start) = event {
                    if request.honoured_by(start) {
                        lemma_carving_tiles_allocation(request, start);
                    }
                }
            },
            _ => {},
        }
    }
}

impl View for Stage {
    type V = StageModel;

    closed spec fn view(&self) -> StageModel {
        StageModel { kind: self.kind, state: self.state }
    }
}

impl Stage {
    #[verifier::type_invariant]
    spec fn inv(self) -> bool {
        self@.wf()
    }

    /// Begins a stage.
    pub fn start(kind: StageKind) -> (stage: Stage)
        ensures
            stage@ == StageModel::initial(kind),
            stage@.wf(),
    {
        Stage { kind, state: StageState::AwaitingBlob }
    }

    /// Which stage this is.
    pub fn kind(&self) -> (kind: StageKind)
        ensures
            kind == self@.kind,
    {
        self.kind
    }

    /// Where the stage stands.
    pub fn state(&self) -> (state: StageState)
        ensures
            state == self@.state,
            self@.wf(),
    {
        proof {
            use_type_invariant(self);
        }
        self.state
    }

    /// The action that the stage waits for.
    pub fn pending(&self) -> (action: StageAction)
        ensures
            action == self@.pending(),
            self@.wf(),
    {
        proof {
            use_type_invariant(self);
        }
        match self.state {
            StageState::AwaitingBlob => StageAction::FindBlob { kind: self.kind },
            StageState::AwaitingPages { request } => StageAction::Allocate {
                pages: request.pages_to_allocate(),
                ceiling: request.ceiling,
                class: MemoryClass::ReservedNonVolatile,
            },
            StageState::Releasing { range, .. } => StageAction::Release { range },
            StageState::Populating { region } => StageAction::Populate { kind: self.kind, region },
            StageState::Writing { region } => StageAction::WriteConfig {
                offset: self.kind.register(),
                value: region.base.0 as u32,
            },
            StageState::Finished { outcome } => StageAction::Finish { outcome },
        }
    }

    /// Takes in what the platform answered and returns what to do next.
    pub fn step(&mut self, event: &StageEvent) -> (action: StageAction)
        ensures
            final(self)@ == old(self)@.next(*event),
            final(self)@.wf(),
            action == final(self)@.pending(),
    {
        proof {
            use_type_invariant(&*self);
            self@.lemma_next_keeps_wf(*event);
        }
        let state: StageState = match self.state {
            StageState::AwaitingBlob => match event {
                StageEvent::Blob(bytes) => match self.kind.validate(bytes.as_slice()) {
                    Ok(request) => StageState::AwaitingPages { request },
                    Err(error) => StageState::Finished { outcome: Err(error) },
                },
                StageEvent::Failed => StageState::Finished {
                    outcome: Err(ProvisionError::ResourceMissing),
                },
                _ => self.state,
            },
            StageState::AwaitingPages { request } => match event {
                StageEvent::Allocated(start) => match request.carve(*start) {
                    Ok(carving) => match carving.leading {
                        Some(range) => StageState::Releasing {
                            range,
                            rest: carving.trailing,
                            region: carving.region,
                        },
                        None => match carving.trailing {
                            Some(range) => StageState::Releasing {
                                range,
                                rest: None,
                                region: carving.region,
                            },
                            None => StageState::Populating { region: carving.region },
                        },
                    },
                    Err(error) => StageState::Finished { outcome: Err(error) },
                },
                StageEvent::Failed => StageState::Finished {
                    outcome: Err(ProvisionError::AllocationFailure),
                },
                _ => self.state,
            },
            StageState::Releasing { rest, region, .. } => match event {
                StageEvent::Done => match rest {
                    Some(range) => StageState::Releasing { range, rest: None, region },
                    None => StageState::Populating { region },
                },
                StageEvent::Failed => StageState::Finished {
                    outcome: Err(ProvisionError::AllocationFailure),
                },
                _ => self.state,
            },
            StageState::Populating { region } => match event {
                StageEvent::Done => StageState::Writing { region },
                _ => self.state,
            },
            StageState::Writing { region } => match event {
                StageEvent::Done => StageState::Finished { outcome: Ok(region) },
                StageEvent::Failed => StageState::Finished {
                    outcome: Err(ProvisionError::HardwareAccessFailure),
                },
                _ => self.state,
            },
            StageState::Finished { .. } => self.state,
        };
        self.state = state;
        self.pending()
    }
}

} // verus!
