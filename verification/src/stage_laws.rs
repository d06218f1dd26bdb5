//! What holds of a stage whatever the platform answers.

use vstd::prelude::*;
use crate::blob::{le_u64, BDSM_SIZE_LEN};
use crate::error::ProvisionError;
use crate::layout::{is_aligned, page_count, ADDRESS_CEILING, PAGE_SIZE};
use crate::region::MemoryRegion;
use crate::stage::{
    MemoryClass, StageAction, StageEvent, StageKind, StageModel, StageState,
    STOLEN_MEMORY_ALIGNMENT,
};

verus! {

/// A stage that was shown a blob asking for `pages` pages stands in no state
/// with another request or with a region of another size.
pub open spec fn keeps_to(stage: StageModel, pages: int) -> bool {
    &&& stage.wf()
    &&& !(stage.state is AwaitingBlob)
    &&& stage.state matches StageState::AwaitingPages { request } ==> request.pages == pages
    &&& stage.state.region() matches Some(region) ==> region.pages == pages
}

/// A stage that has halted stays where it is, whatever it is told.
pub proof fn lemma_finished_stage_stays(stage: StageModel, events: Seq<StageEvent>)
    requires
        stage.state is Finished,
    ensures
        stage.after(events) == stage,
    decreases events.len(),
{
    if events.len() > 0 {
        lemma_finished_stage_stays(stage, events.drop_last());
    }
}

/// Validity is kept along every sequence of events.
pub proof fn lemma_after_keeps_wf(stage: StageModel, events: Seq<StageEvent>)
    requires
        stage.wf(),
    ensures
        stage.after(events).wf(),
        stage.after(events).kind == stage.kind,
    decreases events.len(),
{
    if events.len() > 0 {
        lemma_after_keeps_wf(stage, events.drop_last());
        stage.after(events.drop_last()).lemma_next_keeps_wf(events.last());
    }
}

/// Once a valid blob has been taken in, whatever the platform answers from
/// then on, the stage asks for, fills and publishes a region of exactly the
/// pages that the blob calls for, at a base that is a multiple of the
/// alignment of the stage and fits the register.
pub proof fn lemma_region_is_as_requested(
    kind: StageKind,
    blob: Vec<u8>,
    replies: Seq<StageEvent>,
)
    requires
        kind.pages_wanted(blob@) is Some,
    ensures
        ({
            let stage = StageModel::initial(kind).next(StageEvent::Blob(blob)).after(replies);
            let pages = kind.pages_wanted(blob@)->0;
            &&& stage.kind == kind
            &&& keeps_to(stage, pages)
            &&& stage.state.region() matches Some(region) ==> {
                &&& region.pages == pages
                &&& is_aligned(region.base.0 as int, kind.alignment_spec() as int)
                &&& region.base.0 + region.pages * PAGE_SIZE - 1 <= ADDRESS_CEILING
            }
        }),
    decreases replies.len(),
{
    let first = StageModel::initial(kind).next(StageEvent::Blob(blob));
    let pages = kind.pages_wanted(blob@)->0;
    assert(blob@.len() == blob.len());
    kind.lemma_request_is_admitted(blob@);
    if replies.len() > 0 {
        lemma_region_is_as_requested(kind, blob, replies.drop_last());
        let before = first.after(replies.drop_last());
        before.lemma_next_keeps_wf(replies.last());
        if let StageState::AwaitingPages { request } = before.state {
            if let StageEvent::Allocated(start) = replies.last() {
                if request.honoured_by(start) {
                    crate::region::lemma_carving_tiles_allocation(request, start);
                }
            }
        }
    }
}

/// For an OpRegion blob of `S > 0` bytes the stage asks for exactly
/// `ceil(S / PAGE_SIZE)` pages, with no overallocation.
pub proof fn lemma_opregion_allocates_pages_for_blob(blob: Vec<u8>)
    requires
        blob@.len() > 0,
    ensures
        StageModel::initial(StageKind::OpRegion).next(StageEvent::Blob(blob)).pending()
            == (StageAction::Allocate {
            pages: page_count(blob@.len() as int) as u64,
            ceiling: ADDRESS_CEILING,
            class: MemoryClass::ReservedNonVolatile,
        }),
{
    assert(blob@.len() == blob.len());
    StageKind::OpRegion.lemma_request_is_admitted(blob@);
}

/// For a stolen-memory size that is a positive multiple of the page size the
/// stage asks for `size / PAGE_SIZE` pages and the overallocation of 255, and
/// every region it goes on to hold has `size / PAGE_SIZE` pages at a base
/// that is a multiple of 1 MiB.
pub proof fn lemma_stolen_memory_is_aligned_and_exact(blob: Vec<u8>, replies: Seq<StageEvent>)
    requires
        blob@.len() == BDSM_SIZE_LEN,
        le_u64(blob@) > 0,
        le_u64(blob@) % (PAGE_SIZE as int) == 0,
    ensures
        ({
            let taken = StageModel::initial(StageKind::StolenMemory).next(StageEvent::Blob(blob));
            let pages = le_u64(blob@) / (PAGE_SIZE as int);
            &&& taken.pending() == (StageAction::Allocate {
                pages: (pages + 255) as u64,
                ceiling: ADDRESS_CEILING,
                class: MemoryClass::ReservedNonVolatile,
            })
            &&& taken.after(replies).state.region() matches Some(region) ==> {
                &&& region.pages == pages
                &&& region.base.0 % STOLEN_MEMORY_ALIGNMENT == 0
            }
        }),
{
    assert(blob@.len() == blob.len());
    StageKind::StolenMemory.lemma_request_is_admitted(blob@);
    lemma_region_is_as_requested(StageKind::StolenMemory, blob, replies);
}

/// A stage that is shown no valid blob never asks for pages, never releases
/// or fills any, and never writes to the configuration space: it waits for
/// its blob or has halted with an error.
pub proof fn lemma_invalid_blob_touches_nothing(kind: StageKind, events: Seq<StageEvent>)
    requires
        forall|i: int|
            0 <= i < events.len() ==> (#[trigger] events[i] matches StageEvent::Blob(blob)
                ==> kind.pages_wanted(blob@) is None),
    ensures
        ({
            let stage = StageModel::initial(kind).after(events);
            &&& stage.kind == kind
            &&& stage.state is AwaitingBlob || stage.state.has_failed()
            &&& !stage.pending().touches_platform()
        }),
    decreases events.len(),
{
    if events.len() > 0 {
        let earlier = events.drop_last();
        assert forall|i: int| 0 <= i < earlier.len() implies (#[trigger] earlier[i] matches StageEvent::Blob(
            blob,
        ) ==> kind.pages_wanted(blob@) is None) by {
            assert(earlier[i] == events[i]);
        }
        lemma_invalid_blob_touches_nothing(kind, earlier);
        assert(events.last() == events[events.len() - 1]);
    }
}

/// A stolen-memory blob whose size is zero or no whole number of pages ends
/// the stage with `InvalidFormat` at once, and nothing that follows makes it
/// allocate or write.
pub proof fn lemma_bad_stolen_size_is_rejected(blob: Vec<u8>, replies: Seq<StageEvent>)
    requires
        blob@.len() == BDSM_SIZE_LEN,
        le_u64(blob@) == 0 || le_u64(blob@) % (PAGE_SIZE as int) != 0,
    ensures
        StageModel::initial(StageKind::StolenMemory).next(StageEvent::Blob(blob)).after(
            replies,
        ).pending() == (StageAction::Finish { outcome: Err(ProvisionError::InvalidFormat) }),
{
    let halted = StageModel::initial(StageKind::StolenMemory).next(StageEvent::Blob(blob));
    lemma_finished_stage_stays(halted, replies);
}

/// A write that a stage asks for goes to the register of the stage and
/// carries the base address of the region that the stage holds, whole.
pub proof fn lemma_write_carries_region_base(stage: StageModel)
    requires
        stage.wf(),
    ensures
        stage.pending() matches StageAction::WriteConfig { offset, value } ==> {
            &&& offset == stage.kind.register_spec()
            &&& stage.state matches StageState::Writing { region }
            &&& value == region.base.0
        },
{
}

/// The OpRegion stage, given a blob and an allocation that honours its
/// request, keeps all of the allocation, has it filled, then has the start
/// of the allocation written to its register, and ends with that region.
pub proof fn lemma_opregion_runs_to_its_write(blob: Vec<u8>, start: u64)
    requires
        blob@.len() > 0,
        StageKind::OpRegion.request_for(blob@) matches Ok(request) && request.honoured_by(start),
    ensures
        ({
            let region = MemoryRegion {
                base: crate::layout::PhysAddr(start),
                pages: page_count(blob@.len() as int) as u64,
                alignment: PAGE_SIZE,
            };
            let allocated = StageModel::initial(StageKind::OpRegion).next(
                StageEvent::Blob(blob),
            ).next(StageEvent::Allocated(start));
            &&& allocated.pending() == (StageAction::Populate { kind: StageKind::OpRegion, region })
            &&& allocated.next(StageEvent::Done).pending() == (StageAction::WriteConfig {
                offset: crate::stage::ASLS_OFFSET,
                value: start as u32,
            })
            &&& start <= u32::MAX
            &&& allocated.next(StageEvent::Done).next(StageEvent::Done).pending() == (
            StageAction::Finish { outcome: Ok(region) })
        }),
{
    assert(blob@.len() == blob.len());
    StageKind::OpRegion.lemma_request_is_admitted(blob@);
    let request = StageKind::OpRegion.request_for(blob@)->Ok_0;
    crate::region::lemma_carving_tiles_allocation(request, start);
    vstd::arithmetic::div_mod::lemma_mod_self_0(PAGE_SIZE as int);
}

/// What the OpRegion stage leaves in a region of `ceil(S / PAGE_SIZE)` pages
/// for a blob of `S` bytes: the bytes of the blob, in order, from the first
/// byte of the region, and zeros from there to the end of the region.
pub proof fn lemma_opregion_contents(blob: Seq<u8>)
    ensures
        ({
            let len = (page_count(blob.len() as int) * PAGE_SIZE) as nat;
            let held = StageKind::OpRegion.contents(len, blob);
            &&& held.len() == len
            &&& len >= blob.len()
            &&& held.subrange(0, blob.len() as int) == blob
            &&& forall|i: int| blob.len() <= i < len ==> held[i] == 0u8
        }),
{
    crate::layout::lemma_page_count_covers(blob.len() as int);
    let len = (page_count(blob.len() as int) * PAGE_SIZE) as nat;
    let held = StageKind::OpRegion.contents(len, blob);
    assert(held.subrange(0, blob.len() as int) =~= blob);
}

/// The stolen-memory stage leaves nothing but zeros in its region.
pub proof fn lemma_stolen_memory_contents(len: nat, blob: Seq<u8>)
    ensures
        StageKind::StolenMemory.contents(len, blob).len() == len,
        forall|i: int| 0 <= i < len ==> StageKind::StolenMemory.contents(len, blob)[i] == 0u8,
{
}

} // verus!
