use igd_provision::error::ProvisionError;
use igd_provision::layout::PhysAddr;
use igd_provision::region::{MemoryRegion, PageRange, RegionRequest};
use igd_provision::stage::{
    MemoryClass, Stage, StageAction, StageEvent, StageKind, StageState, ASLS_OFFSET, BDSM_MIRROR_OFFSET,
    STOLEN_MEMORY_ALIGNMENT,
};

const MIB: u64 = 0x10_0000;

fn size_blob(size: u64) -> Vec<u8> {
    size.to_le_bytes().to_vec()
}

fn allocate(pages: u64) -> StageAction {
    StageAction::Allocate {
        pages,
        ceiling: 0xFFFF_FFFF,
        class: MemoryClass::ReservedNonVolatile,
    }
}

fn failed(error: ProvisionError) -> StageAction {
    StageAction::Finish { outcome: Err(error) }
}

#[test]
fn stage_constants() {
    assert_eq!(STOLEN_MEMORY_ALIGNMENT, 0x10_0000);
    assert_eq!(ASLS_OFFSET, 0xFC);
    assert_eq!(BDSM_MIRROR_OFFSET, 0x5C);
    assert_eq!(StageKind::OpRegion.alignment(), 4096);
    assert_eq!(StageKind::StolenMemory.alignment(), MIB);
    assert_eq!(StageKind::OpRegion.register(), 0xFC);
    assert_eq!(StageKind::StolenMemory.register(), 0x5C);
    assert_eq!(StageKind::OpRegion.blob_key(), "etc/igd-opregion");
    assert_eq!(StageKind::StolenMemory.blob_key(), "etc/igd-bdsm-size");
}

#[test]
fn validate_opregion_blob() {
    assert_eq!(
        StageKind::OpRegion.validate(&vec![1u8; 10000]),
        Ok(RegionRequest { pages: 3, alignment: 4096, ceiling: 0xFFFF_FFFF })
    );
    assert_eq!(
        StageKind::OpRegion.validate(&[9u8]),
        Ok(RegionRequest { pages: 1, alignment: 4096, ceiling: 0xFFFF_FFFF })
    );
    assert_eq!(
        StageKind::OpRegion.validate(&vec![0u8; 8192]),
        Ok(RegionRequest { pages: 2, alignment: 4096, ceiling: 0xFFFF_FFFF })
    );
    assert_eq!(StageKind::OpRegion.validate(&[]), Err(ProvisionError::InvalidFormat));
}

#[test]
fn validate_stolen_memory_blob() {
    assert_eq!(
        StageKind::StolenMemory.validate(&size_blob(8 * MIB)),
        Ok(RegionRequest { pages: 2048, alignment: MIB, ceiling: 0xFFFF_FFFF })
    );
    assert_eq!(
        StageKind::StolenMemory.validate(&size_blob(4096)),
        Ok(RegionRequest { pages: 1, alignment: MIB, ceiling: 0xFFFF_FFFF })
    );
    assert_eq!(
        StageKind::StolenMemory.validate(&size_blob(0)),
        Err(ProvisionError::InvalidFormat)
    );
    assert_eq!(
        StageKind::StolenMemory.validate(&size_blob(4097)),
        Err(ProvisionError::InvalidFormat)
    );
    assert_eq!(
        StageKind::StolenMemory.validate(&size_blob(4095)),
        Err(ProvisionError::InvalidFormat)
    );
    assert_eq!(
        StageKind::StolenMemory.validate(&size_blob(u64::MAX)),
        Err(ProvisionError::InvalidFormat)
    );
    assert_eq!(
        StageKind::StolenMemory.validate(&[0, 0, 0x80, 0]),
        Err(ProvisionError::InvalidFormat)
    );
    assert_eq!(
        StageKind::StolenMemory.validate(&[0, 0, 0x80, 0, 0, 0, 0, 0, 0]),
        Err(ProvisionError::InvalidFormat)
    );
    assert_eq!(StageKind::StolenMemory.validate(&[]), Err(ProvisionError::InvalidFormat));
}

#[test]
fn validate_largest_stolen_memory_size() {
    assert_eq!(
        StageKind::StolenMemory.validate(&size_blob(u64::MAX - 4095)),
        Ok(RegionRequest { pages: (1u64 << 52) - 1, alignment: MIB, ceiling: 0xFFFF_FFFF })
    );
}

#[test]
fn populate_opregion_copies_blob() {
    let blob: Vec<u8> = (0..5000u32).map(|i| (i % 200) as u8 + 1).collect();
    let mut region = vec![0x55u8; 8192];
    StageKind::OpRegion.populate(&mut region, &blob);
    assert_eq!(&region[..5000], &blob[..]);
    assert!(region[5000..].iter().all(|&b| b == 0));
}

#[test]
fn populate_stolen_memory_copies_nothing() {
    let blob = size_blob(8192);
    let mut region = vec![0x55u8; 8192];
    StageKind::StolenMemory.populate(&mut region, &blob);
    assert_eq!(region, vec![0u8; 8192]);
}

#[test]
fn populate_stolen_memory_of_no_length() {
    let mut region: Vec<u8> = Vec::new();
    StageKind::StolenMemory.populate(&mut region, &[1, 2, 3]);
    assert!(region.is_empty());
}

#[test]
fn stage_begins_by_asking_for_its_blob() {
    let stage = Stage::start(StageKind::OpRegion);
    assert_eq!(stage.kind(), StageKind::OpRegion);
    assert_eq!(stage.state(), StageState::AwaitingBlob);
    assert_eq!(stage.pending(), StageAction::FindBlob { kind: StageKind::OpRegion });
    let stage = Stage::start(StageKind::StolenMemory);
    assert_eq!(stage.kind(), StageKind::StolenMemory);
    assert_eq!(stage.pending(), StageAction::FindBlob { kind: StageKind::StolenMemory });
}

#[test]
fn opregion_stage_runs_through() {
    let mut stage = Stage::start(StageKind::OpRegion);
    let region = MemoryRegion { base: PhysAddr(0x7ffd_0000), pages: 3, alignment: 4096 };
    assert_eq!(
        stage.step(&StageEvent::Blob(vec![0xAB; 10000])),
        allocate(3)
    );
    assert_eq!(
        stage.step(&StageEvent::Allocated(0x7ffd_0000)),
        StageAction::Populate { kind: StageKind::OpRegion, region }
    );
    assert_eq!(
        stage.step(&StageEvent::Done),
        StageAction::WriteConfig { offset: 0xFC, value: 0x7ffd_0000 }
    );
    assert_eq!(stage.state(), StageState::Writing { region });
    assert_eq!(stage.step(&StageEvent::Done), StageAction::Finish { outcome: Ok(region) });
    assert_eq!(stage.state(), StageState::Finished { outcome: Ok(region) });
}

#[test]
fn stolen_memory_stage_runs_through_with_both_releases() {
    let mut stage = Stage::start(StageKind::StolenMemory);
    let region = MemoryRegion { base: PhysAddr(0x7000_0000), pages: 2048, alignment: MIB };
    assert_eq!(
        stage.step(&StageEvent::Blob(size_blob(8 * MIB))),
        allocate(2048 + 255)
    );
    // The allocation begins 16 pages below a boundary.
    assert_eq!(
        stage.step(&StageEvent::Allocated(0x6fff_0000)),
        StageAction::Release { range: PageRange { base: PhysAddr(0x6fff_0000), pages: 16 } }
    );
    assert_eq!(
        stage.step(&StageEvent::Done),
        StageAction::Release { range: PageRange { base: PhysAddr(0x7080_0000), pages: 239 } }
    );
    assert_eq!(
        stage.step(&StageEvent::Done),
        StageAction::Populate { kind: StageKind::StolenMemory, region }
    );
    assert_eq!(
        stage.step(&StageEvent::Done),
        StageAction::WriteConfig { offset: 0x5C, value: 0x7000_0000 }
    );
    assert_eq!(stage.step(&StageEvent::Done), StageAction::Finish { outcome: Ok(region) });
}

#[test]
fn stolen_memory_stage_with_aligned_allocation_releases_once() {
    let mut stage = Stage::start(StageKind::StolenMemory);
    stage.step(&StageEvent::Blob(size_blob(MIB)));
    assert_eq!(stage.pending(), allocate(256 + 255));
    assert_eq!(
        stage.step(&StageEvent::Allocated(0x1000_0000)),
        StageAction::Release { range: PageRange { base: PhysAddr(0x1010_0000), pages: 255 } }
    );
    assert_eq!(
        stage.step(&StageEvent::Done),
        StageAction::Populate {
            kind: StageKind::StolenMemory,
            region: MemoryRegion { base: PhysAddr(0x1000_0000), pages: 256, alignment: MIB },
        }
    );
}

#[test]
fn stolen_memory_stage_with_only_leading_slack() {
    let mut stage = Stage::start(StageKind::StolenMemory);
    stage.step(&StageEvent::Blob(size_blob(4096)));
    assert_eq!(
        stage.step(&StageEvent::Allocated(0x1000_1000)),
        StageAction::Release { range: PageRange { base: PhysAddr(0x1000_1000), pages: 255 } }
    );
    assert_eq!(
        stage.step(&StageEvent::Done),
        StageAction::Populate {
            kind: StageKind::StolenMemory,
            region: MemoryRegion { base: PhysAddr(0x1010_0000), pages: 1, alignment: MIB },
        }
    );
}

#[test]
fn missing_blob_is_resource_missing() {
    for kind in [StageKind::OpRegion, StageKind::StolenMemory] {
        let mut stage = Stage::start(kind);
        assert_eq!(stage.step(&StageEvent::Failed), failed(ProvisionError::ResourceMissing));
        assert_eq!(
            stage.state(),
            StageState::Finished { outcome: Err(ProvisionError::ResourceMissing) }
        );
    }
}

#[test]
fn empty_opregion_is_invalid_format() {
    let mut stage = Stage::start(StageKind::OpRegion);
    assert_eq!(stage.step(&StageEvent::Blob(Vec::new())), failed(ProvisionError::InvalidFormat));
}

#[test]
fn zero_stolen_size_is_invalid_format() {
    let mut stage = Stage::start(StageKind::StolenMemory);
    assert_eq!(
        stage.step(&StageEvent::Blob(size_blob(0))),
        failed(ProvisionError::InvalidFormat)
    );
}

#[test]
fn unaligned_stolen_size_is_invalid_format() {
    let mut stage = Stage::start(StageKind::StolenMemory);
    assert_eq!(
        stage.step(&StageEvent::Blob(size_blob(4097))),
        failed(ProvisionError::InvalidFormat)
    );
    // Nothing that follows makes the stage allocate or write.
    for event in [
        StageEvent::Allocated(0x1000_0000),
        StageEvent::Done,
        StageEvent::Blob(size_blob(4096)),
        StageEvent::Failed,
    ] {
        assert_eq!(stage.step(&event), failed(ProvisionError::InvalidFormat));
    }
}

#[test]
fn short_stolen_size_blob_is_invalid_format() {
    let mut stage = Stage::start(StageKind::StolenMemory);
    assert_eq!(
        stage.step(&StageEvent::Blob(vec![0, 0x10, 0, 0])),
        failed(ProvisionError::InvalidFormat)
    );
}

#[test]
fn refused_allocation_is_allocation_failure() {
    let mut stage = Stage::start(StageKind::OpRegion);
    stage.step(&StageEvent::Blob(vec![1; 100]));
    assert_eq!(stage.step(&StageEvent::Failed), failed(ProvisionError::AllocationFailure));
}

#[test]
fn allocation_above_ceiling_is_allocation_failure() {
    let mut stage = Stage::start(StageKind::OpRegion);
    stage.step(&StageEvent::Blob(vec![1; 100]));
    assert_eq!(
        stage.step(&StageEvent::Allocated(0x1_0000_0000)),
        failed(ProvisionError::AllocationFailure)
    );
}

#[test]
fn allocation_off_page_boundary_is_allocation_failure() {
    let mut stage = Stage::start(StageKind::StolenMemory);
    stage.step(&StageEvent::Blob(size_blob(4096)));
    assert_eq!(
        stage.step(&StageEvent::Allocated(0x1000_0800)),
        failed(ProvisionError::AllocationFailure)
    );
}

#[test]
fn refused_release_is_allocation_failure() {
    let mut stage = Stage::start(StageKind::StolenMemory);
    stage.step(&StageEvent::Blob(size_blob(4096)));
    stage.step(&StageEvent::Allocated(0x1000_8000));
    assert_eq!(stage.step(&StageEvent::Failed), failed(ProvisionError::AllocationFailure));

    let mut stage = Stage::start(StageKind::StolenMemory);
    stage.step(&StageEvent::Blob(size_blob(4096)));
    stage.step(&StageEvent::Allocated(0x1000_8000));
    stage.step(&StageEvent::Done);
    assert_eq!(stage.step(&StageEvent::Failed), failed(ProvisionError::AllocationFailure));
}

#[test]
fn failed_write_is_hardware_access_failure() {
    let mut stage = Stage::start(StageKind::OpRegion);
    stage.step(&StageEvent::Blob(vec![1; 100]));
    stage.step(&StageEvent::Allocated(0x1000));
    stage.step(&StageEvent::Done);
    assert_eq!(stage.pending(), StageAction::WriteConfig { offset: 0xFC, value: 0x1000 });
    assert_eq!(stage.step(&StageEvent::Failed), failed(ProvisionError::HardwareAccessFailure));
}

#[test]
fn unexpected_events_change_nothing() {
    let mut stage = Stage::start(StageKind::OpRegion);
    let wanted = StageAction::FindBlob { kind: StageKind::OpRegion };
    assert_eq!(stage.step(&StageEvent::Done), wanted);
    assert_eq!(stage.step(&StageEvent::Allocated(0x1000)), wanted);
    assert_eq!(stage.state(), StageState::AwaitingBlob);

    stage.step(&StageEvent::Blob(vec![1; 4097]));
    let wanted = allocate(2);
    assert_eq!(stage.step(&StageEvent::Done), wanted);
    assert_eq!(stage.step(&StageEvent::Blob(vec![1; 9000])), wanted);

    stage.step(&StageEvent::Allocated(0x2000));
    let region = MemoryRegion { base: PhysAddr(0x2000), pages: 2, alignment: 4096 };
    let wanted = StageAction::Populate { kind: StageKind::OpRegion, region };
    assert_eq!(stage.step(&StageEvent::Failed), wanted);
    assert_eq!(stage.step(&StageEvent::Allocated(0x9000)), wanted);
    assert_eq!(stage.step(&StageEvent::Blob(vec![1; 1])), wanted);

    stage.step(&StageEvent::Done);
    let wanted = StageAction::WriteConfig { offset: 0xFC, value: 0x2000 };
    assert_eq!(stage.step(&StageEvent::Allocated(0x9000)), wanted);
    assert_eq!(stage.step(&StageEvent::Blob(vec![1; 1])), wanted);
}

#[test]
fn finished_stage_stays_finished() {
    let mut stage = Stage::start(StageKind::OpRegion);
    stage.step(&StageEvent::Blob(vec![1; 100]));
    stage.step(&StageEvent::Allocated(0x3000));
    stage.step(&StageEvent::Done);
    let last = stage.step(&StageEvent::Done);
    let region = MemoryRegion { base: PhysAddr(0x3000), pages: 1, alignment: 4096 };
    assert_eq!(last, StageAction::Finish { outcome: Ok(region) });
    for event in [
        StageEvent::Failed,
        StageEvent::Done,
        StageEvent::Allocated(0),
        StageEvent::Blob(Vec::new()),
    ] {
        assert_eq!(stage.step(&event), last);
    }
}

#[test]
fn stolen_memory_base_is_aligned_for_every_page_offset() {
    for page in 0..256u64 {
        let start = 0x3000_0000 + page * 4096;
        let mut stage = Stage::start(StageKind::StolenMemory);
        stage.step(&StageEvent::Blob(size_blob(64 * 4096)));
        let mut action = stage.step(&StageEvent::Allocated(start));
        let mut released = 0;
        while let StageAction::Release { range } = action {
            released += range.pages;
            action = stage.step(&StageEvent::Done);
        }
        assert_eq!(released, 255);
        match action {
            StageAction::Populate { kind, region } => {
                assert_eq!(kind, StageKind::StolenMemory);
                assert_eq!(region.pages, 64);
                assert_eq!(region.base.0 % MIB, 0);
                assert!(region.base.0 >= start);
                assert!(region.base.0 < start + MIB);
            }
            other => panic!("unexpected action {:?}", other),
        }
    }
}
