use gpu_readback::device::Extent2D;
use gpu_readback::pools::{BufferState, ComputeCommandBufferPool, PoolError, TransferCommandBufferPool};
use gpu_readback::queue::{QueueFamilies, QueueFamily};
use gpu_readback::replay::{all_pixels_equal, readback_size, Replay, ReplayError};
use gpu_readback::resources::{record_work, GPUData};
use gpu_readback::sync::{
    record_clear_commands, record_copy_commands, Access, ClearColor, Command, FamilyPair,
    ImageLayout, OwnershipTransfer, PipelineStage,
};

const IMAGE: u64 = 0x100;
const BUFFER: u64 = 0x200;
const COLOR: ClearColor = ClearColor { r: 0x19, g: 0x99, b: 0xe5, a: 0xff };

fn shared_families() -> QueueFamilies {
    QueueFamilies {
        graphics: QueueFamily { index: 0, queue_count: 16 },
        compute: None,
        transfer: None,
        unique_indices: vec![0],
    }
}

fn split_families() -> QueueFamilies {
    QueueFamilies {
        graphics: QueueFamily { index: 0, queue_count: 16 },
        compute: Some(QueueFamily { index: 1, queue_count: 8 }),
        transfer: Some(QueueFamily { index: 2, queue_count: 2 }),
        unique_indices: vec![0, 1, 2],
    }
}

fn ownership_barriers(commands: &[Command]) -> Vec<usize> {
    let mut found = vec![];
    for (i, c) in commands.iter().enumerate() {
        if let Command::ImageBarrier(b) = c {
            if b.ownership.is_some() {
                found.push(i);
            }
        }
    }
    found
}

#[test]
fn same_family_records_no_ownership_transfer() {
    let families = shared_families();
    let clear = record_clear_commands(&families, IMAGE, COLOR);
    let copy = record_copy_commands(&families, IMAGE, BUFFER, Extent2D { width: 400, height: 800 });
    assert!(ownership_barriers(&clear).is_empty());
    assert!(ownership_barriers(&copy).is_empty());
    assert_eq!(clear.len(), 3);
    assert_eq!(copy.len(), 2);
    match clear[2] {
        Command::ImageBarrier(b) => {
            assert_eq!(b.src_access, Access::TransferWrite);
            assert_eq!(b.dst_access, Access::TransferRead);
            assert_eq!(b.old_layout, ImageLayout::TransferDstOptimal);
            assert_eq!(b.new_layout, ImageLayout::TransferSrcOptimal);
        }
        _ => panic!("expected a barrier"),
    }
    assert!(OwnershipTransfer::between(&families, IMAGE).is_none());
}

#[test]
fn different_families_record_one_matched_pair() {
    let families = split_families();
    let clear = record_clear_commands(&families, IMAGE, COLOR);
    let copy = record_copy_commands(&families, IMAGE, BUFFER, Extent2D { width: 400, height: 800 });
    assert_eq!(ownership_barriers(&clear), vec![2]);
    assert_eq!(ownership_barriers(&copy), vec![0]);
    let (release, acquire) = match (clear[2], copy[0]) {
        (Command::ImageBarrier(r), Command::ImageBarrier(a)) => (r, a),
        _ => panic!("expected barriers"),
    };
    let pair = FamilyPair { src_family: 1, dst_family: 2 };
    assert_eq!(release.ownership, Some(pair));
    assert_eq!(acquire.ownership, Some(pair));
    assert_eq!(release.old_layout, acquire.old_layout);
    assert_eq!(release.new_layout, acquire.new_layout);
    assert_eq!(release.dst_access, Access::NoAccess);
    assert_eq!(acquire.src_access, Access::NoAccess);
    assert_eq!(acquire.dst_access, Access::TransferRead);
    assert_eq!(release.src_stage, PipelineStage::Clear);
    assert_eq!(acquire.dst_stage, PipelineStage::Copy);
    match copy[2] {
        Command::BufferBarrier(b) => {
            assert_eq!(b.buffer, BUFFER);
            assert_eq!(b.dst_stage, PipelineStage::Host);
            assert_eq!(b.dst_access, Access::HostRead);
        }
        _ => panic!("expected the host barrier"),
    }
}

fn run_end_to_end(families: &QueueFamilies) -> Vec<u8> {
    let extent = Extent2D { width: 400, height: 800 };
    let size = readback_size(&extent).unwrap();
    let clear = record_clear_commands(families, IMAGE, COLOR);
    let copy = record_copy_commands(families, IMAGE, BUFFER, extent);
    let mut replay = Replay::new(IMAGE, BUFFER, size);
    replay.execute_all(families.get_compute_index(), &clear).unwrap();
    replay.execute_all(families.get_transfer_index(), &copy).unwrap();
    replay.host_read().unwrap().clone()
}

#[test]
fn end_to_end_readback_same_family() {
    let data = run_end_to_end(&shared_families());
    assert_eq!(data.len(), 400 * 800 * 4);
    assert!(data.chunks(4).all(|p| p == [0x19, 0x99, 0xe5, 0xff]));
    assert!(all_pixels_equal(&data, COLOR));
}

#[test]
fn end_to_end_readback_cross_family() {
    let data = run_end_to_end(&split_families());
    assert_eq!(data.len(), 400 * 800 * 4);
    assert!(data.chunks(4).all(|p| p == [0x19, 0x99, 0xe5, 0xff]));
    assert!(all_pixels_equal(&data, COLOR));
}

#[test]
fn replay_rejects_copy_without_acquire() {
    let families = split_families();
    let extent = Extent2D { width: 4, height: 4 };
    let clear = record_clear_commands(&families, IMAGE, COLOR);
    let copy = record_copy_commands(&families, IMAGE, BUFFER, extent);
    let mut replay = Replay::new(IMAGE, BUFFER, 64);
    replay.execute_all(1, &clear).unwrap();
    // The copy without its acquire barrier.
    let err = replay.execute(2, &copy[1]).unwrap_err();
    assert_eq!(err, ReplayError::UnmatchedTransfer);
}

#[test]
fn replay_rejects_host_read_before_flush() {
    let families = shared_families();
    let extent = Extent2D { width: 2, height: 2 };
    let clear = record_clear_commands(&families, IMAGE, COLOR);
    let copy = record_copy_commands(&families, IMAGE, BUFFER, extent);
    let mut replay = Replay::new(IMAGE, BUFFER, 16);
    replay.execute_all(0, &clear).unwrap();
    replay.execute(0, &copy[0]).unwrap();
    assert_eq!(replay.host_read().unwrap_err(), ReplayError::NotVisibleToHost);
    replay.execute(0, &copy[1]).unwrap();
    assert_eq!(replay.host_read().unwrap().len(), 16);
}

#[test]
fn replay_rejects_small_buffer_and_uncleared_image() {
    let families = shared_families();
    let extent = Extent2D { width: 2, height: 2 };
    let clear = record_clear_commands(&families, IMAGE, COLOR);
    let copy = record_copy_commands(&families, IMAGE, BUFFER, extent);
    let mut replay = Replay::new(IMAGE, BUFFER, 15);
    replay.execute_all(0, &clear).unwrap();
    assert_eq!(replay.execute_all(0, &copy).unwrap_err(), ReplayError::BufferTooSmall);

    let mut fresh = Replay::new(IMAGE, BUFFER, 16);
    assert_eq!(fresh.execute(0, &copy[0]).unwrap_err(), ReplayError::LayoutMismatch);
}

#[test]
fn readback_size_and_pixel_check() {
    assert_eq!(readback_size(&Extent2D { width: 400, height: 800 }), Some(1_280_000));
    assert_eq!(readback_size(&Extent2D { width: 0, height: 800 }), Some(0));
    assert!(all_pixels_equal(&vec![1, 2, 3, 4, 1, 2, 3, 4], ClearColor { r: 1, g: 2, b: 3, a: 4 }));
    assert!(!all_pixels_equal(&vec![1, 2, 3, 4, 1, 2, 3, 5], ClearColor { r: 1, g: 2, b: 3, a: 4 }));
    assert!(!all_pixels_equal(&vec![1, 2, 3], ClearColor { r: 1, g: 2, b: 3, a: 4 }));
}

fn data() -> GPUData {
    GPUData {
        clear_image: IMAGE,
        clear_image_memory: 0x300,
        final_buffer: BUFFER,
        final_buffer_size: 400 * 800 * 4,
        final_buffer_memory: 0x400,
        final_buffer_needs_invalidation: false,
    }
}

#[test]
fn rerecording_before_fence_fails() {
    let families = split_families();
    let mut compute = ComputeCommandBufferPool::create(1, 2);
    let mut transfer = TransferCommandBufferPool::create(3, 4);
    let extent = Extent2D { width: 400, height: 800 };
    record_work(&mut compute, &mut transfer, &families, &data(), extent, COLOR).unwrap();
    assert_eq!(compute.recording.state_now(), BufferState::Executable);
    compute.recording.mark_submitted().unwrap();
    transfer.recording.mark_submitted().unwrap();

    assert_eq!(
        record_work(&mut compute, &mut transfer, &families, &data(), extent, COLOR),
        Err(PoolError::StillPending)
    );
    assert_eq!(compute.reset(), Err(PoolError::StillPending));
    assert_eq!(transfer.reset(), Err(PoolError::StillPending));
    assert_eq!(compute.recording.state_now(), BufferState::Pending);
    assert_eq!(compute.recording.commands_now().len(), 3);

    compute.recording.mark_complete().unwrap();
    transfer.recording.mark_complete().unwrap();
    record_work(&mut compute, &mut transfer, &families, &data(), extent, COLOR).unwrap();
    assert_eq!(transfer.recording.state_now(), BufferState::Executable);
}

#[test]
fn recording_needs_a_reset_buffer() {
    let families = shared_families();
    let mut compute = ComputeCommandBufferPool::create(1, 2);
    compute.record_clear_img(&families, IMAGE, COLOR).unwrap();
    assert_eq!(compute.record_clear_img(&families, IMAGE, COLOR), Err(PoolError::NotReset));
    assert_eq!(compute.recording.mark_complete(), Err(PoolError::NotPending));
    compute.reset().unwrap();
    assert_eq!(compute.recording.state_now(), BufferState::Initial);
    assert!(compute.recording.commands_now().is_empty());
    assert_eq!(compute.recording.mark_submitted(), Err(PoolError::NotExecutable));
}
