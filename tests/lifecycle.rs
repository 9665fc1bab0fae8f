use gpu_readback::errors::{DeviceError, OutOfMemoryError, RESULT_DEVICE_LOST, RESULT_OUT_OF_DEVICE_MEMORY};
use gpu_readback::lifetime::{LifetimeError, ObjectKind, ObjectTracker};
use gpu_readback::submit::{SubmitAction, SubmitPhase, SubmitRun};
use gpu_readback::sync::PipelineStage;

#[test]
fn failed_setup_rolls_back_resources_before_memory() {
    // Image created, its memory allocated and bound, buffer created, then
    // the buffer's memory allocation fails.
    let mut tracker = ObjectTracker::new();
    tracker.created(1, ObjectKind::Image).unwrap();
    tracker.created(2, ObjectKind::Memory).unwrap();
    tracker.bound(1, 2).unwrap();
    tracker.created(3, ObjectKind::Buffer).unwrap();
    let order = tracker.teardown().unwrap();
    let handles: Vec<u64> = order.iter().map(|o| o.handle).collect();
    assert_eq!(handles, vec![3, 1, 2]);
    assert_eq!(order[1].kind, ObjectKind::Image);
    assert_eq!(order[1].bound_to, Some(2));
    assert_eq!(order[2].kind, ObjectKind::Memory);
    assert!(!tracker.is_live(1));
}

#[test]
fn teardown_orders_every_resource_before_any_memory() {
    let mut tracker = ObjectTracker::new();
    tracker.created(10, ObjectKind::Memory).unwrap();
    tracker.created(11, ObjectKind::Image).unwrap();
    tracker.created(12, ObjectKind::Buffer).unwrap();
    tracker.created(13, ObjectKind::Memory).unwrap();
    tracker.bound(11, 13).unwrap();
    tracker.bound(12, 10).unwrap();
    tracker.created(14, ObjectKind::Semaphore).unwrap();
    let order = tracker.teardown().unwrap();
    let handles: Vec<u64> = order.iter().map(|o| o.handle).collect();
    assert_eq!(handles, vec![14, 12, 11, 13, 10]);
}

#[test]
fn double_destroy_is_refused() {
    let mut tracker = ObjectTracker::new();
    tracker.created(1, ObjectKind::Fence).unwrap();
    assert_eq!(tracker.destroy(1), Ok(ObjectKind::Fence));
    assert_eq!(tracker.destroy(1), Err(LifetimeError::NotLive));
    assert_eq!(tracker.destroy(99), Err(LifetimeError::NotLive));
}

#[test]
fn memory_outlives_bound_resource() {
    let mut tracker = ObjectTracker::new();
    tracker.created(1, ObjectKind::Buffer).unwrap();
    tracker.created(2, ObjectKind::Memory).unwrap();
    tracker.bound(1, 2).unwrap();
    assert_eq!(tracker.destroy(2), Err(LifetimeError::StillBound));
    assert_eq!(tracker.destroy(1), Ok(ObjectKind::Buffer));
    assert_eq!(tracker.destroy(2), Ok(ObjectKind::Memory));
}

#[test]
fn destroy_before_completion_is_refused() {
    let mut tracker = ObjectTracker::new();
    tracker.created(1, ObjectKind::Image).unwrap();
    tracker.mark_in_use();
    assert_eq!(tracker.destroy(1), Err(LifetimeError::InUse));
    assert_eq!(tracker.teardown(), Err(LifetimeError::InUse));
    assert!(tracker.is_live(1));
    tracker.mark_idle();
    assert_eq!(tracker.destroy(1), Ok(ObjectKind::Image));
}

#[test]
fn binding_rules() {
    let mut tracker = ObjectTracker::new();
    tracker.created(1, ObjectKind::Image).unwrap();
    tracker.created(2, ObjectKind::Memory).unwrap();
    tracker.created(3, ObjectKind::Fence).unwrap();
    assert_eq!(tracker.created(1, ObjectKind::Buffer), Err(LifetimeError::AlreadyLive));
    assert_eq!(tracker.bound(1, 7), Err(LifetimeError::NotLive));
    assert_eq!(tracker.bound(1, 3), Err(LifetimeError::NotBindable));
    assert_eq!(tracker.bound(3, 2), Err(LifetimeError::NotBindable));
    tracker.bound(1, 2).unwrap();
    assert_eq!(tracker.bound(1, 2), Err(LifetimeError::NotBindable));
}

fn drive(events: &[Result<u64, i32>]) -> Vec<SubmitAction> {
    let (mut run, first) = SubmitRun::start();
    let mut actions = vec![first];
    for e in events {
        actions.push(run.advance(*e));
    }
    actions
}

#[test]
fn successful_run_submits_in_order_and_cleans_up() {
    let actions = drive(&[Ok(5), Ok(6), Ok(0), Ok(0), Ok(0), Ok(0), Ok(0)]);
    assert_eq!(
        actions,
        vec![
            SubmitAction::CreateSemaphore,
            SubmitAction::CreateFence,
            SubmitAction::SubmitClear { signal_semaphore: 5 },
            SubmitAction::SubmitCopy {
                wait_semaphore: 5,
                wait_stage: PipelineStage::Transfer,
                fence: 6
            },
            SubmitAction::WaitForFence { fence: 6 },
            SubmitAction::DestroySemaphore { semaphore: 5 },
            SubmitAction::DestroyFence { fence: 6 },
            SubmitAction::Finish { error: None },
        ]
    );
}

#[test]
fn failed_submission_releases_semaphore_and_fence() {
    let actions = drive(&[Ok(5), Ok(6), Err(RESULT_DEVICE_LOST), Ok(0), Ok(0)]);
    assert_eq!(
        &actions[3..],
        &[
            SubmitAction::DestroySemaphore { semaphore: 5 },
            SubmitAction::DestroyFence { fence: 6 },
            SubmitAction::Finish { error: Some(DeviceError::DeviceLost) },
        ]
    );
}

#[test]
fn failed_fence_creation_releases_semaphore() {
    let (mut run, _) = SubmitRun::start();
    run.advance(Ok(5));
    assert_eq!(
        run.advance(Err(RESULT_OUT_OF_DEVICE_MEMORY)),
        SubmitAction::DestroySemaphore { semaphore: 5 }
    );
    assert_eq!(
        run.advance(Ok(0)),
        SubmitAction::Finish {
            error: Some(DeviceError::OutOfMemory(OutOfMemoryError::OutOfDeviceMemory))
        }
    );
    assert_eq!(run.phase, SubmitPhase::Finished);
    assert!(run.semaphore.is_none() && run.fence.is_none());
}

#[test]
fn failed_wait_is_not_success() {
    let actions = drive(&[Ok(5), Ok(6), Ok(0), Ok(0), Err(-4), Ok(0), Ok(0)]);
    assert_eq!(actions.last(), Some(&SubmitAction::Finish { error: Some(DeviceError::DeviceLost) }));
}
