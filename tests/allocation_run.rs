use gpu_readback::allocator::{AllocAction, AllocPhase, AllocationRun, ResourceRef};
use gpu_readback::errors::{DeviceError, OutOfMemoryError};
use gpu_readback::memory::AllocationPlan;
use gpu_readback::utility::OnErr;

fn plan() -> AllocationPlan {
    AllocationPlan { memory_type_index: 2, size: 4096, offsets: vec![0, 1024] }
}

fn resources() -> Vec<ResourceRef> {
    vec![ResourceRef { handle: 7, is_image: true }, ResourceRef { handle: 8, is_image: false }]
}

#[test]
fn allocation_binds_every_resource_in_order() {
    let (mut run, first) = AllocationRun::start(&plan(), &resources()).unwrap();
    assert_eq!(first, AllocAction::AllocateMemory { type_index: 2, size: 4096 });
    assert_eq!(
        run.advance(Ok(99)),
        AllocAction::Bind { resource: 7, is_image: true, memory: 99, offset: 0 }
    );
    assert_eq!(
        run.advance(Ok(0)),
        AllocAction::Bind { resource: 8, is_image: false, memory: 99, offset: 1024 }
    );
    assert_eq!(run.advance(Ok(0)), AllocAction::Finish { allocation: Some(99), error: None });
    assert_eq!(run.state_now().bound, 2);
}

#[test]
fn failed_binding_frees_the_memory() {
    let (mut run, _) = AllocationRun::start(&plan(), &resources()).unwrap();
    run.advance(Ok(99));
    assert_eq!(run.advance(Ok(0)).clone(), AllocAction::Bind { resource: 8, is_image: false, memory: 99, offset: 1024 });
    assert_eq!(run.advance(Err(-2)), AllocAction::FreeMemory { memory: 99 });
    assert_eq!(
        run.advance(Ok(0)),
        AllocAction::Finish {
            allocation: None,
            error: Some(DeviceError::OutOfMemory(OutOfMemoryError::OutOfDeviceMemory))
        }
    );
    assert_eq!(run.state_now().phase, AllocPhase::Finished);
    assert!(run.state_now().memory.is_none());
}

#[test]
fn failed_allocation_binds_nothing() {
    let (mut run, _) = AllocationRun::start(&plan(), &resources()).unwrap();
    assert_eq!(
        run.advance(Err(-1)),
        AllocAction::Finish {
            allocation: None,
            error: Some(DeviceError::OutOfMemory(OutOfMemoryError::OutOfHostMemory))
        }
    );
}

#[test]
fn plan_and_resources_must_agree() {
    let one = vec![ResourceRef { handle: 7, is_image: true }];
    assert!(AllocationRun::start(&plan(), &one).is_none());
}

#[test]
fn on_err_runs_only_on_errors() {
    let mut seen = 0;
    let ok: Result<u32, i32> = Ok(3);
    assert_eq!(ok.on_err(|_| seen += 1), Ok(3));
    assert_eq!(seen, 0);
    let err: Result<u32, i32> = Err(-4);
    assert_eq!(err.on_err(|e| seen = *e), Err(-4));
    assert_eq!(seen, -4);
}
