use gpu_calc::device::{plan_open, select_queue_family, DeviceDescriptor, QueueFamilyCaps};
use gpu_calc::dispatch::{ceil_div, dispatch_extent};
use gpu_calc::errors::PipelineError;
use gpu_calc::gate::{CompletionFence, WaitOutcome};
use gpu_calc::memory::MemoryAllocator;

#[test]
fn dispatch_extent_rounds_up_partial_tiles() {
    // 1023 pixels at tile size 8 need 128 groups: 127 would leave the
    // final 7-pixel strip uncovered.
    let groups = dispatch_extent(1023, 1023, 8);
    assert_eq!(groups, (128, 128, 1));
}

#[test]
fn dispatch_extent_exact_multiple() {
    let groups = dispatch_extent(1024, 512, 8);
    assert_eq!(groups, (128, 64, 1));
}

#[test]
fn ceil_div_values() {
    assert_eq!(ceil_div(0, 5), 0);
    assert_eq!(ceil_div(1, 5), 1);
    assert_eq!(ceil_div(5, 5), 1);
    assert_eq!(ceil_div(6, 5), 2);
    assert_eq!(ceil_div(10, 3), 4);
}

#[test]
fn wait_twice_on_signaled_fence_succeeds_immediately() {
    let mut fence = CompletionFence { signaled: false };
    assert!(fence.wait(WaitOutcome::Signaled).is_ok());
    // the fence is now signaled: further waits succeed at once, whatever
    // the device would have reported
    assert!(fence.wait(WaitOutcome::TimedOut).is_ok());
    assert!(fence.wait(WaitOutcome::TimedOut).is_ok());
    assert!(fence.signaled);
}

#[test]
fn wait_timeout_is_the_sole_retryable_error() {
    let mut fence = CompletionFence { signaled: false };
    let e = fence.wait(WaitOutcome::TimedOut).unwrap_err();
    assert_eq!(e, PipelineError::TimedOut);
    assert!(e.is_retryable());
    assert!(!PipelineError::AllocationFailure.is_retryable());
    // the retry may still succeed
    assert!(fence.wait(WaitOutcome::Signaled).is_ok());
}

#[test]
fn error_reports_name_their_stage() {
    assert_eq!(PipelineError::NoDriver.stage_name(), "device");
    assert_eq!(PipelineError::NoComputeCapableDevice.stage_name(), "device");
    assert_eq!(PipelineError::AllocationFailure.stage_name(), "allocate");
    assert_eq!(PipelineError::KernelCompileFailure.stage_name(), "compile");
    assert_eq!(PipelineError::SubmissionFailure.stage_name(), "submit");
    assert_eq!(PipelineError::TimedOut.stage_name(), "wait");
    assert_eq!(PipelineError::InvalidResourceDimensions.stage_name(), "validate");
}

#[test]
fn no_driver_is_fatal() {
    let e = plan_open(None).unwrap_err();
    assert_eq!(e, PipelineError::NoDriver);
}

#[test]
fn enumeration_without_compute_device_fails() {
    let devices = vec![
        DeviceDescriptor { queue_families: vec![] },
        DeviceDescriptor {
            queue_families: vec![QueueFamilyCaps { compute: false, graphics: false }],
        },
    ];
    let e = plan_open(Some(&devices)).unwrap_err();
    assert_eq!(e, PipelineError::NoComputeCapableDevice);
}

#[test]
fn first_eligible_device_and_family_win() {
    let devices = vec![
        DeviceDescriptor {
            queue_families: vec![QueueFamilyCaps { compute: false, graphics: false }],
        },
        DeviceDescriptor {
            queue_families: vec![
                QueueFamilyCaps { compute: false, graphics: false },
                QueueFamilyCaps { compute: false, graphics: true },
                QueueFamilyCaps { compute: true, graphics: true },
            ],
        },
    ];
    let sel = plan_open(Some(&devices)).expect("an eligible device exists");
    assert_eq!(sel.device_index, 1);
    // graphics capability subsumes compute, so family 1 is taken first
    assert_eq!(sel.queue_family_index, 1);
}

#[test]
fn select_queue_family_takes_first_eligible() {
    let families = vec![
        QueueFamilyCaps { compute: false, graphics: false },
        QueueFamilyCaps { compute: true, graphics: false },
        QueueFamilyCaps { compute: true, graphics: true },
    ];
    assert_eq!(select_queue_family(&families), Some(1));
    assert_eq!(select_queue_family(&vec![]), None);
}

#[test]
fn allocator_rounds_to_granularity() {
    let mut alloc = MemoryAllocator::new(16 * 1024);
    let b = alloc.allocate(100).expect("fits");
    assert_eq!(b.size, 1024);
    let c = alloc.allocate(1024).expect("fits");
    assert_eq!(c.size, 1024);
    let d = alloc.allocate(1025).expect("fits");
    assert_eq!(d.size, 2048);
    assert_eq!(alloc.device_allocated, 4096);
}

#[test]
fn allocator_exhausts_and_fails() {
    let mut alloc = MemoryAllocator::new(2048);
    let a = alloc.allocate(1000).expect("fits");
    assert_eq!(a.size, 1024);
    let _b = alloc.allocate(1).expect("fits");
    let e = alloc.allocate(1).unwrap_err();
    assert_eq!(e, PipelineError::AllocationFailure);
}

#[test]
fn released_blocks_return_to_pool_not_device() {
    let mut alloc = MemoryAllocator::new(2048);
    let a = alloc.allocate(600).expect("fits");
    let carved = alloc.device_allocated;
    alloc.release(a);
    // the pool, not the device, serves an equal request again
    let b = alloc.allocate(512).expect("pool serves it");
    assert_eq!(b.size, 1024);
    assert_eq!(b.offset, a.offset);
    assert_eq!(alloc.device_allocated, carved);
}

#[test]
fn pool_serves_smaller_requests_from_larger_blocks() {
    let mut alloc = MemoryAllocator::new(2048);
    let a = alloc.allocate(1025).expect("fits");
    assert_eq!(a.size, 2048);
    alloc.release(a);
    // the budget is fully carved, yet a 1-byte request succeeds: the
    // freed 2048-byte block is handed over whole, no device call
    let b = alloc.allocate(1).expect("the pooled block fits it");
    assert_eq!(b.size, 2048);
    assert_eq!(b.offset, a.offset);
    assert_eq!(alloc.device_allocated, 2048);
}

#[test]
fn pool_first_fit_takes_the_earliest_fitting_block() {
    let mut alloc = MemoryAllocator::new(16 * 1024);
    let small = alloc.allocate(1024).expect("fits");
    let large = alloc.allocate(4096).expect("fits");
    alloc.release(small);
    alloc.release(large);
    // 2000 bytes round to 2048: the 1024 block is skipped, the 4096
    // block is the first fit
    let b = alloc.allocate(2000).expect("fits");
    assert_eq!(b.size, 4096);
    assert_eq!(b.offset, large.offset);
    // the 1024 block still sits in the pool for the next small request
    let c = alloc.allocate(10).expect("fits");
    assert_eq!(c.size, 1024);
    assert_eq!(c.offset, small.offset);
}
