use gpu_calc::errors::PipelineError;
use gpu_calc::gate::{submit, WaitOutcome};
use gpu_calc::image::ImageBuffer;
use gpu_calc::kernels::{compile, KernelKind};
use gpu_calc::memory::MemoryAllocator;
use gpu_calc::pipeline::{filter_image, run_filter, run_passes};
use gpu_calc::resources::{create_image, create_transfer_buffer, TransferDirection};
use gpu_calc::sequence::{bind, CommandSequence};

#[test]
fn end_to_end_invert_four_by_four() {
    let mut alloc = MemoryAllocator::new(1 << 20);
    let mut pixels = Vec::new();
    for _ in 0..16 {
        pixels.extend_from_slice(&[100, 150, 200, 255]);
    }
    let out = filter_image(&mut alloc, 4, 4, pixels, KernelKind::Invert, 8)
        .expect("a valid invocation succeeds");
    assert_eq!(out.width, 4);
    assert_eq!(out.height, 4);
    for p in 0..16 {
        assert_eq!(&out.bytes[4 * p..4 * p + 4], &[155, 105, 55, 255]);
    }
}

#[test]
fn mismatched_upload_length_rejected_before_any_device_work() {
    let mut alloc = MemoryAllocator::new(1 << 20);
    // 4x4 RGBA needs 64 bytes; hand it 60
    let e = filter_image(&mut alloc, 4, 4, vec![0; 60], KernelKind::Grayscale, 8).unwrap_err();
    assert_eq!(e, PipelineError::InvalidResourceDimensions);
    // nothing was allocated, bound or submitted
    assert_eq!(alloc.device_allocated, 0);
    assert_eq!(alloc.in_use, 0);
}

#[test]
fn zero_dimension_rejected() {
    let mut alloc = MemoryAllocator::new(1 << 20);
    let e = filter_image(&mut alloc, 0, 4, vec![], KernelKind::Invert, 8).unwrap_err();
    assert_eq!(e, PipelineError::InvalidResourceDimensions);
}

#[test]
fn invocation_releases_every_resource() {
    let mut alloc = MemoryAllocator::new(1 << 20);
    let img = ImageBuffer::new(2, 2, vec![7; 16]).unwrap();
    let before_in_use = alloc.in_use;
    run_filter(&mut alloc, &img, KernelKind::Grayscale, 8).expect("fits the budget");
    assert_eq!(alloc.in_use, before_in_use);
    // the three invocation-scoped blocks now sit in the pool
    assert_eq!(alloc.pool.len(), 3);
    let carved = alloc.device_allocated;
    // a second invocation is served from the pool, not the device
    run_filter(&mut alloc, &img, KernelKind::Invert, 8).expect("pool serves it");
    assert_eq!(alloc.device_allocated, carved);
}

#[test]
fn allocation_failure_names_the_allocate_stage() {
    // too small a budget for image + upload + download
    let mut alloc = MemoryAllocator::new(2048);
    let img = ImageBuffer::new(4, 4, vec![1; 64]).unwrap();
    let e = run_filter(&mut alloc, &img, KernelKind::Invert, 8).unwrap_err();
    assert_eq!(e, PipelineError::AllocationFailure);
    assert_eq!(e.stage_name(), "allocate");
    // the partial resources were released again
    assert_eq!(alloc.in_use, 0);
}

#[test]
fn passes_run_in_list_order() {
    let mut alloc = MemoryAllocator::new(1 << 20);
    let img = ImageBuffer::new(1, 1, vec![10, 20, 30, 255]).unwrap();
    // grayscale first: (10+20+30)/3 = 20 everywhere; invert second: 235
    let order = vec![KernelKind::Grayscale, KernelKind::Invert];
    let out = run_passes(&mut alloc, &img, &order, 8).expect("fits");
    assert_eq!(out.bytes, vec![235, 235, 235, 255]);
    // the opposite order inverts first (245, 235, 225 -> avg 235)
    let reversed = vec![KernelKind::Invert, KernelKind::Grayscale];
    let img2 = ImageBuffer::new(1, 1, vec![10, 20, 30, 255]).unwrap();
    let out2 = run_passes(&mut alloc, &img2, &reversed, 8).expect("fits");
    assert_eq!(out2.bytes, vec![235, 235, 235, 255]);
}

#[test]
fn double_invert_passes_restore_image() {
    let mut alloc = MemoryAllocator::new(1 << 20);
    let bytes = vec![3, 14, 15, 255, 92, 65, 35, 255];
    let img = ImageBuffer::new(2, 1, bytes.clone()).unwrap();
    let order = vec![KernelKind::Invert, KernelKind::Invert];
    let out = run_passes(&mut alloc, &img, &order, 8).expect("fits");
    assert_eq!(out.bytes, bytes);
}

#[test]
fn sequence_rejects_swapped_directions() {
    let mut alloc = MemoryAllocator::new(1 << 20);
    let image = create_image(&mut alloc, 2, 2).unwrap();
    let upload = create_transfer_buffer(&mut alloc, 16, TransferDirection::Download).unwrap();
    let download = create_transfer_buffer(&mut alloc, 16, TransferDirection::Upload).unwrap();
    let program = compile(KernelKind::Invert).unwrap();
    let binding = bind(program, &image);
    let e = CommandSequence::build(upload, image, vec![binding], download, 8).unwrap_err();
    assert_eq!(e, PipelineError::InvalidResourceDimensions);
}

#[test]
fn sequence_rejects_short_staging_buffer() {
    let mut alloc = MemoryAllocator::new(1 << 20);
    let image = create_image(&mut alloc, 2, 2).unwrap();
    let upload = create_transfer_buffer(&mut alloc, 12, TransferDirection::Upload).unwrap();
    let download = create_transfer_buffer(&mut alloc, 16, TransferDirection::Download).unwrap();
    let program = compile(KernelKind::Invert).unwrap();
    let binding = bind(program, &image);
    let e = CommandSequence::build(upload, image, vec![binding], download, 8).unwrap_err();
    assert_eq!(e, PipelineError::InvalidResourceDimensions);
}

#[test]
fn download_destination_sealed_until_wait_succeeds() {
    let mut alloc = MemoryAllocator::new(1 << 20);
    let image = create_image(&mut alloc, 1, 1).unwrap();
    let mut upload = create_transfer_buffer(&mut alloc, 4, TransferDirection::Upload).unwrap();
    upload.load_pixels(&vec![100, 150, 200, 255]).unwrap();
    let download = create_transfer_buffer(&mut alloc, 4, TransferDirection::Download).unwrap();
    let program = compile(KernelKind::Invert).unwrap();
    let binding = bind(program, &image);
    let sequence = CommandSequence::build(upload, image, vec![binding], download, 8).unwrap();
    let batch = submit(&sequence);
    // the first wait times out: no pixels escape, the batch comes back
    let (batch, e) = match batch.wait_and_take(WaitOutcome::TimedOut) {
        Err(pair) => pair,
        Ok(_) => panic!("an unsignaled fence must not surrender the destination"),
    };
    assert_eq!(e, PipelineError::TimedOut);
    // waiting again on the same batch succeeds without rebuilding
    let out = match batch.wait_and_take(WaitOutcome::Signaled) {
        Ok(out) => out,
        Err(_) => panic!("a signaled fence owes success"),
    };
    assert_eq!(out.bytes, vec![155, 105, 55, 255]);
}

#[test]
fn staging_buffer_rejects_mismatched_pixels() {
    let mut alloc = MemoryAllocator::new(1 << 20);
    let mut upload = create_transfer_buffer(&mut alloc, 8, TransferDirection::Upload).unwrap();
    let e = upload.load_pixels(&vec![1, 2, 3]).unwrap_err();
    assert_eq!(e, PipelineError::InvalidResourceDimensions);
}
