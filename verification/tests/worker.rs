use ash_renderer::error::AshError;
use ash_renderer::worker::{compute_worker_index, validate_worker_resources};

#[test]
fn worker_index_zero_workers() {
    assert_eq!(compute_worker_index(0, 0), 0);
    assert_eq!(compute_worker_index(0, 5), 0);
}

#[test]
fn worker_index_wraps() {
    assert_eq!(compute_worker_index(4, 0), 0);
    assert_eq!(compute_worker_index(4, 3), 3);
    assert_eq!(compute_worker_index(4, 4), 0);
    assert_eq!(compute_worker_index(4, 7), 3);
}

#[test]
fn validate_worker_resources_ok() {
    assert!(validate_worker_resources(0, 0, 0).is_ok());
    assert!(validate_worker_resources(2, 2, 2).is_ok());
}

#[test]
fn validate_worker_resources_errors_on_mismatch() {
    assert!(validate_worker_resources(2, 1, 2).is_err());
    assert!(validate_worker_resources(2, 2, 1).is_err());
}

#[test]
fn worker_index_is_the_remainder() {
    for workers in 1usize..9 {
        for frame in 0usize..40 {
            assert_eq!(compute_worker_index(workers, frame), frame % workers);
            assert!(compute_worker_index(workers, frame) < workers);
        }
    }
    assert_eq!(compute_worker_index(1, usize::MAX), 0);
    assert_eq!(compute_worker_index(usize::MAX, usize::MAX), 0);
    assert_eq!(compute_worker_index(usize::MAX, 17), 17);
}

#[test]
fn validation_succeeds_exactly_on_matching_counts() {
    for workers in 0usize..5 {
        for descriptors in 0usize..5 {
            for buffers in 0usize..5 {
                let expected = workers == 0 || (descriptors == workers && buffers == workers);
                assert_eq!(
                    validate_worker_resources(workers, descriptors, buffers).is_ok(),
                    expected
                );
            }
        }
    }
}

#[test]
fn validation_without_workers_always_succeeds() {
    assert_eq!(validate_worker_resources(0, 7, 3), Ok(()));
    assert_eq!(validate_worker_resources(0, usize::MAX, 0), Ok(()));
}

#[test]
fn validation_names_the_count_that_is_wrong() {
    assert_eq!(
        validate_worker_resources(2, 1, 2),
        Err(AshError::MaterialDescriptorCountMismatch { descriptor_count: 1, worker_count: 2 })
    );
    assert_eq!(
        validate_worker_resources(2, 2, 1),
        Err(AshError::MaterialBufferCountMismatch { buffer_count: 1, worker_count: 2 })
    );
    // The descriptor count is looked at first.
    assert_eq!(
        validate_worker_resources(3, 5, 7),
        Err(AshError::MaterialDescriptorCountMismatch { descriptor_count: 5, worker_count: 3 })
    );
}
