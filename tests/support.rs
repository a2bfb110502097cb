use pngx_bridge::{allocation_request, build_pool, parse_version_number, pool_reported, requested_pool_size, AllocationError};

#[test]
fn allocation_sizes() {
    assert_eq!(allocation_request(0, 4), Ok(None));
    assert_eq!(allocation_request(3, 4), Ok(Some(12)));
    assert_eq!(allocation_request(7, 1), Ok(Some(7)));
    assert_eq!(allocation_request(usize::MAX, 2), Err(AllocationError::SizeOverflow));
    assert_eq!(allocation_request(usize::MAX / 4 + 1, 4), Err(AllocationError::SizeOverflow));
}

#[test]
fn version_numbers() {
    assert_eq!(parse_version_number(b"90105", 0), 90105);
    assert_eq!(parse_version_number(b"40401", 7), 40401);
    assert_eq!(parse_version_number(b"", 7), 7);
    assert_eq!(parse_version_number(b"9.1.5", 7), 7);
    assert_eq!(parse_version_number(b"4294967295", 0), 4294967295);
    assert_eq!(parse_version_number(b"4294967296", 3), 3);
    assert_eq!(parse_version_number(b"99999999999x", 3), 3);
}

#[test]
fn pool_size_requests() {
    assert_eq!(requested_pool_size(4), Some(4));
    assert_eq!(requested_pool_size(0), None);
    assert_eq!(requested_pool_size(-2), None);
}

#[test]
fn pool_is_built_once_and_stays_available() {
    let first = build_pool(4);
    let second = build_pool(8);
    assert!(!(first && second));
    assert!(!second);
    let workers = rayon::current_num_threads();
    assert!(workers > 0);
    assert!(pool_reported(first, None));
    assert!(pool_reported(second, Some(workers)));
}

#[test]
fn block_sizes_include_the_header() {
    assert_eq!(pngx_bridge::block_size(0), Some(16));
    assert_eq!(pngx_bridge::block_size(100), Some(116));
    assert_eq!(pngx_bridge::block_size(usize::MAX - 16), Some(usize::MAX));
    assert_eq!(pngx_bridge::block_size(usize::MAX - 15), None);
}

#[test]
fn pool_report_decisions() {
    assert!(pool_reported(true, None));
    assert!(pool_reported(true, Some(0)));
    assert!(pool_reported(false, Some(3)));
    assert!(!pool_reported(false, Some(0)));
    assert!(!pool_reported(false, None));
}
