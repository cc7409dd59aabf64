use spare_buffer::CommitError;
use spare_buffer::SpareBuffer;

#[test]
fn window_is_at_least_the_requested_length() {
    let vec: Vec<u32> = Vec::new();
    let mut buffer = SpareBuffer::from(vec, None);
    assert!(buffer.allocate_spare(1) >= 1);
    buffer.commit(0).unwrap();
    assert!(buffer.allocate_spare(17) >= 17);
    buffer.commit(0).unwrap();
    assert!(buffer.allocate_spare(4096) >= 4096);
    buffer.commit(0).unwrap();
    // A smaller request may be answered with a larger stale window, but
    // never with less than asked.
    assert!(buffer.allocate_spare(2) >= 2);
}

#[test]
fn no_limit_never_fails() {
    let vec: Vec<u16> = Vec::new();
    let mut buffer = SpareBuffer::from(vec, None);
    let mut expected: usize = 0;
    for round in 0..20 {
        let window = buffer.allocate_spare(round + 1);
        assert!(window >= round + 1);
        for i in 0..round + 1 {
            buffer.write_spare(i, round as u16);
        }
        assert_eq!(buffer.commit(round + 1), Ok(()));
        expected += round + 1;
        assert_eq!(buffer.len(), expected);
    }
}

#[test]
fn limit_boundary_is_exact() {
    // Filling up to the limit itself succeeds; one more element fails.
    let vec: Vec<u8> = Vec::new();
    let mut buffer = SpareBuffer::from(vec, Some(10));
    let window = buffer.allocate_spare(10);
    assert!(window >= 10);
    for i in 0..10 {
        buffer.write_spare(i, i as u8);
    }
    assert_eq!(buffer.commit(10), Ok(()));
    assert_eq!(buffer.len(), 10);

    buffer.allocate_spare(1);
    buffer.write_spare(0, 99);
    assert_eq!(buffer.commit(1), Err(CommitError::CapacityExceeded));
    assert_eq!(buffer.len(), 10);
}

#[test]
fn commit_zero_succeeds_and_consumes_the_window() {
    let vec: Vec<u8> = vec![1, 2, 3];
    let mut buffer = SpareBuffer::from(vec, Some(3));
    buffer.allocate_spare(5);
    // Even though the length already equals the limit, committing nothing
    // succeeds and leaves everything as it was.
    assert_eq!(buffer.commit(0), Ok(()));
    assert_eq!(buffer.len(), 3);
    assert_eq!(buffer.data().to_vec(), vec![1, 2, 3]);
}

#[test]
fn commit_unchecked_skips_the_limit() {
    let vec: Vec<u8> = Vec::new();
    let mut buffer = SpareBuffer::from(vec, Some(2));
    let window = buffer.allocate_spare(5);
    assert!(window >= 5);
    for i in 0..5 {
        buffer.write_spare(i, (10 + i) as u8);
    }
    buffer.commit_unchecked(5);
    assert_eq!(buffer.len(), 5);
    assert_eq!(buffer.into_inner(), vec![10, 11, 12, 13, 14]);
}

#[test]
fn wraps_existing_contents_as_committed() {
    let vec: Vec<i64> = vec![-5, 0, 40];
    let mut buffer = SpareBuffer::from(vec, None);
    assert_eq!(buffer.len(), 3);
    assert!(!buffer.is_empty());
    assert_eq!(buffer.data().to_vec(), vec![-5, 0, 40]);
    buffer.allocate_spare(2);
    buffer.write_spare(0, 7);
    buffer.write_spare(1, -7);
    buffer.commit(2).unwrap();
    assert_eq!(buffer.into_inner(), vec![-5, 0, 40, 7, -7]);
}

#[test]
fn limit_accessor_reports_the_configuration() {
    let vec: Vec<u8> = Vec::new();
    let buffer = SpareBuffer::from(vec, Some(128));
    assert_eq!(buffer.limit(), Some(128));

    let vec: Vec<u8> = Vec::new();
    let buffer = SpareBuffer::from(vec, None);
    assert_eq!(buffer.limit(), None);
}

#[test]
fn reallocation_supersedes_the_previous_window() {
    // Allocating again without a commit is allowed; only the most recent
    // window is committed.
    let vec: Vec<u8> = Vec::new();
    let mut buffer = SpareBuffer::from(vec, None);
    buffer.allocate_spare(4);
    buffer.write_spare(0, 1);
    let window = buffer.allocate_spare(2);
    assert!(window >= 2);
    buffer.write_spare(0, 9);
    buffer.commit(1).unwrap();
    assert_eq!(buffer.data().to_vec(), vec![9]);
}

#[test]
fn works_over_other_primitive_types() {
    let vec: Vec<bool> = Vec::new();
    let mut buffer = SpareBuffer::from(vec, None);
    buffer.allocate_spare(2);
    buffer.write_spare(0, true);
    buffer.write_spare(1, false);
    buffer.commit(2).unwrap();
    assert_eq!(buffer.into_inner(), vec![true, false]);

    let vec: Vec<char> = Vec::new();
    let mut buffer = SpareBuffer::from(vec, None);
    buffer.allocate_spare(3);
    buffer.write_spare(0, 'o');
    buffer.write_spare(1, 'k');
    buffer.commit(2).unwrap();
    assert_eq!(buffer.into_inner(), vec!['o', 'k']);

    let vec: Vec<u128> = Vec::new();
    let mut buffer = SpareBuffer::from(vec, None);
    buffer.allocate_spare(1);
    buffer.write_spare(0, u128::MAX);
    buffer.commit(1).unwrap();
    assert_eq!(buffer.into_inner(), vec![u128::MAX]);
}

#[test]
fn the_error_value_is_plain_data() {
    let err = CommitError::CapacityExceeded;
    let copy = err;
    assert_eq!(err, copy);
    assert_eq!(format!("{:?}", err), "CapacityExceeded");
}
