use enclave_runner::error::ErrorKind;
use enclave_runner::usercalls::{
    address_text, alloc_request, alloc_result, async_queues, epoch_nanos, free_request,
    insecure_time, parse_address, read_alloc_buffer, read_alloc_finish, NANOS_PER_SEC,
    READ_ALLOC_SIZE,
};

#[test]
fn address_must_be_utf8() {
    assert_eq!(parse_address(b"localhost:80"), Ok("localhost:80"));
    assert_eq!(parse_address(b""), Ok(""));
    assert_eq!(parse_address("b\u{fc}cher:1".as_bytes()), Ok("b\u{fc}cher:1"));
    assert_eq!(parse_address(&[0x66, 0xff, 0x6f]), Err(ErrorKind::ConnectionRefused));
    assert_eq!(parse_address(&[0xc3]), Err(ErrorKind::ConnectionRefused));
}

#[test]
fn unknown_address_is_error() {
    assert_eq!(address_text(Some("127.0.0.1:9".to_string())), "127.0.0.1:9");
    assert_eq!(address_text(None), "error");
}

#[test]
fn read_alloc_buffer_is_eight_kib_of_zeros() {
    let buf = read_alloc_buffer();
    assert_eq!(READ_ALLOC_SIZE, 8192);
    assert_eq!(buf.len(), 8192);
    assert!(buf.iter().all(|b| *b == 0));
}

#[test]
fn read_alloc_is_cut_to_what_was_read() {
    assert_eq!(read_alloc_finish(vec![1, 2, 3, 4], 2), vec![1, 2]);
    assert_eq!(read_alloc_finish(vec![1, 2, 3, 4], 0), Vec::<u8>::new());
    assert_eq!(read_alloc_finish(vec![1, 2, 3, 4], 4), vec![1, 2, 3, 4]);
    assert_eq!(read_alloc_finish(vec![1, 2, 3, 4], 9), vec![1, 2, 3, 4]);
    let mut buf = read_alloc_buffer();
    buf[..2].copy_from_slice(b"hi");
    assert_eq!(read_alloc_finish(buf, 2), b"hi");
}

#[test]
fn allocation_needs_a_layout_and_a_size() {
    assert_eq!(alloc_request(16, 8), Ok(()));
    assert_eq!(alloc_request(1, 1), Ok(()));
    assert_eq!(alloc_request(0, 8), Err(ErrorKind::InvalidInput));
    assert_eq!(alloc_request(16, 0), Err(ErrorKind::InvalidInput));
    assert_eq!(alloc_request(16, 3), Err(ErrorKind::InvalidInput));
    assert_eq!(alloc_request(usize::MAX, 1), Err(ErrorKind::InvalidInput));
    assert_eq!(alloc_request(isize::MAX as usize, 1), Ok(()));
    assert_eq!(alloc_request(isize::MAX as usize, 2), Err(ErrorKind::InvalidInput));
}

#[test]
fn null_pointer_is_other() {
    assert_eq!(alloc_result(true), Err(ErrorKind::Other));
    assert_eq!(alloc_result(false), Ok(()));
}

#[test]
fn free_of_nothing_is_a_no_op() {
    assert_eq!(free_request(16, 8), Ok(true));
    assert_eq!(free_request(0, 8), Ok(false));
    assert_eq!(free_request(0, 3), Err(ErrorKind::InvalidInput));
    assert_eq!(free_request(16, 0), Err(ErrorKind::InvalidInput));
    assert_eq!(free_request(usize::MAX, 4), Err(ErrorKind::InvalidInput));
}

#[test]
fn async_queues_are_not_supported() {
    assert_eq!(async_queues(), Err(ErrorKind::Other));
}

#[test]
fn epoch_nanos_counts_nanoseconds() {
    assert_eq!(NANOS_PER_SEC, 1_000_000_000);
    assert_eq!(epoch_nanos(0, 0), Some(0));
    assert_eq!(epoch_nanos(1, 5), Some(1_000_000_005));
    assert_eq!(epoch_nanos(1_600_000_000, 999_999_999), Some(1_600_000_000_999_999_999));
    assert_eq!(epoch_nanos(18_446_744_073, 709_551_615), Some(u64::MAX));
    assert_eq!(epoch_nanos(18_446_744_073, 709_551_616), None);
    assert_eq!(epoch_nanos(18_446_744_074, 0), None);
    assert_eq!(epoch_nanos(u64::MAX, 0), None);
}

#[test]
fn insecure_time_is_after_the_year_2020() {
    let now = insecure_time().unwrap();
    assert!(now > 1_577_836_800 * NANOS_PER_SEC);
    let later = insecure_time().unwrap();
    assert!(later >= now - NANOS_PER_SEC);
}
