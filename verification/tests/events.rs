use enclave_runner::abi::{
    EV_ABORT, EV_ALL, EV_RETURNQ_NOT_EMPTY, EV_UNPARK, EV_USERCALLQ_NOT_FULL, WAIT_INDEFINITE,
    WAIT_NO,
};
use enclave_runner::error::ErrorKind;
use enclave_runner::events::{check_event_set, classify, Delivery};

#[test]
fn event_bits_are_those_of_the_abi() {
    assert_eq!(EV_USERCALLQ_NOT_FULL, fortanix_sgx_abi::EV_USERCALLQ_NOT_FULL);
    assert_eq!(EV_RETURNQ_NOT_EMPTY, fortanix_sgx_abi::EV_RETURNQ_NOT_EMPTY);
    assert_eq!(EV_UNPARK, fortanix_sgx_abi::EV_UNPARK);
    assert_eq!(WAIT_NO, fortanix_sgx_abi::WAIT_NO);
    assert_eq!(WAIT_INDEFINITE, fortanix_sgx_abi::WAIT_INDEFINITE);
    assert_eq!(EV_ALL, EV_USERCALLQ_NOT_FULL | EV_RETURNQ_NOT_EMPTY | EV_UNPARK);
    assert_eq!(EV_ABORT, 0x08);
    assert_eq!(EV_ALL & EV_ABORT, 0);
}

#[test]
fn check_event_set_accepts_the_three_events() {
    assert_eq!(check_event_set(0), Ok(0));
    assert_eq!(check_event_set(EV_UNPARK), Ok(4));
    assert_eq!(check_event_set(EV_ALL), Ok(7));
}

#[test]
fn check_event_set_refuses_other_bits() {
    assert_eq!(check_event_set(EV_ABORT), Err(ErrorKind::InvalidInput));
    assert_eq!(check_event_set(0x80), Err(ErrorKind::InvalidInput));
    assert_eq!(check_event_set(0x100), Err(ErrorKind::InvalidInput));
    assert_eq!(check_event_set(u64::MAX), Err(ErrorKind::InvalidInput));
}

#[test]
fn classify_looks_at_the_abort_bit_first() {
    assert_eq!(classify(0b0100, 0b1100), Delivery::Abort);
    assert_eq!(classify(0b0100, 0b0110), Delivery::Matched(0b0110));
    assert_eq!(classify(0b0100, 0b0010), Delivery::Buffered);
    assert_eq!(classify(0, 0b0111), Delivery::Buffered);
}
