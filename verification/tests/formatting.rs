use crab_net::config::{
    worker_threads, DEFAULT_CONNECTIONS, DEFAULT_LENGTH, DEFAULT_RATE, DEFAULT_STAGGER_MILLIS,
    DEFAULT_START_PORT,
};
use crab_net::text::decimal_text;
use crab_net::transport::local_bind_address;

#[test]
fn decimal_text_matches_the_numeral() {
    assert_eq!(decimal_text(0), "0");
    assert_eq!(decimal_text(7), "7");
    assert_eq!(decimal_text(9), "9");
    assert_eq!(decimal_text(10), "10");
    assert_eq!(decimal_text(60), "60");
    assert_eq!(decimal_text(1_234_567_890), "1234567890");
    assert_eq!(decimal_text(u64::MAX), "18446744073709551615");
    for n in [11u64, 99, 100, 101, 1000, 65_535, 4_294_967_296] {
        assert_eq!(decimal_text(n), n.to_string());
    }
}

#[test]
fn bind_address_is_every_interface_on_the_port() {
    assert_eq!(local_bind_address(9000), "0.0.0.0:9000");
    assert_eq!(local_bind_address(0), "0.0.0.0:0");
    assert_eq!(local_bind_address(65_535), "0.0.0.0:65535");
    assert_eq!(local_bind_address(70_000), "0.0.0.0:70000");
}

#[test]
fn worker_threads_takes_positive_requests_only() {
    assert_eq!(worker_threads(Some(4)), Some(4));
    assert_eq!(worker_threads(Some(1)), Some(1));
    assert_eq!(worker_threads(Some(0)), None);
    assert_eq!(worker_threads(None), None);
}

#[test]
fn defaults() {
    assert_eq!(DEFAULT_CONNECTIONS, 1);
    assert_eq!(DEFAULT_LENGTH, 16);
    assert_eq!(DEFAULT_RATE, 1);
    assert_eq!(DEFAULT_START_PORT, 8000);
    assert_eq!(DEFAULT_STAGGER_MILLIS, 50);
}
