use nats_labs::label::{default_label, host_label, instance_label, role_label, worker_label};
use nats_labs::text::decimal;

#[test]
fn decimal_renders_numbers() {
    assert_eq!(decimal(0), "0");
    assert_eq!(decimal(7), "7");
    assert_eq!(decimal(10), "10");
    assert_eq!(decimal(1234), "1234");
    assert_eq!(decimal(9_007_199_254_740_993), "9007199254740993");
    assert_eq!(decimal(u64::MAX), "18446744073709551615");
}

#[test]
fn decimal_agrees_with_the_standard_rendering() {
    let mut n: u64 = 1;
    for _ in 0..19 {
        assert_eq!(decimal(n), n.to_string());
        assert_eq!(decimal(n - 1), (n - 1).to_string());
        n *= 10;
    }
}

#[test]
fn role_label_joins_stem_and_pid() {
    assert_eq!(role_label("requester", 4321), "requester-4321");
    assert_eq!(role_label("responder", 0), "responder-0");
    assert_eq!(role_label("", 5), "-5");
}

#[test]
fn host_label_falls_back_to_unknown_host() {
    assert_eq!(host_label(Some("box7".to_string()), 99), "box7-99");
    assert_eq!(host_label(None, 99), "unknown-host-99");
}

#[test]
fn given_label_is_kept() {
    assert_eq!(instance_label(Some("alpha".to_string()), "requester", 1), "alpha");
    assert_eq!(instance_label(None, "requester", 1), "requester-1");
    assert_eq!(worker_label(Some("w1".to_string()), 1), "w1");
}

#[test]
fn default_label_ends_with_the_pid() {
    let label = default_label(31337);
    assert!(label.ends_with("-31337"));
    assert!(label.len() >= "-31337".len());
    let again = worker_label(None, 42);
    assert!(again.ends_with("-42"));
}
