use avalanche_ops::backoff::Policy;

fn policy(base: u64, cap: u64) -> Policy {
    Policy { max_attempts: 3, base_delay: base, max_delay: cap, wait_limit: 10_000 }
}

#[test]
fn delays_double_up_to_the_cap() {
    let p = policy(100, 1_000);
    assert_eq!(p.first_delay(), 100);
    assert_eq!(p.next_delay(100), 200);
    assert_eq!(p.next_delay(200), 400);
    assert_eq!(p.next_delay(400), 800);
    assert_eq!(p.next_delay(800), 1_000);
    assert_eq!(p.next_delay(1_000), 1_000);
}

#[test]
fn delay_is_at_least_one() {
    let p = policy(0, 0);
    assert_eq!(p.first_delay(), 1);
    assert_eq!(p.next_delay(1), 1);
    let q = policy(0, 8);
    assert_eq!(q.first_delay(), 1);
    assert_eq!(q.next_delay(1), 2);
    assert_eq!(q.next_delay(4), 8);
    assert_eq!(q.next_delay(5), 8);
}

#[test]
fn first_delay_is_capped() {
    assert_eq!(policy(5_000, 1_000).first_delay(), 1_000);
    assert_eq!(policy(1_000, 1_000).first_delay(), 1_000);
}

#[test]
fn doubling_does_not_overflow() {
    let p = policy(1, u64::MAX);
    assert_eq!(p.next_delay(u64::MAX), u64::MAX);
    assert_eq!(p.next_delay(u64::MAX / 2), u64::MAX - 1);
    assert_eq!(p.next_delay(u64::MAX / 2 + 1), u64::MAX);
    assert_eq!(p.next_delay(1 << 62), 1 << 63);
    let odd = policy(1, 7);
    assert_eq!(odd.next_delay(3), 6);
    assert_eq!(odd.next_delay(4), 7);
}

#[test]
fn retries_stop_at_the_limit() {
    let p = policy(1, 1);
    assert!(p.may_retry(0));
    assert!(p.may_retry(1));
    assert!(p.may_retry(2));
    assert!(!p.may_retry(3));
    assert!(!p.may_retry(4));
    let none = Policy { max_attempts: 0, base_delay: 1, max_delay: 1, wait_limit: 0 };
    assert!(!none.may_retry(1));
}
