use counter_service::counter::Counter;

#[test]
fn three_sequential_increments_return_one_two_three() {
    let mut c = Counter::new();
    assert_eq!(c.increment(), 1);
    assert_eq!(c.increment(), 2);
    assert_eq!(c.increment(), 3);
}

#[test]
fn zero_calls_leave_counter_at_zero() {
    let c = Counter::new();
    assert_eq!(c.peek(), 0);
}

#[test]
fn peek_equals_number_of_increments() {
    let mut c = Counter::new();
    let m: u64 = 37;
    let mut i: u64 = 0;
    while i < m {
        c.increment();
        i += 1;
    }
    assert_eq!(c.peek(), m);
}

#[test]
fn thousand_increments_yield_distinct_complete_returns() {
    let mut c = Counter::new();
    let n: usize = 1000;
    let mut returned = vec![false; n + 1];
    let mut i: usize = 0;
    while i < n {
        let r = c.increment();
        assert!(1 <= r && r as usize <= n, "return out of range: {r}");
        assert!(!returned[r as usize], "value {r} returned twice");
        returned[r as usize] = true;
        i += 1;
    }
    assert_eq!(c.peek(), n as u64);
    let mut v: usize = 1;
    while v <= n {
        assert!(returned[v], "value {v} never returned");
        v += 1;
    }
}

#[test]
fn new_instance_resets_to_zero() {
    let mut c = Counter::new();
    c.increment();
    c.increment();
    assert_eq!(c.peek(), 2);
    let fresh = Counter::new();
    assert_eq!(fresh.peek(), 0);
    let mut again = fresh;
    assert_eq!(again.increment(), 1);
}
