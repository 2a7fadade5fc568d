use bounded_spsc_queue::new_queue;

#[test]
fn fifo_order_preserved() {
    let (p, c, mut b) = new_queue::<u64>(8);
    assert_eq!(p.try_push(&mut b, 11), None);
    assert_eq!(p.try_push(&mut b, 22), None);
    assert_eq!(p.try_push(&mut b, 33), None);
    assert_eq!(p.try_push(&mut b, 44), None);
    assert_eq!(p.try_push(&mut b, 55), None);
    assert_eq!(c.try_pop(&mut b), Some(11));
    assert_eq!(c.try_pop(&mut b), Some(22));
    assert_eq!(c.try_pop(&mut b), Some(33));
    assert_eq!(c.try_pop(&mut b), Some(44));
    assert_eq!(c.try_pop(&mut b), Some(55));
    assert_eq!(c.try_pop(&mut b), None);
}

#[test]
fn capacity_bound_rejects_when_full() {
    let (p, c, mut b) = new_queue::<u64>(4);
    assert_eq!(p.try_push(&mut b, 1), None);
    assert_eq!(p.try_push(&mut b, 2), None);
    assert_eq!(p.try_push(&mut b, 3), None);
    assert_eq!(p.try_push(&mut b, 4), None);
    assert_eq!(p.try_push(&mut b, 5), Some(5));
    assert_eq!(p.try_push(&mut b, 6), Some(6));
    assert_eq!(c.try_pop(&mut b), Some(1));
    assert_eq!(c.try_pop(&mut b), Some(2));
    assert_eq!(c.try_pop(&mut b), Some(3));
    assert_eq!(c.try_pop(&mut b), Some(4));
    assert_eq!(c.try_pop(&mut b), None);
}

#[test]
fn rejected_value_returned_unchanged() {
    let (p, _c, mut b) = new_queue::<String>(2);
    assert_eq!(p.try_push(&mut b, String::from("first")), None);
    assert_eq!(p.try_push(&mut b, String::from("second")), None);
    let back = p.try_push(&mut b, String::from("third"));
    assert_eq!(back, Some(String::from("third")));
}

#[test]
fn empty_pop_stable_until_insert() {
    let (p, c, mut b) = new_queue::<u64>(3);
    assert_eq!(c.try_pop(&mut b), None);
    assert_eq!(c.try_pop(&mut b), None);
    assert_eq!(c.try_pop(&mut b), None);
    assert_eq!(p.try_push(&mut b, 7), None);
    assert_eq!(c.try_pop(&mut b), Some(7));
    assert_eq!(c.try_pop(&mut b), None);
    assert_eq!(c.try_pop(&mut b), None);
}

#[test]
fn single_slot_queue() {
    let (p, c, mut b) = new_queue::<u64>(1);
    assert_eq!(p.try_push(&mut b, 10), None);
    assert_eq!(p.try_push(&mut b, 20), Some(20));
    assert_eq!(c.try_pop(&mut b), Some(10));
    assert_eq!(c.try_pop(&mut b), None);
    assert_eq!(p.try_push(&mut b, 20), None);
    assert_eq!(c.try_pop(&mut b), Some(20));
    assert_eq!(c.try_pop(&mut b), None);
}

#[test]
fn capacity_exact_for_various_sizes() {
    let mut n: u64 = 1;
    while n <= 8 {
        let (p, c, mut b) = new_queue::<u64>(n as usize);
        let mut i: u64 = 0;
        while i < n {
            assert_eq!(p.try_push(&mut b, i), None);
            i += 1;
        }
        assert_eq!(p.try_push(&mut b, n), Some(n));
        let mut j: u64 = 0;
        while j < n {
            assert_eq!(c.try_pop(&mut b), Some(j));
            j += 1;
        }
        assert_eq!(c.try_pop(&mut b), None);
        n += 1;
    }
}

#[test]
fn values_move_through_without_copy() {
    let (p, c, mut b) = new_queue::<String>(3);
    assert_eq!(p.try_push(&mut b, String::from("a")), None);
    assert_eq!(p.try_push(&mut b, String::from("b")), None);
    assert_eq!(c.try_pop(&mut b), Some(String::from("a")));
    assert_eq!(p.try_push(&mut b, String::from("c")), None);
    assert_eq!(p.try_push(&mut b, String::from("d")), None);
    assert_eq!(c.try_pop(&mut b), Some(String::from("b")));
    assert_eq!(c.try_pop(&mut b), Some(String::from("c")));
    assert_eq!(c.try_pop(&mut b), Some(String::from("d")));
    assert_eq!(c.try_pop(&mut b), None);
}

#[test]
fn ring_reuses_slots_across_wrap() {
    let (p, c, mut b) = new_queue::<u64>(3);
    assert_eq!(p.try_push(&mut b, 1), None);
    assert_eq!(p.try_push(&mut b, 2), None);
    assert_eq!(p.try_push(&mut b, 3), None);
    assert_eq!(c.try_pop(&mut b), Some(1));
    assert_eq!(p.try_push(&mut b, 4), None);
    assert_eq!(p.try_push(&mut b, 5), Some(5));
    assert_eq!(c.try_pop(&mut b), Some(2));
    assert_eq!(p.try_push(&mut b, 5), None);
    assert_eq!(c.try_pop(&mut b), Some(3));
    assert_eq!(c.try_pop(&mut b), Some(4));
    assert_eq!(c.try_pop(&mut b), Some(5));
    assert_eq!(c.try_pop(&mut b), None);
}
