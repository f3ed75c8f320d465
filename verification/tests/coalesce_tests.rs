use kubectl_rsh::coalesce::coalesce_batches;
use kubectl_rsh::coalesce::updates_for_notifications;

#[test]
fn burst_inside_one_window_closes_one_batch() {
    let times: Vec<u64> = vec![0, 10, 500, 999];
    assert_eq!(vec![4usize], coalesce_batches(&times));
    assert_eq!(1, updates_for_notifications(&times));
}

#[test]
fn single_notification_closes_one_batch() {
    let times: Vec<u64> = vec![42];
    assert_eq!(vec![1usize], coalesce_batches(&times));
    assert_eq!(1, updates_for_notifications(&times));
}

#[test]
fn exactly_fifty_in_one_window_close_one_batch() {
    let times: Vec<u64> = (0..50).map(|i| i as u64).collect();
    assert_eq!(vec![50usize], coalesce_batches(&times));
    assert_eq!(1, updates_for_notifications(&times));
}

#[test]
fn more_than_fifty_overflow_into_a_second_batch() {
    let times: Vec<u64> = vec![7; 60];
    assert_eq!(vec![50usize, 10usize], coalesce_batches(&times));
    assert_eq!(2, updates_for_notifications(&times));
}

#[test]
fn a_full_window_span_closes_the_batch() {
    let times: Vec<u64> = vec![0, 999, 1000];
    assert_eq!(vec![2usize, 1usize], coalesce_batches(&times));
    assert_eq!(2, updates_for_notifications(&times));
}

#[test]
fn a_long_drag_closes_many_batches() {
    let times: Vec<u64> = vec![0, 100, 1100, 1200, 2500];
    assert_eq!(vec![2usize, 2usize, 1usize], coalesce_batches(&times));
    assert_eq!(3, updates_for_notifications(&times));
}

#[test]
fn no_notifications_close_no_batch() {
    let times: Vec<u64> = Vec::new();
    assert_eq!(Vec::<usize>::new(), coalesce_batches(&times));
    assert_eq!(0, updates_for_notifications(&times));
}
