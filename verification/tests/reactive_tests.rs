use muzak::reactive::{ReactiveContainer, Subscriptions};

#[test]
fn new_cell_holds_its_value_and_no_subscription() {
    let cell = ReactiveContainer::new(41u64);
    assert_eq!(*cell.read(), 41);
    assert_eq!(cell.subscriber_count(), 0);
    assert_eq!(cell.notify(), Vec::<u64>::new());
}

#[test]
fn handles_are_given_in_order_and_never_twice() {
    let mut cell = ReactiveContainer::new(0u64);
    let a = cell.subscribe();
    let b = cell.subscribe();
    assert_eq!((a, b), (0, 1));
    assert!(cell.detach(a));
    let c = cell.subscribe();
    assert_eq!(c, 2);
    assert_eq!(cell.notify(), vec![b, c]);
}

#[test]
fn every_live_subscription_receives_every_value_in_order() {
    let mut cell = ReactiveContainer::new(0u64);
    let handles = vec![cell.subscribe(), cell.subscribe(), cell.subscribe()];
    let mut log: Vec<(u64, u64)> = Vec::new();
    let values = vec![10u64, 20, 30, 40];
    for v in &values {
        let round = cell.update(*v);
        assert_eq!(round, handles);
        for h in round {
            log.push((h, *cell.read()));
        }
    }
    for h in &handles {
        let got: Vec<u64> = log.iter().filter(|(who, _)| who == h).map(|(_, v)| *v).collect();
        assert_eq!(got, values);
    }
    assert_eq!(log.len(), 12);
    assert_eq!(&log[0..3], &[(0, 10), (1, 10), (2, 10)]);
}

#[test]
fn update_sets_the_value_before_the_round_is_run() {
    let mut cell = ReactiveContainer::new(String::from("old"));
    let h = cell.subscribe();
    let round = cell.update(String::from("new"));
    assert_eq!(round, vec![h]);
    assert_eq!(cell.read(), "new");
}

#[test]
fn detached_subscription_is_in_no_later_round() {
    let mut cell = ReactiveContainer::new(0u64);
    let a = cell.subscribe();
    let b = cell.subscribe();
    let c = cell.subscribe();
    assert_eq!(cell.update(1), vec![a, b, c]);
    assert!(cell.detach(b));
    assert!(!cell.is_subscribed(b));
    assert_eq!(cell.update(2), vec![a, c]);
    assert_eq!(cell.update(3), vec![a, c]);
    assert!(!cell.detach(b));
    assert_eq!(cell.subscriber_count(), 2);
}

#[test]
fn detaching_during_a_round_leaves_the_round_as_it_is() {
    let mut cell = ReactiveContainer::new(0u64);
    let a = cell.subscribe();
    let b = cell.subscribe();
    let round = cell.update(5);
    assert!(cell.detach(b));
    let late = cell.subscribe();
    assert_eq!(round, vec![a, b]);
    assert_eq!(cell.update(6), vec![a, late]);
}

#[test]
fn detaching_an_unknown_handle_changes_nothing() {
    let mut cell = ReactiveContainer::new(0u64);
    let a = cell.subscribe();
    assert!(!cell.detach(77));
    assert_eq!(cell.notify(), vec![a]);
}

#[test]
fn a_change_in_place_is_announced_by_notify() {
    let mut cell = ReactiveContainer::new(vec![1u8]);
    let a = cell.subscribe();
    cell.value.push(2);
    assert_eq!(cell.notify(), vec![a]);
    assert_eq!(cell.read(), &vec![1u8, 2]);
}

#[test]
fn subscriptions_alone_keep_order() {
    let mut subs = Subscriptions::new();
    assert_eq!(subs.len(), 0);
    let a = subs.add();
    let b = subs.add();
    let c = subs.add();
    assert!(subs.contains(b));
    assert!(subs.remove(a));
    assert_eq!(subs.live(), vec![b, c]);
    assert!(!subs.contains(a));
}
