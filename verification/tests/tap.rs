use iterware::observer::LogObserver;
use iterware::producer::Producer;
use iterware::producer::VecProducer;
use iterware::IteratorMiddleware;

#[test]
fn test_borrow() {
    let values: Vec<i32> = vec![1, 2, 3, 4, 5];

    let mut tap = VecProducer::new(values).middleware(LogObserver::new());
    let mut sum: i32 = 0;
    while let Some(value) = tap.next() {
        println!("Adding value {}", value);
        sum += value;
    }

    println!("The sum is {}", sum);

    assert_eq!(sum, 15);
}

#[test]
fn order_and_values_preserved() {
    let values: Vec<i32> = vec![30, 10, 20];

    let mut tap = VecProducer::new(values).middleware(LogObserver::new());
    let yielded: Vec<i32> = tap.collect_remaining();

    assert_eq!(yielded, vec![30, 10, 20]);
    assert_eq!(tap.observer_ref().values(), &vec![30, 10, 20]);
}

#[test]
fn construction_is_lazy() {
    let values: Vec<i32> = vec![1, 2, 3];

    let mut tap = VecProducer::new(values).middleware(LogObserver::new());
    assert!(tap.observer_ref().values().is_empty());

    let yielded: Vec<i32> = tap.collect_remaining();
    assert_eq!(yielded, vec![1, 2, 3]);
    assert_eq!(tap.observer_ref().values(), &vec![1, 2, 3]);
}

#[test]
fn early_stop_observes_exactly_pulled_elements() {
    let values: Vec<i32> = vec![1, 2, 3, 4, 5];

    let mut tap = VecProducer::new(values).middleware(LogObserver::new());
    assert_eq!(tap.next(), Some(1));
    assert_eq!(tap.next(), Some(2));

    assert_eq!(tap.observer_ref().values(), &vec![1, 2]);
}

#[test]
fn exhaustion_is_stable() {
    let values: Vec<i32> = vec![1, 2];

    let mut tap = VecProducer::new(values).middleware(LogObserver::new());
    assert_eq!(tap.next(), Some(1));
    assert_eq!(tap.next(), Some(2));
    assert_eq!(tap.next(), None);
    assert_eq!(tap.next(), None);
    assert_eq!(tap.next(), None);

    assert_eq!(tap.observer_ref().values(), &vec![1, 2]);
}

#[test]
fn empty_sequence_yields_nothing() {
    let values: Vec<i32> = Vec::new();

    let mut tap = VecProducer::new(values).middleware(LogObserver::<i32>::new());
    assert_eq!(tap.next(), None);
    assert!(tap.observer_ref().values().is_empty());
}

#[test]
fn log_is_complete_when_sum_is_done() {
    let values: Vec<i32> = vec![1, 2, 3, 4, 5];

    let mut tap = VecProducer::new(values).middleware(LogObserver::new());
    let mut sum: i32 = 0;
    while let Some(value) = tap.next() {
        sum += value;
    }

    assert_eq!(sum, 15);
    assert_eq!(tap.observer_ref().values(), &vec![1, 2, 3, 4, 5]);
}

#[test]
fn two_taps_each_observe_every_element() {
    let values: Vec<i32> = vec![1, 2, 3];

    let first = VecProducer::new(values).middleware(LogObserver::new());
    let mut second = first.middleware(LogObserver::new());

    assert_eq!(second.next(), Some(1));
    assert_eq!(second.upstream_ref().observer_ref().values(), &vec![1]);
    assert_eq!(second.observer_ref().values(), &vec![1]);

    let rest: Vec<i32> = second.collect_remaining();
    assert_eq!(rest, vec![2, 3]);
    assert_eq!(second.upstream_ref().observer_ref().values(), &vec![1, 2, 3]);
    assert_eq!(second.observer_ref().values(), &vec![1, 2, 3]);
}

#[test]
fn chained_pull_feeds_both_observers() {
    let values: Vec<i32> = vec![4, 5];

    let inner = VecProducer::new(values).middleware(LogObserver::new());
    let mut outer = inner.middleware(LogObserver::new());

    assert_eq!(outer.next_through_both(), Some(4));
    assert_eq!(outer.upstream_ref().observer_ref().values(), &vec![4]);
    assert_eq!(outer.observer_ref().values(), &vec![4]);

    assert_eq!(outer.next_through_both(), Some(5));
    assert_eq!(outer.next_through_both(), None);
    assert_eq!(outer.upstream_ref().observer_ref().values(), &vec![4, 5]);
    assert_eq!(outer.observer_ref().values(), &vec![4, 5]);
}

#[test]
fn producer_alone_yields_in_order() {
    let values: Vec<i32> = vec![7, 8];
    let mut producer = VecProducer::new(values);
    assert_eq!(producer.next(), Some(7));
    assert_eq!(producer.next(), Some(8));
    assert_eq!(producer.next(), None);
}
