use promise_out::{channel, pair, poly};
use promise_out::{Error, Promise};
use std::sync::{Arc, Mutex};
use std::task::{Poll, Wake, Waker};

struct Bell {
    name: usize,
    log: Arc<Mutex<Vec<usize>>>,
}

impl Wake for Bell {
    fn wake(self: Arc<Self>) {
        self.log.lock().unwrap().push(self.name);
    }
}

struct Repoll {
    consumer: poly::Consumer<i32>,
    seen: Mutex<Vec<Poll<Result<Arc<i32>, Error>>>>,
}

impl Wake for Repoll {
    fn wake(self: Arc<Self>) {
        let polled = self.consumer.poll(Waker::noop().clone());
        self.seen.lock().unwrap().push(polled);
    }
}

struct Retake {
    consumer: Mutex<channel::Consumer<i32>>,
    seen: Mutex<Vec<Poll<Result<i32, Error>>>>,
}

impl Wake for Retake {
    fn wake(self: Arc<Self>) {
        let polled = self.consumer.lock().unwrap().poll(Waker::noop().clone());
        self.seen.lock().unwrap().push(polled);
    }
}

fn bell(name: usize, log: &Arc<Mutex<Vec<usize>>>) -> Waker {
    Waker::from(Arc::new(Bell { name, log: log.clone() }))
}

fn new_log() -> Arc<Mutex<Vec<usize>>> {
    Arc::new(Mutex::new(Vec::new()))
}

fn rung(log: &Arc<Mutex<Vec<usize>>>) -> Vec<usize> {
    log.lock().unwrap().clone()
}

#[test]
fn channel_resolve_before_poll() {
    let log = new_log();
    let (producer, mut consumer) = channel::Producer::<i32>::new();
    producer.resolve(42);
    assert_eq!(consumer.poll(bell(1, &log)), Poll::Ready(Ok(42)));
    assert_eq!(rung(&log), Vec::<usize>::new());
}

#[test]
fn channel_poll_before_resolve() {
    let log = new_log();
    let (producer, mut consumer) = channel::Producer::<i32>::new();
    assert_eq!(consumer.poll(bell(1, &log)), Poll::Pending);
    assert_eq!(rung(&log), Vec::<usize>::new());
    producer.resolve(42);
    assert_eq!(rung(&log), vec![1]);
    assert_eq!(consumer.poll(bell(2, &log)), Poll::Ready(Ok(42)));
    assert_eq!(rung(&log), vec![1]);
}

#[test]
fn channel_only_the_latest_poll_is_woken() {
    let log = new_log();
    let (producer, mut consumer) = channel::Producer::<i32>::new();
    assert_eq!(consumer.poll(bell(1, &log)), Poll::Pending);
    assert_eq!(consumer.poll(bell(2, &log)), Poll::Pending);
    producer.resolve(42);
    assert_eq!(rung(&log), vec![2]);
}

#[test]
fn channel_abandon_before_poll() {
    let log = new_log();
    let (producer, mut consumer) = channel::Producer::<i32>::new();
    producer.abandon();
    assert_eq!(consumer.poll(bell(1, &log)), Poll::Ready(Err(Error::ProducerDropped)));
    assert_eq!(rung(&log), Vec::<usize>::new());
}

#[test]
fn channel_poll_before_abandon() {
    let log = new_log();
    let (producer, mut consumer) = channel::Producer::<i32>::new();
    assert_eq!(consumer.poll(bell(1, &log)), Poll::Pending);
    producer.abandon();
    assert_eq!(rung(&log), vec![1]);
    assert_eq!(consumer.poll(bell(2, &log)), Poll::Ready(Err(Error::ProducerDropped)));
}

#[test]
fn channel_pairs_do_not_share_a_cell() {
    let log = new_log();
    let (first, mut first_consumer) = channel::Producer::<i32>::new();
    let (second, mut second_consumer) = channel::Producer::<i32>::new();
    assert_eq!(first_consumer.poll(bell(1, &log)), Poll::Pending);
    assert_eq!(second_consumer.poll(bell(2, &log)), Poll::Pending);
    second.resolve(2);
    assert_eq!(rung(&log), vec![2]);
    assert_eq!(first_consumer.poll(bell(1, &log)), Poll::Pending);
    assert_eq!(second_consumer.poll(bell(2, &log)), Poll::Ready(Ok(2)));
    first.abandon();
    assert_eq!(rung(&log), vec![2, 1]);
    assert_eq!(first_consumer.poll(bell(1, &log)), Poll::Ready(Err(Error::ProducerDropped)));
}

#[test]
fn pair_test_promise_out_resolve() {
    let log = new_log();
    let (op, mut op_a) = pair::Producer::<String, String>::new();
    assert_eq!(op_a.poll(bell(1, &log)), Poll::Pending);
    op.resolve(String::from("🍓"));
    assert_eq!(rung(&log), vec![1]);
    assert_eq!(op_a.poll(bell(1, &log)), Poll::Ready(Ok(Ok(String::from("🍓")))));
}

#[test]
fn pair_test_promise_out_reject() {
    let log = new_log();
    let (a, mut b) = pair::Producer::<String, String>::new();
    assert_eq!(b.poll(bell(1, &log)), Poll::Pending);
    a.reject(String::from("reject!!"));
    assert_eq!(rung(&log), vec![1]);
    assert_eq!(b.poll(bell(1, &log)), Poll::Ready(Ok(Err(String::from("reject!!")))));
}

#[test]
fn pair_resolve_before_poll() {
    let log = new_log();
    let (producer, mut consumer) = pair::Producer::<i32, String>::new();
    producer.resolve(42);
    assert_eq!(consumer.poll(bell(1, &log)), Poll::Ready(Ok(Ok(42))));
    assert_eq!(rung(&log), Vec::<usize>::new());
}

#[test]
fn pair_reject_before_poll() {
    let log = new_log();
    let (producer, mut consumer) = pair::Producer::<i32, String>::new();
    producer.reject(String::from("no"));
    assert_eq!(consumer.poll(bell(1, &log)), Poll::Ready(Ok(Err(String::from("no")))));
    assert_eq!(rung(&log), Vec::<usize>::new());
}

#[test]
fn pair_abandon_is_not_a_rejection() {
    let log = new_log();
    let (producer, mut consumer) = pair::Producer::<i32, String>::new();
    assert_eq!(consumer.poll(bell(1, &log)), Poll::Pending);
    producer.abandon();
    assert_eq!(rung(&log), vec![1]);
    assert_eq!(consumer.poll(bell(2, &log)), Poll::Ready(Err(Error::ProducerDropped)));
}

#[test]
fn pair_cell_settles_once() {
    let log = new_log();
    let mut cell = pair::Inner::<i32, String>::new();
    assert_eq!(cell.phase(), promise_out::Phase::Empty);
    assert_eq!(cell.poll(bell(1, &log)), Poll::Pending);
    assert!(matches!(cell.reject(String::from("first")), Ok(Some(_))));
    assert_eq!(cell.phase(), promise_out::Phase::ValueSet);
    assert!(matches!(cell.resolve(2), Err(Ok(2))));
    match cell.reject(String::from("third")) {
        Err(Err(back)) => assert_eq!(back, "third"),
        _ => panic!("a settled cell took a second outcome"),
    }
    assert!(cell.abandon().is_none());
    assert_eq!(cell.poll(bell(2, &log)), Poll::Ready(Ok(Err(String::from("first")))));
    assert_eq!(cell.poll(bell(3, &log)), Poll::Ready(Err(Error::ProducerDropped)));
    assert_eq!(cell.phase(), promise_out::Phase::ValueSet);
}

#[test]
fn poly_test_promise_out_resolve() {
    let log = new_log();
    let (op, op_a) = poly::Producer::<String>::new();
    assert_eq!(op_a.poll(bell(1, &log)), Poll::Pending);
    op.resolve(String::from("ğŸ“"));
    assert_eq!(rung(&log), vec![1]);
    assert_eq!(op_a.poll(bell(1, &log)).map(|seen| seen.unwrap().to_string()), Poll::Ready(String::from("ğŸ“")));
}

#[test]
fn test_two_promises_out_resolve() {
    let log = new_log();
    let (op, op_a) = poly::Producer::<String>::new();
    let op_b = op_a.clone();
    assert_eq!(op_a.poll(bell(1, &log)), Poll::Pending);
    assert_eq!(op_b.poll(bell(2, &log)), Poll::Pending);
    op.resolve(String::from("ğŸ“"));
    assert_eq!(rung(&log), vec![1, 2]);
    let seen_a = op_a.poll(bell(1, &log)).map(|seen| seen.unwrap());
    let seen_b = op_b.poll(bell(2, &log)).map(|seen| seen.unwrap());
    assert_eq!(seen_a, Poll::Ready(Arc::new(String::from("ğŸ“"))));
    assert_eq!(seen_b, seen_a);
}

#[test]
fn poly_test_promise_out_reject() {
    let log = new_log();
    let (a, b) = poly::Producer::<Result<String, String>>::new();
    assert_eq!(b.poll(bell(1, &log)), Poll::Pending);
    a.resolve(Err(String::from("reject!!")));
    assert_eq!(rung(&log), vec![1]);
    match b.poll(bell(1, &log)) {
        Poll::Ready(seen) => {
            let result: Arc<Result<String, String>> = seen.unwrap().clone();
            assert_eq!(result.as_ref(), &Err(String::from("reject!!")));
        }
        Poll::Pending => panic!("the consumer still waits"),
    }
}

#[test]
fn poly_fan_out_to_three_clones() {
    let log = new_log();
    let (producer, first) = poly::Producer::<String>::new();
    let second = first.clone();
    let third = second.clone();
    assert_eq!(first.poll(bell(1, &log)), Poll::Pending);
    assert_eq!(second.poll(bell(2, &log)), Poll::Pending);
    assert_eq!(third.poll(bell(3, &log)), Poll::Pending);
    producer.resolve(String::from("x"));
    assert_eq!(rung(&log), vec![1, 2, 3]);
    for consumer in [&first, &second, &third] {
        match consumer.poll(bell(9, &log)) {
            Poll::Ready(Ok(seen)) => assert_eq!(seen.as_str(), "x"),
            _ => panic!("a consumer did not see the value"),
        }
    }
    let late = third.clone();
    assert_eq!(late.poll(bell(4, &log)), Poll::Ready(Ok(Arc::new(String::from("x")))));
    assert_eq!(rung(&log), vec![1, 2, 3]);
}

#[test]
fn poly_resolve_before_poll() {
    let log = new_log();
    let (producer, consumer) = poly::Producer::<i32>::new();
    producer.resolve(42);
    assert_eq!(consumer.poll(bell(1, &log)), Poll::Ready(Ok(Arc::new(42))));
    assert_eq!(consumer.poll(bell(2, &log)), Poll::Ready(Ok(Arc::new(42))));
    assert_eq!(rung(&log), Vec::<usize>::new());
}

#[test]
fn poly_abandon_before_poll() {
    let log = new_log();
    let (producer, consumer) = poly::Producer::<i32>::new();
    let twin = consumer.clone();
    producer.abandon();
    assert_eq!(consumer.poll(bell(1, &log)), Poll::Ready(Err(Error::ProducerDropped)));
    assert_eq!(twin.poll(bell(2, &log)), Poll::Ready(Err(Error::ProducerDropped)));
    assert_eq!(rung(&log), Vec::<usize>::new());
}

#[test]
fn poly_poll_before_abandon() {
    let log = new_log();
    let (producer, consumer) = poly::Producer::<i32>::new();
    let twin = consumer.clone();
    assert_eq!(consumer.poll(bell(1, &log)), Poll::Pending);
    assert_eq!(twin.poll(bell(2, &log)), Poll::Pending);
    producer.abandon();
    assert_eq!(rung(&log), vec![1, 2]);
    assert_eq!(consumer.poll(bell(1, &log)), Poll::Ready(Err(Error::ProducerDropped)));
    assert_eq!(twin.poll(bell(2, &log)), Poll::Ready(Err(Error::ProducerDropped)));
}

#[test]
fn poly_waker_may_poll_again_while_it_is_woken() {
    // A task that polls from inside its own wake finds the lock free: the
    // producer wakes only after it has let go of the cell.
    let (producer, consumer) = poly::Producer::<i32>::new();
    let task = Arc::new(Repoll { consumer: consumer.clone(), seen: Mutex::new(Vec::new()) });
    assert_eq!(consumer.poll(Waker::from(task.clone())), Poll::Pending);
    producer.resolve(11);
    assert_eq!(*task.seen.lock().unwrap(), vec![Poll::Ready(Ok(Arc::new(11)))]);
}

#[test]
fn channel_waker_may_poll_again_while_it_is_woken() {
    let (producer, consumer) = channel::Producer::<i32>::new();
    let task = Arc::new(Retake { consumer: Mutex::new(consumer), seen: Mutex::new(Vec::new()) });
    let first = task.consumer.lock().unwrap().poll(Waker::from(task.clone()));
    assert_eq!(first, Poll::Pending);
    producer.resolve(11);
    assert_eq!(*task.seen.lock().unwrap(), vec![Poll::Ready(Ok(11))]);
}

#[test]
fn channel_producer_that_is_only_dropped_wakes_nobody() {
    let log = new_log();
    let (producer, mut consumer) = channel::Producer::<i32>::new();
    assert_eq!(consumer.poll(bell(1, &log)), Poll::Pending);
    drop(producer);
    assert_eq!(rung(&log), Vec::<usize>::new());
    assert_eq!(consumer.poll(bell(2, &log)), Poll::Pending);
}

#[test]
fn channel_value_is_handed_over_once() {
    let log = new_log();
    let (producer, mut consumer) = channel::Producer::<String>::new();
    producer.resolve(String::from("once"));
    assert_eq!(consumer.poll(bell(1, &log)), Poll::Ready(Ok(String::from("once"))));
    assert_eq!(consumer.poll(bell(2, &log)), Poll::Ready(Err(Error::ProducerDropped)));
    assert_eq!(consumer.poll(bell(3, &log)), Poll::Ready(Err(Error::ProducerDropped)));
    assert_eq!(rung(&log), Vec::<usize>::new());
}

#[test]
fn channel_cell_goes_with_its_last_handle() {
    let log = new_log();
    let payload = Arc::new(5);
    let (producer, mut consumer) = channel::Producer::<Arc<i32>>::new();
    assert_eq!(consumer.poll(bell(1, &log)), Poll::Pending);
    producer.resolve(payload.clone());
    assert_eq!(Arc::strong_count(&payload), 2);
    drop(consumer);
    assert_eq!(Arc::strong_count(&payload), 1);
}

#[test]
fn poly_cell_goes_with_its_last_handle() {
    let log = new_log();
    let payload = Arc::new(5);
    let (producer, consumer) = poly::Producer::<Arc<i32>>::new();
    let twin = consumer.clone();
    producer.resolve(payload.clone());
    let seen = consumer.poll(bell(1, &log));
    assert_eq!(seen, Poll::Ready(Ok(Arc::new(payload.clone()))));
    drop(seen);
    drop(consumer);
    assert_eq!(Arc::strong_count(&payload), 2);
    drop(twin);
    assert_eq!(Arc::strong_count(&payload), 1);
}

#[test]
fn channel_resolve_after_the_consumer_left() {
    let log = new_log();
    let (producer, mut consumer) = channel::Producer::<i32>::new();
    assert_eq!(consumer.poll(bell(1, &log)), Poll::Pending);
    drop(consumer);
    // The handle that the consumer left behind is woken, to no effect.
    producer.resolve(42);
    assert_eq!(rung(&log), vec![1]);
}

#[test]
fn poly_resolve_after_one_consumer_left() {
    let log = new_log();
    let (producer, consumer) = poly::Producer::<i32>::new();
    let twin = consumer.clone();
    assert_eq!(consumer.poll(bell(1, &log)), Poll::Pending);
    assert_eq!(twin.poll(bell(2, &log)), Poll::Pending);
    drop(consumer);
    producer.resolve(42);
    assert_eq!(rung(&log), vec![1, 2]);
    assert_eq!(twin.poll(bell(2, &log)), Poll::Ready(Ok(Arc::new(42))));
}

#[test]
fn poly_consumer_that_polls_twice_is_woken_twice() {
    let log = new_log();
    let (producer, consumer) = poly::Producer::<i32>::new();
    assert_eq!(consumer.poll(bell(1, &log)), Poll::Pending);
    assert_eq!(consumer.poll(bell(1, &log)), Poll::Pending);
    producer.resolve(42);
    assert_eq!(rung(&log), vec![1, 1]);
}

#[test]
fn poly_producer_that_is_only_dropped_wakes_nobody() {
    let log = new_log();
    let (producer, consumer) = poly::Producer::<i32>::new();
    assert_eq!(consumer.poll(bell(1, &log)), Poll::Pending);
    drop(producer);
    assert_eq!(rung(&log), Vec::<usize>::new());
    assert_eq!(consumer.poll(bell(2, &log)), Poll::Pending);
}

#[test]
fn pair_outcome_is_handed_over_once() {
    let log = new_log();
    let (producer, mut consumer) = pair::Producer::<i32, String>::new();
    producer.reject(String::from("no"));
    assert_eq!(consumer.poll(bell(1, &log)), Poll::Ready(Ok(Err(String::from("no")))));
    assert_eq!(consumer.poll(bell(2, &log)), Poll::Ready(Err(Error::ProducerDropped)));
}

#[test]
fn channel_consumer_is_finished_once_it_is_ready() {
    let log = new_log();
    let (producer, mut consumer) = channel::Producer::<i32>::new();
    assert!(!consumer.is_finished());
    assert_eq!(consumer.poll(bell(1, &log)), Poll::Pending);
    assert!(!consumer.is_finished());
    producer.resolve(42);
    assert!(!consumer.is_finished());
    assert_eq!(consumer.poll(bell(2, &log)), Poll::Ready(Ok(42)));
    assert!(consumer.is_finished());
    assert_eq!(consumer.poll(bell(3, &log)), Poll::Ready(Err(Error::ProducerDropped)));
    assert!(consumer.is_finished());
    assert_eq!(rung(&log), vec![1]);
}

#[test]
fn channel_consumer_is_finished_by_the_error() {
    let log = new_log();
    let (producer, mut consumer) = channel::Producer::<i32>::new();
    producer.abandon();
    assert!(!consumer.is_finished());
    assert_eq!(consumer.poll(bell(1, &log)), Poll::Ready(Err(Error::ProducerDropped)));
    assert!(consumer.is_finished());
    assert_eq!(consumer.poll(bell(2, &log)), Poll::Ready(Err(Error::ProducerDropped)));
    assert!(consumer.is_finished());
}

#[test]
fn pair_consumer_is_finished_once_it_is_ready() {
    let log = new_log();
    let (producer, mut consumer) = pair::Producer::<i32, String>::new();
    assert!(!consumer.is_finished());
    assert_eq!(consumer.poll(bell(1, &log)), Poll::Pending);
    assert!(!consumer.is_finished());
    producer.reject(String::from("no"));
    assert_eq!(consumer.poll(bell(2, &log)), Poll::Ready(Ok(Err(String::from("no")))));
    assert!(consumer.is_finished());
    assert_eq!(consumer.poll(bell(3, &log)), Poll::Ready(Err(Error::ProducerDropped)));
    assert!(consumer.is_finished());
    assert_eq!(rung(&log), vec![1]);
}
