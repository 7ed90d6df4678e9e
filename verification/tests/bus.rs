use futures::executor::block_on;
use futures::{FutureExt, StreamExt};
use panel_stack::gui::{share, Bus};

#[test]
fn a_subscriber_gets_the_events_in_the_order_they_were_sent() {
    let mut bus: Bus<u32> = Bus::new();
    let mut stream = bus.subscribe();
    drop(bus.send(42, None));
    drop(bus.send(451, None));
    drop(bus.send(1984, None));
    drop(bus);
    let seen: Vec<u32> = block_on(stream.by_ref().map(|event| *event).collect());
    assert_eq!(seen, vec![42, 451, 1984]);
}

#[test]
fn every_subscriber_gets_every_event() {
    let mut bus: Bus<u32> = Bus::new();
    let mut one = bus.subscribe();
    let mut other = bus.subscribe();
    bus.post(1, None);
    bus.post(2, None);
    drop(bus);
    let first: Vec<u32> = block_on(one.by_ref().map(|event| *event).collect());
    let second: Vec<u32> = block_on(other.by_ref().map(|event| *event).collect());
    assert_eq!(first, vec![1, 2]);
    assert_eq!(second, vec![1, 2]);
}

#[test]
fn nothing_is_replayed_to_a_late_subscriber() {
    let mut bus: Bus<u32> = Bus::new();
    bus.post(1, None);
    let mut late = bus.subscribe();
    bus.post(2, None);
    drop(bus);
    let seen: Vec<u32> = block_on(late.by_ref().map(|event| *event).collect());
    assert_eq!(seen, vec![2]);
}

#[test]
fn clear_discards_what_was_not_read() {
    let mut bus: Bus<u32> = Bus::new();
    let mut stream = bus.subscribe();
    bus.post(1, None);
    bus.post(2, None);
    bus.clear();
    bus.post(3, None);
    drop(bus);
    let seen: Vec<u32> = block_on(stream.by_ref().map(|event| *event).collect());
    assert_eq!(seen, vec![3]);
}

#[test]
fn posts_after_one_clear_all_wait() {
    let mut bus: Bus<u32> = Bus::new();
    let mut stream = bus.subscribe();
    bus.clear();
    bus.post(50, None);
    bus.post(75, None);
    drop(bus);
    let seen: Vec<u32> = block_on(stream.by_ref().map(|event| *event).collect());
    assert_eq!(seen, vec![50, 75]);
}

#[test]
fn clear_does_not_take_back_what_was_read() {
    let mut bus: Bus<u32> = Bus::new();
    let mut stream = bus.subscribe();
    bus.post(1, None);
    let read = stream.next().now_or_never().unwrap().unwrap();
    bus.clear();
    assert_eq!(*read, 1);
    assert!(stream.next().now_or_never().is_none());
}

#[test]
fn sending_without_subscribers_is_not_an_error() {
    let mut bus: Bus<u32> = Bus::new();
    let stream = bus.subscribe();
    drop(stream);
    let sent = bus.send(7, None);
    bus.post(8, None);
    bus.clear();
    assert_eq!(sent.now_or_never(), Some(()));
}

#[test]
fn a_sent_event_is_done_when_every_subscriber_has_let_go_of_it() {
    let mut bus: Bus<u32> = Bus::new();
    let mut stream = bus.subscribe();
    let mut sent = bus.send(7, None);
    assert_eq!((&mut sent).now_or_never(), None);
    let event = stream.next().now_or_never().unwrap().unwrap();
    assert_eq!(*event, 7);
    assert_eq!((&mut sent).now_or_never(), None);
    drop(event);
    assert_eq!(sent.now_or_never(), Some(()));
}

#[test]
fn a_stream_waits_while_the_bus_lives_and_ends_when_it_is_gone() {
    let mut bus: Bus<u32> = Bus::new();
    let mut stream = bus.subscribe();
    assert!(stream.next().now_or_never().is_none());
    bus.post(5, None);
    assert_eq!(*stream.next().now_or_never().unwrap().unwrap(), 5);
    drop(bus);
    assert!(stream.next().now_or_never().unwrap().is_none());
}

#[test]
fn a_sent_event_waits_for_the_occurrences_it_caused() {
    let mut clicks: Bus<u32> = Bus::new();
    let mut presses: Bus<u32> = Bus::new();
    let mut click_stream = clicks.subscribe();
    let mut press_stream = presses.subscribe();
    let mut click_sent = clicks.send(1, None);
    let click = click_stream.next().now_or_never().unwrap().unwrap();
    let press_sent = presses.send(10, click.into());
    assert_eq!((&mut click_sent).now_or_never(), None);
    let press = press_stream.next().now_or_never().unwrap().unwrap();
    assert_eq!(*press, 10);
    drop(press);
    assert_eq!(press_sent.now_or_never(), Some(()));
    assert_eq!(click_sent.now_or_never(), Some(()));
}

#[test]
fn a_shared_provenance_is_the_same_occurrence() {
    let mut cause: Bus<u32> = Bus::new();
    let mut stream = cause.subscribe();
    let mut sent = cause.send(1, None);
    let source = stream.next().now_or_never().unwrap().unwrap().into();
    let shared = share(&source);
    assert!(std::sync::Arc::ptr_eq(source.as_ref().unwrap(), shared.as_ref().unwrap()));
    drop(source);
    assert_eq!((&mut sent).now_or_never(), None);
    drop(shared);
    assert_eq!(sent.now_or_never(), Some(()));
    assert!(share(&None).is_none());
}
