use riverql::bus::{ingest, BusItem, EventBus, DEFAULT_CAPACITY};
use riverql::event::{Event, RiverEventType};
use riverql::query::{StreamStep, SubscriptionRoot};
use riverql::shared::{ingest_shared, new_river_state};
use riverql::snapshot::RiverSnapshot;

fn mode(name: &str) -> Event {
    Event::SeatMode { name: name.to_string() }
}

fn name_of(item: Option<BusItem>) -> String {
    match item {
        Some(BusItem::Event(Event::SeatMode { name })) => name,
        other => panic!("unexpected {:?}", other),
    }
}

#[test]
fn default_capacity_is_1024() {
    assert_eq!(DEFAULT_CAPACITY, 1024);
    assert_eq!(EventBus::with_default_capacity().capacity(), 1024);
    assert_eq!(EventBus::new(16).capacity(), 16);
}

#[test]
fn cursor_sees_what_is_published_after_it_in_order() {
    let bus = EventBus::new(16);
    assert!(bus.publish(mode("before")).is_ok());
    let mut cursor = bus.subscribe();
    assert!(cursor.poll().is_none());
    for i in 0..5 {
        assert!(bus.publish(mode(&format!("m{}", i))).is_ok());
    }
    for i in 0..5 {
        assert_eq!(name_of(cursor.poll()), format!("m{}", i));
    }
    assert!(cursor.poll().is_none());
}

#[test]
fn slow_cursor_does_not_hold_up_another() {
    let bus = EventBus::new(4);
    let mut slow = bus.subscribe();
    let mut fast = bus.subscribe();
    for i in 0..100 {
        assert!(bus.publish(mode(&format!("m{}", i))).is_ok());
        assert_eq!(name_of(fast.poll()), format!("m{}", i));
        assert!(fast.poll().is_none());
    }
    match slow.poll() {
        Some(BusItem::Lagged(n)) => assert_eq!(n, 96),
        other => panic!("unexpected {:?}", other),
    }
    for i in 96..100 {
        assert_eq!(name_of(slow.poll()), format!("m{}", i));
    }
    assert!(slow.poll().is_none());
}

#[test]
fn closure_reaches_present_and_future_cursors() {
    let mut bus = EventBus::new(8);
    let mut cursor = bus.subscribe();
    assert!(bus.publish(mode("last")).is_ok());
    bus.close();
    assert_eq!(name_of(cursor.poll()), "last");
    assert!(matches!(cursor.poll(), Some(BusItem::Closed)));
    assert!(matches!(cursor.poll(), Some(BusItem::Closed)));
    let mut late = bus.subscribe();
    assert!(matches!(late.poll(), Some(BusItem::Closed)));
    match bus.publish(mode("lost")) {
        Err(Event::SeatMode { name }) => assert_eq!(name, "lost"),
        other => panic!("unexpected {:?}", other),
    }
}

#[test]
fn ingest_applies_then_publishes() {
    let bus = EventBus::new(8);
    let mut cursor = bus.subscribe();
    let mut snapshot = RiverSnapshot::new();
    let delivered = ingest(&mut snapshot, &bus, mode("normal"));
    assert!(matches!(delivered, Ok(n) if n >= 1));
    assert_eq!(snapshot.seat_mode().as_deref(), Some("normal"));
    assert_eq!(name_of(cursor.poll()), "normal");

    let handle = new_river_state();
    assert!(ingest_shared(&handle, &bus, mode("locked")).is_ok());
    assert_eq!(handle.seat_mode().map(|m| m.name), Some("locked".to_string()));
    assert_eq!(name_of(cursor.poll()), "locked");
}

#[test]
fn event_stream_yields_the_kinds_asked_for() {
    let mut bus = EventBus::new(64);
    let mut stream = SubscriptionRoot.events(&bus, Some(vec![RiverEventType::SeatMode]));
    let mut all = SubscriptionRoot.events(&bus, None);
    assert!(stream.try_next().is_none());
    bus.publish(Event::SeatFocusedView { title: "t".to_string() }).unwrap();
    bus.publish(mode("a")).unwrap();
    bus.publish(mode("b")).unwrap();
    bus.close();
    assert!(matches!(stream.try_next(), Some(StreamStep::Skip)));
    assert!(
        matches!(stream.try_next(), Some(StreamStep::Yield(e)) if e.to_json() == r#"{"__typename":"SeatMode","name":"a"}"#)
    );
    assert!(
        matches!(stream.try_next(), Some(StreamStep::Yield(e)) if e.to_json() == r#"{"__typename":"SeatMode","name":"b"}"#)
    );
    assert!(matches!(stream.try_next(), Some(StreamStep::End)));
    assert!(matches!(all.try_next(), Some(StreamStep::Yield(_))));
    assert!(matches!(all.accept(BusItem::Lagged(2)), StreamStep::Skip));
    let (mut cursor, filter) = all.into_parts();
    assert!(filter.accepts_kind(RiverEventType::OutputViewTags));
    assert_eq!(name_of(cursor.poll()), "a");
    let mut rx = cursor.into_receiver();
    assert!(matches!(rx.try_recv(), Ok(Event::SeatMode { name }) if name == "b"));
}

#[test]
fn stream_asked_for_after_closure_is_over_at_once() {
    let mut bus = EventBus::new(8);
    bus.publish(mode("before")).unwrap();
    bus.close();
    let mut stream = SubscriptionRoot.events(&bus, None);
    assert!(matches!(stream.try_next(), Some(StreamStep::End)));
    assert!(matches!(stream.try_next(), Some(StreamStep::End)));
    let mut cursor = bus.subscribe();
    assert!(matches!(cursor.poll(), Some(BusItem::Closed)));
    let mut rx = cursor.into_receiver();
    assert!(matches!(
        rx.try_recv(),
        Err(tokio::sync::broadcast::error::TryRecvError::Closed)
    ));
}
