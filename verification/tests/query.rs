use riverql::event::{Event, ObjectId};
use riverql::query::{GOutputState, QueryRoot};
use riverql::snapshot::{OutputState, RiverSnapshot};

fn output(key: &str) -> ObjectId {
    ObjectId { protocol_id: 1, key: key.to_string() }
}

fn filled() -> RiverSnapshot {
    let mut s = RiverSnapshot::new();
    s.apply_event(&Event::OutputFocusedTags {
        id: output("a"),
        name: Some("eDP-1".to_string()),
        tags: 1,
    });
    s.apply_event(&Event::OutputViewTags { id: output("b"), name: None, tags: vec![2, 4] });
    s.apply_event(&Event::OutputUrgentTags { id: output("a"), name: None, tags: 8 });
    s.apply_event(&Event::OutputLayoutName {
        id: output("a"),
        name: None,
        layout: "tile".to_string(),
    });
    s
}

#[test]
fn hello_says_ok() {
    assert_eq!(QueryRoot.hello(), "ok");
}

#[test]
fn outputs_lists_each_output_once() {
    let s = filled();
    let mut listed = QueryRoot.outputs(&s);
    listed.sort_by(|x, y| x.output_id.cmp(&y.output_id));
    assert_eq!(listed.len(), 2);
    assert_eq!(listed[0].output_id(), "a");
    assert_eq!(listed[0].name(), Some("eDP-1"));
    assert_eq!(listed[0].focused_tags(), Some(1));
    assert_eq!(listed[0].urgent_tags(), Some(8));
    assert_eq!(listed[0].layout_name(), Some("tile"));
    assert_eq!(listed[0].view_tags(), None);
    assert_eq!(listed[1].output_id(), "b");
    assert_eq!(listed[1].name(), None);
    assert_eq!(listed[1].view_tags(), Some(&vec![2, 4]));
    assert!(QueryRoot.outputs(&RiverSnapshot::new()).is_empty());
}

#[test]
fn output_is_found_by_label() {
    let s = filled();
    let found = QueryRoot.output(&s, "eDP-1".to_string()).expect("found");
    assert_eq!(found.output_id, "a");
    assert_eq!(found.urgent_tags, Some(8));
    assert!(QueryRoot.output(&s, "a".to_string()).is_none());
    assert!(QueryRoot.output(&s, String::new()).is_none());
}

#[test]
fn seat_queries() {
    let mut s = filled();
    assert!(QueryRoot.seat_focused_output(&s).is_none());
    assert!(QueryRoot.seat_focused_view(&s).is_none());
    assert!(QueryRoot.seat_mode(&s).is_none());
    s.apply_event(&Event::SeatFocusedOutput { id: output("a"), name: Some("eDP-1".to_string()) });
    s.apply_event(&Event::SeatFocusedView { title: "editor".to_string() });
    s.apply_event(&Event::SeatMode { name: "normal".to_string() });
    let focused = QueryRoot.seat_focused_output(&s).expect("focused");
    assert_eq!(focused.output_id(), "a");
    assert_eq!(focused.name(), Some("eDP-1"));
    assert_eq!(QueryRoot.seat_focused_view(&s).expect("view").title(), "editor");
    assert_eq!(QueryRoot.seat_mode(&s).expect("mode").name(), "normal");
}

#[test]
fn output_state_converts_field_by_field() {
    let state = OutputState {
        output_id: "x".to_string(),
        name: Some("n".to_string()),
        focused_tags: Some(1),
        view_tags: Some(vec![3]),
        urgent_tags: None,
        layout_name: Some("l".to_string()),
    };
    let borrowed = GOutputState::from(&state);
    let owned = GOutputState::from(state);
    for g in [borrowed, owned] {
        assert_eq!(g.output_id, "x");
        assert_eq!(g.name.as_deref(), Some("n"));
        assert_eq!(g.focused_tags, Some(1));
        assert_eq!(g.view_tags, Some(vec![3]));
        assert_eq!(g.urgent_tags, None);
        assert_eq!(g.layout_name.as_deref(), Some("l"));
    }
}
