use riverql::event::{Event, ObjectId};
use riverql::registry::{parse_u32_array, InfoUpdate, OutputStatus, Registry, SeatStatus};

fn output(protocol_id: u32) -> ObjectId {
    ObjectId { protocol_id, key: format!("wl_output@{}", protocol_id) }
}

#[test]
fn parse_u32_array_reads_whole_words_only() {
    let mut bytes = Vec::new();
    bytes.extend_from_slice(&1u32.to_ne_bytes());
    bytes.extend_from_slice(&0x8000_0001u32.to_ne_bytes());
    bytes.extend_from_slice(&[7, 7, 7]);
    assert_eq!(parse_u32_array(&bytes), vec![1, 0x8000_0001]);
    assert_eq!(parse_u32_array(&[]), Vec::<u32>::new());
    assert_eq!(parse_u32_array(&[1, 2, 3]), Vec::<u32>::new());
    let mixed: Vec<u8> = [0x0102_0304u32, 0xfffe_fdfc, 0, u32::MAX, 0x8000_0000]
        .iter()
        .flat_map(|w| w.to_ne_bytes())
        .collect();
    assert_eq!(
        parse_u32_array(&mixed),
        vec![0x0102_0304, 0xfffe_fdfc, 0, u32::MAX, 0x8000_0000]
    );
}

#[test]
fn unknown_output_has_no_label() {
    let registry = Registry::new();
    assert_eq!(registry.output_label(&output(3)), None);
}

#[test]
fn tracked_output_keeps_what_it_said() {
    let mut registry = Registry::new();
    registry.track_output(&output(3));
    assert_eq!(registry.output_label(&output(3)), None);
    registry.update_output_info(&output(3), InfoUpdate::Name("DP-1".to_string()));
    registry.track_output(&output(3));
    assert_eq!(registry.output_label(&output(3)).as_deref(), Some("DP-1"));
}

#[test]
fn label_follows_each_update() {
    let mut registry = Registry::new();
    let id = output(12);
    registry.update_output_info(
        &id,
        InfoUpdate::Geometry { make: "Dell".to_string(), model: "U2415".to_string() },
    );
    assert_eq!(registry.output_label(&id).as_deref(), Some("Dell U2415"));
    registry.update_output_info(&id, InfoUpdate::Description("Dell monitor".to_string()));
    assert_eq!(registry.output_label(&id).as_deref(), Some("Dell monitor"));
    registry.update_output_info(&id, InfoUpdate::Name("DP-2".to_string()));
    assert_eq!(registry.output_label(&id).as_deref(), Some("DP-2"));
    assert_eq!(registry.output_label(&output(13)), None);
}

#[test]
fn output_report_becomes_an_event_of_its_output() {
    let mut registry = Registry::new();
    let id = output(12);
    registry.track_output(&id);
    registry.bind_status(40, id.clone());
    registry.update_output_info(&id, InfoUpdate::Name("DP-2".to_string()));

    match registry.output_status_event(40, OutputStatus::FocusedTags { tags: 5 }) {
        Some(Event::OutputFocusedTags { id, name, tags }) => {
            assert_eq!(id.protocol_id, 12);
            assert_eq!(id.key, "wl_output@12");
            assert_eq!(name.as_deref(), Some("DP-2"));
            assert_eq!(tags, 5);
        }
        other => panic!("unexpected {:?}", other),
    }
    let mut bytes = Vec::new();
    bytes.extend_from_slice(&3u32.to_ne_bytes());
    bytes.extend_from_slice(&9u32.to_ne_bytes());
    match registry.output_status_event(40, OutputStatus::ViewTags { tags: bytes }) {
        Some(Event::OutputViewTags { tags, .. }) => assert_eq!(tags, vec![3, 9]),
        other => panic!("unexpected {:?}", other),
    }
    match registry.output_status_event(40, OutputStatus::UrgentTags { tags: 2 }) {
        Some(Event::OutputUrgentTags { tags, .. }) => assert_eq!(tags, 2),
        other => panic!("unexpected {:?}", other),
    }
    match registry.output_status_event(40, OutputStatus::LayoutName { name: "tile".to_string() }) {
        Some(Event::OutputLayoutName { layout, name, .. }) => {
            assert_eq!(layout, "tile");
            assert_eq!(name.as_deref(), Some("DP-2"));
        }
        other => panic!("unexpected {:?}", other),
    }
    assert!(matches!(
        registry.output_status_event(40, OutputStatus::LayoutNameClear),
        Some(Event::OutputLayoutNameClear { .. })
    ));
    assert!(registry.output_status_event(41, OutputStatus::FocusedTags { tags: 5 }).is_none());
}

#[test]
fn seat_report_becomes_an_event() {
    let mut registry = Registry::new();
    registry.update_output_info(&output(12), InfoUpdate::Name("DP-2".to_string()));
    match registry.seat_status_event(SeatStatus::FocusedOutput { output: output(12) }) {
        Event::SeatFocusedOutput { id, name } => {
            assert_eq!(id.protocol_id, 12);
            assert_eq!(name.as_deref(), Some("DP-2"));
        }
        other => panic!("unexpected {:?}", other),
    }
    match registry.seat_status_event(SeatStatus::UnfocusedOutput { output: output(13) }) {
        Event::SeatUnfocusedOutput { id, name } => {
            assert_eq!(id.protocol_id, 13);
            assert_eq!(name, None);
        }
        other => panic!("unexpected {:?}", other),
    }
    assert!(matches!(
        registry.seat_status_event(SeatStatus::FocusedView { title: "vim".to_string() }),
        Event::SeatFocusedView { title } if title == "vim"
    ));
    assert!(matches!(
        registry.seat_status_event(SeatStatus::Mode { name: "normal".to_string() }),
        Event::SeatMode { name } if name == "normal"
    ));
}
