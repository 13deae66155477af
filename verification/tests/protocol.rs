use riverql::bus::BusItem;
use riverql::client::{
    check_stdin, query_source, Client, ClientAction, ClientError, ClientInput, ClientState,
    QuerySource, SUBSCRIPTION_ID,
};
use riverql::event::{Event, ObjectId, RiverEventType};
use riverql::filter::EventFilter;
use riverql::frame::{
    complete_frame, init_frame, subscribe_frame, ClientFrame, ClientMsg, ServerFrame, ServerMsg,
    ServerMsgKind,
};
use riverql::payload::RiverEvent;
use riverql::server::{ConnInput, ConnState, Connection};

fn output(key: &str) -> ObjectId {
    ObjectId { protocol_id: 42, key: key.to_string() }
}

fn client_msg(text: &str) -> Option<ClientMsg> {
    let value: serde_json::Value = serde_json::from_str(text).ok()?;
    let typ = value.get("type")?.as_str()?.to_string();
    let id = value.get("id").and_then(|v| v.as_str()).map(String::from);
    let query = value
        .get("payload")
        .and_then(|p| p.get("query"))
        .and_then(|q| q.as_str())
        .map(String::from);
    Some(ClientMsg { typ, id, query })
}

fn server_msg(text: &str) -> Option<ServerMsg> {
    let value: serde_json::Value = serde_json::from_str(text).ok()?;
    let typ = value.get("type")?.as_str()?.to_string();
    let payload = match value.get("payload") {
        Some(p) if !p.is_null() => Some(p.to_string()),
        _ => None,
    };
    Some(ServerMsg { typ, payload })
}

fn feed(conn: &mut Connection, text: &str) -> Vec<String> {
    let frame = match client_msg(text) {
        Some(msg) => msg.into_frame(),
        None => ClientFrame::Unrecognized,
    };
    let input = frame.into_input(Ok(EventFilter::new(None)));
    conn.handle(input).iter().map(|f| f.encode()).collect()
}

fn item(conn: &mut Connection, id: &str, item: BusItem) -> Vec<String> {
    conn.handle(ConnInput::Item { id: id.to_string(), item })
        .iter()
        .map(|f| f.encode())
        .collect()
}

fn mode(name: &str) -> Event {
    Event::SeatMode { name: name.to_string() }
}

#[test]
fn subscribe_before_init_closes_without_a_frame() {
    let mut conn = Connection::new();
    assert_eq!(conn.state(), ConnState::AwaitingInit);
    let sent = feed(&mut conn, r#"{"type":"subscribe","id":"1","payload":{"query":"x"}}"#);
    assert!(sent.is_empty());
    assert_eq!(conn.state(), ConnState::Closed);
    assert!(!conn.is_subscribed("1"));
    let mut all = Vec::new();
    all.extend(feed(&mut conn, r#"{"type":"connection_init","payload":{}}"#));
    all.extend(feed(&mut conn, r#"{"type":"subscribe","id":"1","payload":{"query":"x"}}"#));
    all.extend(item(&mut conn, "1", BusItem::Event(mode("normal"))));
    all.extend(item(&mut conn, "1", BusItem::Closed));
    assert!(all.is_empty());
    assert_eq!(conn.state(), ConnState::Closed);
}

#[test]
fn end_to_end_handshake_subscription_and_completion() {
    let mut conn = Connection::new();
    let ack = feed(&mut conn, r#"{"type":"connection_init","payload":{}}"#);
    assert_eq!(ack, vec![r#"{"type":"connection_ack"}"#.to_string()]);
    assert_eq!(conn.state(), ConnState::Acked);

    let none = feed(&mut conn, r#"{"type":"subscribe","id":"1","payload":{"query":"..."}}"#);
    assert!(none.is_empty());
    assert_eq!(conn.state(), ConnState::Active);
    assert!(conn.is_subscribed("1"));

    let upstream = Event::OutputFocusedTags { id: output("42"), name: None, tags: 0b101 };
    let next = item(&mut conn, "1", BusItem::Event(upstream));
    assert_eq!(
        next,
        vec![
            r#"{"type":"next","id":"1","payload":{"__typename":"OutputFocusedTags","tags":5}}"#
                .to_string()
        ]
    );

    let none = feed(&mut conn, r#"{"type":"complete","id":"1"}"#);
    assert!(none.is_empty());
    assert!(!conn.is_subscribed("1"));
    let after = item(
        &mut conn,
        "1",
        BusItem::Event(Event::OutputFocusedTags { id: output("42"), name: None, tags: 1 }),
    );
    assert!(after.is_empty());
    let after = item(&mut conn, "1", BusItem::Closed);
    assert!(after.is_empty());
    assert_eq!(conn.state(), ConnState::Active);
}

#[test]
fn filtered_subscription_gets_its_kind_in_order() {
    let mut conn = Connection::new();
    conn.handle(ConnInput::ConnectionInit);
    conn.handle(ConnInput::Subscribe {
        id: "s".to_string(),
        filter: EventFilter::new(Some(vec![RiverEventType::SeatMode])),
    });
    let mut sent = Vec::new();
    let mut expected = Vec::new();
    for i in 0..100u32 {
        let event = match i % 4 {
            0 => Event::OutputFocusedTags { id: output("o"), name: None, tags: i },
            1 => {
                expected.push(format!(
                    r#"{{"type":"next","id":"s","payload":{{"__typename":"SeatMode","name":"m{}"}}}}"#,
                    i
                ));
                mode(&format!("m{}", i))
            }
            2 => Event::SeatFocusedView { title: format!("t{}", i) },
            _ => Event::OutputLayoutNameClear { id: output("o"), name: None },
        };
        sent.extend(item(&mut conn, "s", BusItem::Event(event)));
    }
    assert_eq!(expected.len(), 25);
    assert_eq!(sent, expected);
}

#[test]
fn empty_filter_lets_every_kind_through() {
    let all = EventFilter::new(Some(Vec::new()));
    assert!(all.accepts(&mode("m")));
    assert!(all.accepts_kind(RiverEventType::OutputViewTags));
    let absent = EventFilter::new(None);
    assert!(absent.accepts_kind(RiverEventType::SeatFocusedOutput));
    let two = EventFilter::new(Some(vec![
        RiverEventType::SeatMode,
        RiverEventType::OutputLayoutNameClear,
    ]));
    assert!(two.accepts(&mode("m")));
    assert!(two.accepts(&Event::OutputLayoutNameClear { id: output("o"), name: None }));
    assert!(!two.accepts(&Event::OutputLayoutName {
        id: output("o"),
        name: None,
        layout: "l".to_string()
    }));
    assert!(two.duplicate().accepts_kind(RiverEventType::SeatMode));
    assert!(!two.duplicate().accepts_kind(RiverEventType::SeatFocusedView));
}

#[test]
fn kind_of_each_event() {
    let id = output("o");
    let cases = vec![
        (
            Event::OutputFocusedTags { id: id.clone(), name: None, tags: 1 },
            RiverEventType::OutputFocusedTags,
        ),
        (
            Event::OutputViewTags { id: id.clone(), name: None, tags: vec![] },
            RiverEventType::OutputViewTags,
        ),
        (
            Event::OutputUrgentTags { id: id.clone(), name: None, tags: 1 },
            RiverEventType::OutputUrgentTags,
        ),
        (
            Event::OutputLayoutName { id: id.clone(), name: None, layout: String::new() },
            RiverEventType::OutputLayoutName,
        ),
        (
            Event::OutputLayoutNameClear { id: id.clone(), name: None },
            RiverEventType::OutputLayoutNameClear,
        ),
        (Event::SeatFocusedOutput { id: id.clone(), name: None }, RiverEventType::SeatFocusedOutput),
        (
            Event::SeatUnfocusedOutput { id: id.clone(), name: None },
            RiverEventType::SeatUnfocusedOutput,
        ),
        (Event::SeatFocusedView { title: String::new() }, RiverEventType::SeatFocusedView),
        (mode("m"), RiverEventType::SeatMode),
    ];
    for (event, kind) in cases {
        assert_eq!(RiverEventType::from(&event), kind);
        assert_eq!(RiverEvent::from(event).kind(), kind);
    }
}

#[test]
fn bus_closure_completes_every_subscription_once() {
    let mut first = Connection::new();
    let mut second = Connection::new();
    for conn in [&mut first, &mut second] {
        conn.handle(ConnInput::ConnectionInit);
        conn.handle(ConnInput::Subscribe { id: "a".to_string(), filter: EventFilter::new(None) });
    }
    first.handle(ConnInput::Subscribe { id: "b".to_string(), filter: EventFilter::new(None) });

    assert_eq!(item(&mut first, "a", BusItem::Closed), vec![r#"{"type":"complete","id":"a"}"#]);
    assert_eq!(item(&mut first, "b", BusItem::Closed), vec![r#"{"type":"complete","id":"b"}"#]);
    assert_eq!(item(&mut second, "a", BusItem::Closed), vec![r#"{"type":"complete","id":"a"}"#]);
    for conn in [&mut first, &mut second] {
        assert!(item(conn, "a", BusItem::Closed).is_empty());
        assert!(item(conn, "a", BusItem::Event(mode("m"))).is_empty());
        assert!(item(conn, "b", BusItem::Closed).is_empty());
        assert_eq!(conn.state(), ConnState::Active);
    }
}

#[test]
fn duplicate_subscription_id_closes_the_connection() {
    let mut conn = Connection::new();
    feed(&mut conn, r#"{"type":"connection_init"}"#);
    feed(&mut conn, r#"{"type":"subscribe","id":"1","payload":{"query":"q"}}"#);
    let sent = feed(&mut conn, r#"{"type":"subscribe","id":"1","payload":{"query":"q"}}"#);
    assert!(sent.is_empty());
    assert_eq!(conn.state(), ConnState::Closed);
    assert!(!conn.is_subscribed("1"));
    assert!(item(&mut conn, "1", BusItem::Event(mode("m"))).is_empty());
}

#[test]
fn second_init_closes_the_connection() {
    let mut conn = Connection::new();
    feed(&mut conn, r#"{"type":"connection_init"}"#);
    let sent = feed(&mut conn, r#"{"type":"connection_init"}"#);
    assert!(sent.is_empty());
    assert_eq!(conn.state(), ConnState::Closed);
}

#[test]
fn unknown_frames_are_passed_over() {
    let mut conn = Connection::new();
    assert!(feed(&mut conn, r#"{"type":"ping"}"#).is_empty());
    assert!(feed(&mut conn, "not json").is_empty());
    assert_eq!(conn.state(), ConnState::AwaitingInit);
    feed(&mut conn, r#"{"type":"connection_init"}"#);
    assert!(feed(&mut conn, r#"{"type":"ping"}"#).is_empty());
    assert!(feed(&mut conn, r#"{"type":"subscribe","payload":{"query":"q"}}"#).is_empty());
    assert!(feed(&mut conn, r#"{"type":"subscribe","id":"7"}"#).is_empty());
    assert!(feed(&mut conn, r#"{"type":"complete"}"#).is_empty());
    assert!(feed(&mut conn, r#"{"type":"complete","id":"never opened"}"#).is_empty());
    assert_eq!(conn.state(), ConnState::Acked);
    assert!(!conn.is_subscribed("7"));
}

#[test]
fn frames_that_only_the_server_sends_close_the_connection() {
    for text in [
        r#"{"type":"next","id":"7","payload":{}}"#,
        r#"{"type":"connection_ack"}"#,
        r#"{"type":"error","id":"7","payload":[]}"#,
    ] {
        let mut fresh = Connection::new();
        assert!(feed(&mut fresh, text).is_empty());
        assert_eq!(fresh.state(), ConnState::Closed);

        let mut conn = Connection::new();
        feed(&mut conn, r#"{"type":"connection_init"}"#);
        feed(&mut conn, r#"{"type":"subscribe","id":"1","payload":{"query":"q"}}"#);
        assert!(feed(&mut conn, text).is_empty());
        assert_eq!(conn.state(), ConnState::Closed);
        assert!(!conn.is_subscribed("1"));
    }
    let mut fresh = Connection::new();
    assert!(feed(&mut fresh, r#"{"type":"complete","id":"1"}"#).is_empty());
    assert_eq!(fresh.state(), ConnState::Closed);
}

#[test]
fn transport_failure_cancels_every_subscription() {
    for last in [ConnInput::TransportClosed, ConnInput::WriteFailed] {
        let mut conn = Connection::new();
        conn.handle(ConnInput::ConnectionInit);
        conn.handle(ConnInput::Subscribe { id: "a".to_string(), filter: EventFilter::new(None) });
        conn.handle(ConnInput::Subscribe { id: "b".to_string(), filter: EventFilter::new(None) });
        assert!(conn.handle(last).is_empty());
        assert_eq!(conn.state(), ConnState::Closed);
        assert!(!conn.is_subscribed("a"));
        assert!(!conn.is_subscribed("b"));
        assert!(item(&mut conn, "a", BusItem::Event(mode("m"))).is_empty());
    }
}

#[test]
fn lag_is_passed_over_and_forwarding_goes_on() {
    let mut conn = Connection::new();
    conn.handle(ConnInput::ConnectionInit);
    conn.handle(ConnInput::Subscribe { id: "a".to_string(), filter: EventFilter::new(None) });
    assert!(item(&mut conn, "a", BusItem::Lagged(3)).is_empty());
    assert!(conn.is_subscribed("a"));
    assert_eq!(item(&mut conn, "a", BusItem::Event(mode("m"))).len(), 1);
}

#[test]
fn rejected_query_is_answered_with_an_error_frame() {
    let mut conn = Connection::new();
    conn.handle(ConnInput::ConnectionInit);
    let frame = ClientFrame::Subscribe { id: "9".to_string(), query: "{".to_string() };
    let sent = conn.handle(frame.into_input(Err("syntax \"error\"".to_string())));
    let texts: Vec<String> = sent.iter().map(|f| f.encode()).collect();
    assert_eq!(
        texts,
        vec![r#"{"type":"error","id":"9","payload":[{"message":"syntax \"error\""}]}"#]
    );
    assert_eq!(conn.state(), ConnState::Acked);
    assert!(!conn.is_subscribed("9"));
}

#[test]
fn payload_of_each_event() {
    let id = output("wl_output@3");
    let label = Some("eDP-1".to_string());
    let cases: Vec<(Event, &str)> = vec![
        (
            Event::OutputFocusedTags { id: id.clone(), name: label.clone(), tags: 4294967295 },
            r#"{"__typename":"OutputFocusedTags","name":"eDP-1","tags":4294967295}"#,
        ),
        (
            Event::OutputViewTags { id: id.clone(), name: None, tags: vec![1, 20, 300] },
            r#"{"__typename":"OutputViewTags","tags":[1,20,300]}"#,
        ),
        (
            Event::OutputViewTags { id: id.clone(), name: None, tags: vec![] },
            r#"{"__typename":"OutputViewTags","tags":[]}"#,
        ),
        (
            Event::OutputUrgentTags { id: id.clone(), name: None, tags: 0 },
            r#"{"__typename":"OutputUrgentTags","tags":0}"#,
        ),
        (
            Event::OutputLayoutName {
                id: id.clone(),
                name: label.clone(),
                layout: "tile \"left\"".to_string(),
            },
            r#"{"__typename":"OutputLayoutName","layout":"tile \"left\"","outputName":"eDP-1"}"#,
        ),
        (
            Event::OutputLayoutNameClear { id: id.clone(), name: None },
            r#"{"__typename":"OutputLayoutNameClear"}"#,
        ),
        (
            Event::OutputLayoutNameClear { id: id.clone(), name: label.clone() },
            r#"{"__typename":"OutputLayoutNameClear","outputName":"eDP-1"}"#,
        ),
        (
            Event::SeatFocusedOutput { id: id.clone(), name: label.clone() },
            r#"{"__typename":"SeatFocusedOutput","name":"eDP-1"}"#,
        ),
        (
            Event::SeatUnfocusedOutput { id: id.clone(), name: None },
            r#"{"__typename":"SeatUnfocusedOutput"}"#,
        ),
        (
            Event::SeatFocusedView { title: "a\\b\n".to_string() },
            r#"{"__typename":"SeatFocusedView","title":"a\\b\n"}"#,
        ),
        (mode("normal"), r#"{"__typename":"SeatMode","name":"normal"}"#),
    ];
    for (event, expected) in cases {
        let text = RiverEvent::from(event).to_json();
        assert_eq!(text, expected);
        assert!(serde_json::from_str::<serde_json::Value>(&text).is_ok());
    }
}

#[test]
fn outgoing_shape_keeps_identity_and_label() {
    match RiverEvent::from(Event::OutputFocusedTags {
        id: output("wl_output@3"),
        name: Some("eDP-1".to_string()),
        tags: 6,
    }) {
        RiverEvent::OutputFocusedTags(g) => {
            assert_eq!(g.output_id(), "wl_output@3");
            assert_eq!(g.name(), Some("eDP-1"));
            assert_eq!(g.tags(), 6);
        }
        other => panic!("unexpected {:?}", other),
    }
    match RiverEvent::from(Event::OutputLayoutNameClear { id: output("o"), name: None }) {
        RiverEvent::OutputLayoutNameClear(g) => {
            assert_eq!(g.output_name(), None);
            assert_eq!(g.output_id(), "o");
        }
        other => panic!("unexpected {:?}", other),
    }
    match RiverEvent::from(Event::OutputLayoutName {
        id: output("o"),
        name: Some("eDP-1".to_string()),
        layout: "tile".to_string(),
    }) {
        RiverEvent::OutputLayoutName(g) => {
            assert_eq!(g.layout(), "tile");
            assert_eq!(g.output_name(), Some("eDP-1"));
            assert_eq!(g.output_id(), "o");
        }
        other => panic!("unexpected {:?}", other),
    }
    match RiverEvent::from(Event::OutputViewTags { id: output("o"), name: None, tags: vec![8, 9] }) {
        RiverEvent::OutputViewTags(g) => assert_eq!(g.tags(), &vec![8, 9]),
        other => panic!("unexpected {:?}", other),
    }
    match RiverEvent::from(Event::SeatFocusedView { title: "t".to_string() }) {
        RiverEvent::SeatFocusedView(g) => assert_eq!(g.title(), "t"),
        other => panic!("unexpected {:?}", other),
    }
    match RiverEvent::from(mode("m")) {
        RiverEvent::SeatMode(g) => assert_eq!(g.name(), "m"),
        other => panic!("unexpected {:?}", other),
    }
}

#[test]
fn server_frames_as_text() {
    assert_eq!(ServerFrame::ConnectionAck.encode(), r#"{"type":"connection_ack"}"#);
    assert_eq!(
        ServerFrame::Complete { id: "a\"b".to_string() }.encode(),
        r#"{"type":"complete","id":"a\"b"}"#
    );
    assert_eq!(
        ServerFrame::Next { id: "7".to_string(), payload: RiverEvent::from(mode("x")) }.encode(),
        r#"{"type":"next","id":"7","payload":{"__typename":"SeatMode","name":"x"}}"#
    );
}

#[test]
fn client_frames_as_text() {
    assert_eq!(init_frame(), r#"{"type":"connection_init","payload":{}}"#);
    assert_eq!(
        subscribe_frame("1", "subscription { events { __typename } }"),
        r#"{"type":"subscribe","id":"1","payload":{"query":"subscription { events { __typename } }"}}"#
    );
    assert_eq!(
        subscribe_frame("1", "a \"quoted\"\nline"),
        r#"{"type":"subscribe","id":"1","payload":{"query":"a \"quoted\"\nline"}}"#
    );
    assert_eq!(complete_frame("1"), r#"{"type":"complete","id":"1"}"#);
    let parsed = client_msg(&subscribe_frame("1", "a \"quoted\"\nline")).unwrap();
    assert_eq!(parsed.query.as_deref(), Some("a \"quoted\"\nline"));
}

#[test]
fn frames_are_told_apart_by_their_fields() {
    let msg = |typ: &str, id: Option<&str>, query: Option<&str>| ClientMsg {
        typ: typ.to_string(),
        id: id.map(String::from),
        query: query.map(String::from),
    };
    assert!(matches!(msg("connection_init", None, None).into_frame(), ClientFrame::ConnectionInit));
    assert!(matches!(
        msg("subscribe", Some("1"), Some("q")).into_frame(),
        ClientFrame::Subscribe { id, query } if id == "1" && query == "q"
    ));
    assert!(matches!(msg("subscribe", None, Some("q")).into_frame(), ClientFrame::Unrecognized));
    assert!(matches!(msg("subscribe", Some("1"), None).into_frame(), ClientFrame::Unrecognized));
    assert!(matches!(
        msg("complete", Some("1"), None).into_frame(),
        ClientFrame::Complete { id } if id == "1"
    ));
    assert!(matches!(msg("complete", None, None).into_frame(), ClientFrame::Unrecognized));
    assert!(matches!(msg("pong", Some("1"), None).into_frame(), ClientFrame::Unrecognized));
    assert!(matches!(msg("next", Some("1"), None).into_frame(), ClientFrame::Misdirected));
    assert!(matches!(msg("error", Some("1"), None).into_frame(), ClientFrame::Misdirected));
    assert!(matches!(msg("connection_ack", None, None).into_frame(), ClientFrame::Misdirected));
    let kind = |typ: &str| ServerMsg { typ: typ.to_string(), payload: None }.kind();
    assert_eq!(kind("connection_ack"), ServerMsgKind::ConnectionAck);
    assert_eq!(kind("next"), ServerMsgKind::Next);
    assert_eq!(kind("error"), ServerMsgKind::Error);
    assert_eq!(kind("complete"), ServerMsgKind::Complete);
    assert_eq!(kind("ka"), ServerMsgKind::Unknown);
}

fn send_text(action: ClientAction) -> String {
    match action {
        ClientAction::Send(text) => text,
        other => panic!("unexpected {:?}", other),
    }
}

#[test]
fn client_runs_through_a_subscription() {
    let mut client = Client::new("subscription { events { __typename } }".to_string());
    assert_eq!(client.state(), ClientState::Connecting);
    let init = send_text(client.step(ClientInput::Connected));
    assert_eq!(init, r#"{"type":"connection_init","payload":{}}"#);
    assert_eq!(client.state(), ClientState::SentInit);
    assert!(matches!(client.step(ClientInput::Sent), ClientAction::Wait));
    assert_eq!(client.state(), ClientState::WaitAck);

    assert!(matches!(client.step(ClientInput::Unparsed), ClientAction::Wait));
    let ka = server_msg(r#"{"type":"ka"}"#).unwrap();
    assert!(matches!(client.step(ClientInput::Message(ka)), ClientAction::Wait));
    assert_eq!(client.state(), ClientState::WaitAck);

    let ack = server_msg(r#"{"type":"connection_ack"}"#).unwrap();
    let subscribe = send_text(client.step(ClientInput::Message(ack)));
    assert_eq!(
        subscribe,
        r#"{"type":"subscribe","id":"1","payload":{"query":"subscription { events { __typename } }"}}"#
    );
    assert_eq!(SUBSCRIPTION_ID, "1");
    assert_eq!(client.state(), ClientState::Subscribed);
    assert!(matches!(client.step(ClientInput::Sent), ClientAction::Wait));

    let next = server_msg(
        r#"{"type":"next","id":"1","payload":{"__typename":"OutputFocusedTags","tags":5}}"#,
    )
    .unwrap();
    match client.step(ClientInput::Message(next)) {
        ClientAction::Deliver(payload) => {
            assert_eq!(payload, r#"{"__typename":"OutputFocusedTags","tags":5}"#)
        }
        other => panic!("unexpected {:?}", other),
    }
    let bare = server_msg(r#"{"type":"next","id":"1"}"#).unwrap();
    assert!(matches!(client.step(ClientInput::Message(bare)), ClientAction::Wait));

    let error = server_msg(r#"{"type":"error","id":"1","payload":[{"message":"m"}]}"#).unwrap();
    match client.step(ClientInput::Message(error)) {
        ClientAction::Report(payload) => assert_eq!(payload, r#"[{"message":"m"}]"#),
        other => panic!("unexpected {:?}", other),
    }
    assert_eq!(client.state(), ClientState::Subscribed);
    let error = server_msg(r#"{"type":"error","id":"1"}"#).unwrap();
    match client.step(ClientInput::Message(error)) {
        ClientAction::Report(payload) => assert_eq!(payload, "null"),
        other => panic!("unexpected {:?}", other),
    }
    assert_eq!(client.state(), ClientState::Subscribed);

    let pong = server_msg(r#"{"type":"pong"}"#).unwrap();
    assert!(matches!(client.step(ClientInput::Message(pong)), ClientAction::Warn));
    assert!(matches!(client.step(ClientInput::Other), ClientAction::Warn));
    assert!(matches!(client.step(ClientInput::Unparsed), ClientAction::Wait));
    assert!(!client.is_finished());

    let complete = server_msg(r#"{"type":"complete","id":"1"}"#).unwrap();
    assert!(matches!(client.step(ClientInput::Message(complete)), ClientAction::Finish));
    assert_eq!(client.state(), ClientState::Done);
    assert!(client.is_finished());
    assert!(matches!(client.step(ClientInput::Ended), ClientAction::Wait));
    assert_eq!(client.state(), ClientState::Done);
}

#[test]
fn client_fails_when_the_connection_closes_before_ack() {
    for last in [ClientInput::Ended, ClientInput::CloseFrame] {
        let mut client = Client::new("q".to_string());
        client.step(ClientInput::Connected);
        client.step(ClientInput::Sent);
        match client.step(last) {
            ClientAction::Fail(e) => {
                assert_eq!(e, ClientError::ClosedBeforeAck);
                assert_eq!(e.message(), "connection closed before ack");
            }
            other => panic!("unexpected {:?}", other),
        }
        assert_eq!(client.state(), ClientState::Failed);
        assert!(matches!(client.step(ClientInput::Connected), ClientAction::Wait));
        assert_eq!(client.state(), ClientState::Failed);
    }
}

#[test]
fn client_stops_on_close_and_fails_on_transport_errors() {
    for (last, state) in [
        (ClientInput::CloseFrame, ClientState::Done),
        (ClientInput::Ended, ClientState::Done),
        (ClientInput::TransportError, ClientState::Failed),
    ] {
        let mut client = Client::new("q".to_string());
        client.step(ClientInput::Connected);
        client.step(ClientInput::Sent);
        client.step(ClientInput::Message(server_msg(r#"{"type":"connection_ack"}"#).unwrap()));
        client.step(last);
        assert_eq!(client.state(), state);
    }
    let mut client = Client::new("q".to_string());
    assert!(matches!(
        client.step(ClientInput::TransportError),
        ClientAction::Fail(ClientError::Transport)
    ));
    let mut client = Client::new("q".to_string());
    client.step(ClientInput::Connected);
    assert!(matches!(
        client.step(ClientInput::TransportError),
        ClientAction::Fail(ClientError::Transport)
    ));
    assert_eq!(ClientError::Transport.message(), "transport failed");
}

#[test]
fn query_comes_from_argument_file_or_stdin() {
    assert!(matches!(
        query_source(Some("@query.graphql".to_string())),
        QuerySource::File(name) if name == "query.graphql"
    ));
    assert!(matches!(query_source(Some("@".to_string())), QuerySource::File(name) if name.is_empty()));
    assert!(matches!(
        query_source(Some("subscription { events }".to_string())),
        QuerySource::Inline(q) if q == "subscription { events }"
    ));
    assert!(matches!(query_source(Some(String::new())), QuerySource::Inline(q) if q.is_empty()));
    assert!(matches!(query_source(None), QuerySource::Stdin));
    assert_eq!(check_stdin(false), Ok(()));
    assert_eq!(check_stdin(true), Err(ClientError::NoQuery));
    assert_eq!(
        ClientError::NoQuery.message(),
        "supply a GraphQL subscription or pipe one into stdin"
    );
}

#[test]
fn client_and_server_talk_to_each_other() {
    let mut client = Client::new("subscription { events { __typename } }".to_string());
    let mut conn = Connection::new();
    let mut delivered = Vec::new();

    let init = send_text(client.step(ClientInput::Connected));
    client.step(ClientInput::Sent);
    let mut to_client = feed(&mut conn, &init);
    assert_eq!(to_client.len(), 1);
    let ack = server_msg(&to_client.remove(0)).unwrap();
    let subscribe = send_text(client.step(ClientInput::Message(ack)));
    client.step(ClientInput::Sent);
    assert!(feed(&mut conn, &subscribe).is_empty());
    assert!(conn.is_subscribed(SUBSCRIPTION_ID));

    let mut frames = Vec::new();
    frames.extend(item(&mut conn, "1", BusItem::Event(mode("normal"))));
    frames.extend(item(&mut conn, "1", BusItem::Lagged(2)));
    frames.extend(item(&mut conn, "1", BusItem::Event(mode("locked"))));
    frames.extend(item(&mut conn, "1", BusItem::Closed));
    assert_eq!(frames.len(), 3);
    let mut finished = false;
    for text in frames {
        assert!(!finished);
        match client.step(ClientInput::Message(server_msg(&text).unwrap())) {
            ClientAction::Deliver(payload) => delivered.push(payload),
            ClientAction::Finish => finished = true,
            other => panic!("unexpected {:?}", other),
        }
    }
    assert!(finished);
    assert_eq!(client.state(), ClientState::Done);
    assert_eq!(
        delivered,
        vec![
            r#"{"__typename":"SeatMode","name":"normal"}"#,
            r#"{"__typename":"SeatMode","name":"locked"}"#,
        ]
    );
    assert!(!conn.is_subscribed("1"));
}

#[test]
fn kinds_are_asked_for_by_name() {
    let kinds = [
        (RiverEventType::OutputFocusedTags, "OUTPUT_FOCUSED_TAGS"),
        (RiverEventType::OutputViewTags, "OUTPUT_VIEW_TAGS"),
        (RiverEventType::OutputUrgentTags, "OUTPUT_URGENT_TAGS"),
        (RiverEventType::OutputLayoutName, "OUTPUT_LAYOUT_NAME"),
        (RiverEventType::OutputLayoutNameClear, "OUTPUT_LAYOUT_NAME_CLEAR"),
        (RiverEventType::SeatFocusedOutput, "SEAT_FOCUSED_OUTPUT"),
        (RiverEventType::SeatUnfocusedOutput, "SEAT_UNFOCUSED_OUTPUT"),
        (RiverEventType::SeatFocusedView, "SEAT_FOCUSED_VIEW"),
        (RiverEventType::SeatMode, "SEAT_MODE"),
    ];
    for (kind, name) in kinds {
        assert_eq!(kind.name(), name);
        assert_eq!(RiverEventType::from_name(name), Some(kind));
    }
    assert_eq!(RiverEventType::from_name("SeatMode"), None);
    assert_eq!(RiverEventType::from_name(""), None);
}
