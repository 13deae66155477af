//! The frames of the subscription protocol: what each side sends, as JSON
//! text, and what it makes of the fields of a frame that came in.

use vstd::prelude::*;
use crate::json::{json_quote, json_string};
use crate::payload::{RiverEvent, RiverEventView};
use crate::text::{opt_view, str_eq};

verus! {

/// A frame that the server sends.
#[derive(Clone, Debug)]
pub enum ServerFrame {
    ConnectionAck,
    Next { id: String, payload: RiverEvent },
    Error { id: String, message: String },
    Complete { id: String },
}

pub enum ServerFrameView {
    ConnectionAck,
    Next { id: Seq<char>, payload: RiverEventView },
    Error { id: Seq<char>, message: Seq<char> },
    Complete { id: Seq<char> },
}

impl View for ServerFrame {
    type V = ServerFrameView;

    open spec fn view(&self) -> ServerFrameView {
        match *self {
            ServerFrame::ConnectionAck => ServerFrameView::ConnectionAck,
            ServerFrame::Next { id, payload } => ServerFrameView::Next { id: id@, payload: payload@ },
            ServerFrame::Error { id, message } => ServerFrameView::Error {
                id: id@,
                message: message@,
            },
            ServerFrame::Complete { id } => ServerFrameView::Complete { id: id@ },
        }
    }
}

impl ServerFrameView {
    /// The frame as JSON text.
    pub open spec fn json(self) -> Seq<char> {
        match self {
            ServerFrameView::ConnectionAck => "{\"type\":\"connection_ack\"}"@,
            ServerFrameView::Next { id, payload } => {
                "{\"type\":\"next\",\"id\":"@ + json_string(id) + ",\"payload\":"@ + payload.json()
                    + "}"@
            },
            ServerFrameView::Error { id, message } => {
                "{\"type\":\"error\",\"id\":"@ + json_string(id) + ",\"payload\":[{\"message\":"@
                    + json_string(message) + "}]}"@
            },
            ServerFrameView::Complete { id } => {
                "{\"type\":\"complete\",\"id\":"@ + json_string(id) + "}"@
            },
        }
    }

    /// The subscription that the frame belongs to, if it belongs to one.
    pub open spec fn subscription(self) -> Option<Seq<char>> {
        match self {
            ServerFrameView::ConnectionAck => None,
            ServerFrameView::Next { id, .. } => Some(id),
            ServerFrameView::Error { id, .. } => Some(id),
            ServerFrameView::Complete { id } => Some(id),
        }
    }
}

impl ServerFrame {
    /// The frame as JSON text, ready to be sent.
    pub fn encode(&self) -> (r: String)
        ensures
            r@ == self@.json(),
    {
        match self {
            ServerFrame::ConnectionAck => String::from_str("{\"type\":\"connection_ack\"}"),
            ServerFrame::Next { id, payload } => {
                let mut out = String::from_str("{\"type\":\"next\",\"id\":");
                out.append(json_quote(id.as_str()).as_str());
                out.append(",\"payload\":");
                out.append(payload.to_json().as_str());
                out.append("}");
                out
            },
            ServerFrame::Error { id, message } => {
                let mut out = String::from_str("{\"type\":\"error\",\"id\":");
                out.append(json_quote(id.as_str()).as_str());
                out.append(",\"payload\":[{\"message\":");
                out.append(json_quote(message.as_str()).as_str());
                out.append("}]}");
                out
            },
            ServerFrame::Complete { id } => {
                let mut out = String::from_str("{\"type\":\"complete\",\"id\":");
                out.append(json_quote(id.as_str()).as_str());
                out.append("}");
                out
            },
        }
    }
}

/// The fields of a frame that a client sent, as far as the server reads them:
/// `type`, `id` and the `query` of the payload.
#[derive(Clone, Debug)]
pub struct ClientMsg {
    pub typ: String,
    pub id: Option<String>,
    pub query: Option<String>,
}

pub struct ClientMsgView {
    pub typ: Seq<char>,
    pub id: Option<Seq<char>>,
    pub query: Option<Seq<char>>,
}

impl View for ClientMsg {
    type V = ClientMsgView;

    open spec fn view(&self) -> ClientMsgView {
        ClientMsgView { typ: self.typ@, id: opt_view(self.id), query: opt_view(self.query) }
    }
}

/// What the server takes a client's frame for.
#[derive(Clone, Debug)]
pub enum ClientFrame {
    ConnectionInit,
    Subscribe { id: String, query: String },
    Complete { id: String },
    /// A frame of a type that only the server sends.
    Misdirected,
    /// A frame of no known type, or of a known type without its fields.
    Unrecognized,
}

pub enum ClientFrameView {
    ConnectionInit,
    Subscribe { id: Seq<char>, query: Seq<char> },
    Complete { id: Seq<char> },
    Misdirected,
    Unrecognized,
}

impl View for ClientFrame {
    type V = ClientFrameView;

    open spec fn view(&self) -> ClientFrameView {
        match *self {
            ClientFrame::ConnectionInit => ClientFrameView::ConnectionInit,
            ClientFrame::Subscribe { id, query } => ClientFrameView::Subscribe {
                id: id@,
                query: query@,
            },
            ClientFrame::Complete { id } => ClientFrameView::Complete { id: id@ },
            ClientFrame::Misdirected => ClientFrameView::Misdirected,
            ClientFrame::Unrecognized => ClientFrameView::Unrecognized,
        }
    }
}

impl ClientMsgView {
    /// The frame that the fields make: `connection_init`; `subscribe` with an
    /// id and a query; `complete` with an id. The types that only the server
    /// sends, `connection_ack`, `next` and `error`, are misdirected.
    /// Everything else, `subscribe` and `complete` without their fields too,
    /// is unrecognized.
    pub open spec fn frame(self) -> ClientFrameView {
        if self.typ == "connection_init"@ {
            ClientFrameView::ConnectionInit
        } else if self.typ == "subscribe"@ {
            if self.id is Some && self.query is Some {
                ClientFrameView::Subscribe { id: self.id->0, query: self.query->0 }
            } else {
                ClientFrameView::Unrecognized
            }
        } else if self.typ == "complete"@ {
            if self.id is Some {
                ClientFrameView::Complete { id: self.id->0 }
            } else {
                ClientFrameView::Unrecognized
            }
        } else if server_msg_kind(self.typ) != ServerMsgKind::Unknown {
            ClientFrameView::Misdirected
        } else {
            ClientFrameView::Unrecognized
        }
    }
}

impl ClientMsg {
    /// The frame that the fields make.
    pub fn into_frame(self) -> (r: ClientFrame)
        ensures
            r@ == self@.frame(),
    {
        if str_eq(self.typ.as_str(), "connection_init") {
            return ClientFrame::ConnectionInit;
        }
        if str_eq(self.typ.as_str(), "subscribe") {
            return match (self.id, self.query) {
                (Some(id), Some(query)) => ClientFrame::Subscribe { id, query },
                _ => ClientFrame::Unrecognized,
            };
        }
        if str_eq(self.typ.as_str(), "complete") {
            return match self.id {
                Some(id) => ClientFrame::Complete { id },
                None => ClientFrame::Unrecognized,
            };
        }
        let misdirected = ServerMsg { typ: self.typ, payload: None }.kind();
        if misdirected != ServerMsgKind::Unknown {
            return ClientFrame::Misdirected;
        }
        ClientFrame::Unrecognized
    }
}

/// The fields of a frame that the server sent, as far as a client reads them:
/// `type` and the payload, as JSON text, where there is one.
#[derive(Clone, Debug)]
pub struct ServerMsg {
    pub typ: String,
    pub payload: Option<String>,
}

pub struct ServerMsgView {
    pub typ: Seq<char>,
    pub payload: Option<Seq<char>>,
}

impl View for ServerMsg {
    type V = ServerMsgView;

    open spec fn view(&self) -> ServerMsgView {
        ServerMsgView { typ: self.typ@, payload: opt_view(self.payload) }
    }
}

/// The types of frame that a client knows from the server.
#[derive(Clone, Copy, Debug, PartialEq, Eq, Structural)]
pub enum ServerMsgKind {
    ConnectionAck,
    Next,
    Error,
    Complete,
    Unknown,
}

/// The kind that a `type` field names.
pub open spec fn server_msg_kind(typ: Seq<char>) -> ServerMsgKind {
    if typ == "connection_ack"@ {
        ServerMsgKind::ConnectionAck
    } else if typ == "next"@ {
        ServerMsgKind::Next
    } else if typ == "error"@ {
        ServerMsgKind::Error
    } else if typ == "complete"@ {
        ServerMsgKind::Complete
    } else {
        ServerMsgKind::Unknown
    }
}

impl ServerMsg {
    /// The kind of the frame, by its `type` field.
    pub fn kind(&self) -> (k: ServerMsgKind)
        ensures
            k == server_msg_kind(self.typ@),
    {
        if str_eq(self.typ.as_str(), "connection_ack") {
            ServerMsgKind::ConnectionAck
        } else if str_eq(self.typ.as_str(), "next") {
            ServerMsgKind::Next
        } else if str_eq(self.typ.as_str(), "error") {
            ServerMsgKind::Error
        } else if str_eq(self.typ.as_str(), "complete") {
            ServerMsgKind::Complete
        } else {
            ServerMsgKind::Unknown
        }
    }
}

/// The frame with which a client opens the protocol.
pub open spec fn init_json() -> Seq<char> {
    "{\"type\":\"connection_init\",\"payload\":{}}"@
}

/// The frame with which a client subscribes.
pub open spec fn subscribe_json(id: Seq<char>, query: Seq<char>) -> Seq<char> {
    "{\"type\":\"subscribe\",\"id\":"@ + json_string(id) + ",\"payload\":{\"query\":"@
        + json_string(query) + "}}"@
}

/// The frame with which a client ends a subscription.
pub open spec fn complete_json(id: Seq<char>) -> Seq<char> {
    "{\"type\":\"complete\",\"id\":"@ + json_string(id) + "}"@
}

/// The frame with which a client opens the protocol, as text.
pub fn init_frame() -> (r: String)
    ensures
        r@ == init_json(),
{
    String::from_str("{\"type\":\"connection_init\",\"payload\":{}}")
}

/// The frame with which a client subscribes, as text.
pub fn subscribe_frame(id: &str, query: &str) -> (r: String)
    ensures
        r@ == subscribe_json(id@, query@),
{
    let mut out = String::from_str("{\"type\":\"subscribe\",\"id\":");
    out.append(json_quote(id).as_str());
    out.append(",\"payload\":{\"query\":");
    out.append(json_quote(query).as_str());
    out.append("}}");
    out
}

/// The frame with which a client ends a subscription, as text.
pub fn complete_frame(id: &str) -> (r: String)
    ensures
        r@ == complete_json(id@),
{
    let mut out = String::from_str("{\"type\":\"complete\",\"id\":");
    out.append(json_quote(id).as_str());
    out.append("}");
    out
}

} // verus!
