//! The subscribing side of the protocol: a client that opens one
//! subscription and hands on what it receives.

use vstd::prelude::*;
use crate::frame::{init_frame, init_json, server_msg_kind, subscribe_frame, subscribe_json,
    ServerMsg, ServerMsgKind, ServerMsgView};
use crate::text::{opt_clone, opt_view};

verus! {

/// The id of the one subscription that a client opens.
pub const SUBSCRIPTION_ID: &'static str = "1";

/// Where a client stands.
#[derive(Clone, Copy, Debug, PartialEq, Eq, Structural)]
pub enum ClientState {
    /// No transport yet.
    Connecting,
    /// `connection_init` is on its way out.
    SentInit,
    /// `connection_init` is out and the acknowledgement is awaited.
    WaitAck,
    /// The subscription is open.
    Subscribed,
    /// The subscription ended as it should.
    Done,
    /// The client gave up.
    Failed,
}

/// Why a client gave up.
#[derive(Clone, Copy, Debug, PartialEq, Eq, Structural)]
pub enum ClientError {
    /// The connection closed before the server acknowledged it.
    ClosedBeforeAck,
    /// Reading from the transport or writing to it failed.
    Transport,
    /// No query was given and none can be read.
    NoQuery,
}

impl ClientError {
    /// The error in words.
    pub fn message(&self) -> (text: String)
        ensures
            text@ == match *self {
                ClientError::ClosedBeforeAck => "connection closed before ack"@,
                ClientError::Transport => "transport failed"@,
                ClientError::NoQuery => "supply a GraphQL subscription or pipe one into stdin"@,
            },
    {
        match self {
            ClientError::ClosedBeforeAck => String::from_str("connection closed before ack"),
            ClientError::Transport => String::from_str("transport failed"),
            ClientError::NoQuery => String::from_str(
                "supply a GraphQL subscription or pipe one into stdin",
            ),
        }
    }
}

/// One thing that happens to a client.
#[derive(Clone, Debug)]
pub enum ClientInput {
    /// The dialer has handed over a transport.
    Connected,
    /// The frame that the client was told to send is out.
    Sent,
    /// A text message came in that has the shape of a frame.
    Message(ServerMsg),
    /// A text message came in that has not the shape of a frame.
    Unparsed,
    /// The transport's message that it is closing came in.
    CloseFrame,
    /// A message came in that is no text.
    Other,
    /// The transport has no more messages.
    Ended,
    /// Reading from the transport or writing to it failed.
    TransportError,
}

pub enum ClientInputView {
    Connected,
    Sent,
    Message(ServerMsgView),
    Unparsed,
    CloseFrame,
    Other,
    Ended,
    TransportError,
}

impl View for ClientInput {
    type V = ClientInputView;

    open spec fn view(&self) -> ClientInputView {
        match *self {
            ClientInput::Connected => ClientInputView::Connected,
            ClientInput::Sent => ClientInputView::Sent,
            ClientInput::Message(m) => ClientInputView::Message(m@),
            ClientInput::Unparsed => ClientInputView::Unparsed,
            ClientInput::CloseFrame => ClientInputView::CloseFrame,
            ClientInput::Other => ClientInputView::Other,
            ClientInput::Ended => ClientInputView::Ended,
            ClientInput::TransportError => ClientInputView::TransportError,
        }
    }
}

/// What a client is to do next.
#[derive(Clone, Debug)]
pub enum ClientAction {
    /// Send this frame.
    Send(String),
    /// Hand this payload to the consumer.
    Deliver(String),
    /// Tell the consumer of this error; the subscription goes on.
    Report(String),
    /// Note that something unexpected was passed over.
    Warn,
    /// Nothing; wait for what happens next.
    Wait,
    /// Stop: the subscription ended as it should.
    Finish,
    /// Stop with this error.
    Fail(ClientError),
}

pub enum ClientActionView {
    Send(Seq<char>),
    Deliver(Seq<char>),
    Report(Seq<char>),
    Warn,
    Wait,
    Finish,
    Fail(ClientError),
}

impl View for ClientAction {
    type V = ClientActionView;

    open spec fn view(&self) -> ClientActionView {
        match *self {
            ClientAction::Send(frame) => ClientActionView::Send(frame@),
            ClientAction::Deliver(payload) => ClientActionView::Deliver(payload@),
            ClientAction::Report(payload) => ClientActionView::Report(payload@),
            ClientAction::Warn => ClientActionView::Warn,
            ClientAction::Wait => ClientActionView::Wait,
            ClientAction::Finish => ClientActionView::Finish,
            ClientAction::Fail(e) => ClientActionView::Fail(e),
        }
    }
}

/// What a frame of the server means to a client whose subscription is open:
/// the payload of `next` is delivered, if the frame has one; the payload of
/// `error` is reported, as `null` where the frame has none, and the
/// subscription goes on; `complete` ends the subscription; a frame of any
/// other type is passed over with a warning.
pub open spec fn on_frame(m: ServerMsgView) -> (ClientState, ClientActionView) {
    match server_msg_kind(m.typ) {
        ServerMsgKind::Next => match m.payload {
            Some(p) => (ClientState::Subscribed, ClientActionView::Deliver(p)),
            None => (ClientState::Subscribed, ClientActionView::Wait),
        },
        ServerMsgKind::Error => match m.payload {
            Some(p) => (ClientState::Subscribed, ClientActionView::Report(p)),
            None => (ClientState::Subscribed, ClientActionView::Report("null"@)),
        },
        ServerMsgKind::Complete => (ClientState::Done, ClientActionView::Finish),
        _ => (ClientState::Subscribed, ClientActionView::Warn),
    }
}

/// What a client waiting for the acknowledgement does: it subscribes once
/// `connection_ack` has come, gives up when the connection closes or fails,
/// and passes over everything else.
pub open spec fn on_wait_ack(query: Seq<char>, input: ClientInputView) -> (
    ClientState,
    ClientActionView,
) {
    match input {
        ClientInputView::Message(m) => {
            if server_msg_kind(m.typ) == ServerMsgKind::ConnectionAck {
                (
                    ClientState::Subscribed,
                    ClientActionView::Send(subscribe_json(SUBSCRIPTION_ID@, query)),
                )
            } else {
                (ClientState::WaitAck, ClientActionView::Wait)
            }
        },
        ClientInputView::CloseFrame => (
            ClientState::Failed,
            ClientActionView::Fail(ClientError::ClosedBeforeAck),
        ),
        ClientInputView::Ended => (
            ClientState::Failed,
            ClientActionView::Fail(ClientError::ClosedBeforeAck),
        ),
        ClientInputView::TransportError => (
            ClientState::Failed,
            ClientActionView::Fail(ClientError::Transport),
        ),
        _ => (ClientState::WaitAck, ClientActionView::Wait),
    }
}

/// What one input does to a client with the given query: the state that it
/// goes to, and what it is to do.
pub open spec fn client_step(state: ClientState, query: Seq<char>, input: ClientInputView) -> (
    ClientState,
    ClientActionView,
) {
    match state {
        ClientState::Connecting => match input {
            ClientInputView::Connected => (
                ClientState::SentInit,
                ClientActionView::Send(init_json()),
            ),
            ClientInputView::TransportError => (
                ClientState::Failed,
                ClientActionView::Fail(ClientError::Transport),
            ),
            _ => (ClientState::Connecting, ClientActionView::Wait),
        },
        ClientState::SentInit => match input {
            ClientInputView::Sent => (ClientState::WaitAck, ClientActionView::Wait),
            ClientInputView::Connected => (ClientState::SentInit, ClientActionView::Wait),
            _ => on_wait_ack(query, input),
        },
        ClientState::WaitAck => on_wait_ack(query, input),
        ClientState::Subscribed => match input {
            ClientInputView::Message(m) => on_frame(m),
            ClientInputView::CloseFrame => (ClientState::Done, ClientActionView::Finish),
            ClientInputView::Ended => (ClientState::Done, ClientActionView::Finish),
            ClientInputView::TransportError => (
                ClientState::Failed,
                ClientActionView::Fail(ClientError::Transport),
            ),
            ClientInputView::Other => (ClientState::Subscribed, ClientActionView::Warn),
            _ => (ClientState::Subscribed, ClientActionView::Wait),
        },
        ClientState::Done => (ClientState::Done, ClientActionView::Wait),
        ClientState::Failed => (ClientState::Failed, ClientActionView::Wait),
    }
}

/// A client with its query.
pub struct Client {
    state: ClientState,
    query: String,
}

impl Client {
    /// Where the client stands.
    pub closed spec fn spec_state(&self) -> ClientState {
        self.state
    }

    /// The query that the client subscribes with.
    pub closed spec fn spec_query(&self) -> Seq<char> {
        self.query@
    }

    /// A client that has no transport yet.
    pub fn new(query: String) -> (c: Client)
        ensures
            c.spec_state() == ClientState::Connecting,
            c.spec_query() == query@,
    {
        Client { state: ClientState::Connecting, query }
    }

    /// Where the client stands.
    #[verifier::when_used_as_spec(spec_state)]
    pub fn state(&self) -> (s: ClientState)
        ensures
            s == self.spec_state(),
    {
        self.state
    }

    /// Whether the client has stopped, as it should or with an error.
    pub fn is_finished(&self) -> (b: bool)
        ensures
            b == (self.spec_state() == ClientState::Done || self.spec_state()
                == ClientState::Failed),
    {
        self.state == ClientState::Done || self.state == ClientState::Failed
    }

    fn wait_ack(&mut self, input: ClientInput) -> (action: ClientAction)
        ensures
            (final(self).spec_state(), action@) == on_wait_ack(old(self).spec_query(), input@),
            final(self).spec_query() == old(self).spec_query(),
    {
        match input {
            ClientInput::Message(m) => {
                if m.kind() == ServerMsgKind::ConnectionAck {
                    self.state = ClientState::Subscribed;
                    ClientAction::Send(subscribe_frame(SUBSCRIPTION_ID, self.query.as_str()))
                } else {
                    self.state = ClientState::WaitAck;
                    ClientAction::Wait
                }
            },
            ClientInput::CloseFrame => {
                self.state = ClientState::Failed;
                ClientAction::Fail(ClientError::ClosedBeforeAck)
            },
            ClientInput::Ended => {
                self.state = ClientState::Failed;
                ClientAction::Fail(ClientError::ClosedBeforeAck)
            },
            ClientInput::TransportError => {
                self.state = ClientState::Failed;
                ClientAction::Fail(ClientError::Transport)
            },
            _ => {
                self.state = ClientState::WaitAck;
                ClientAction::Wait
            },
        }
    }

    fn frame(&mut self, m: ServerMsg) -> (action: ClientAction)
        requires
            old(self).spec_state() == ClientState::Subscribed,
        ensures
            (final(self).spec_state(), action@) == on_frame(m@),
            final(self).spec_query() == old(self).spec_query(),
    {
        match m.kind() {
            ServerMsgKind::Next => match m.payload {
                Some(p) => ClientAction::Deliver(p),
                None => ClientAction::Wait,
            },
            ServerMsgKind::Error => match m.payload {
                Some(p) => ClientAction::Report(p),
                None => ClientAction::Report(String::from_str("null")),
            },
            ServerMsgKind::Complete => {
                self.state = ClientState::Done;
                ClientAction::Finish
            },
            _ => ClientAction::Warn,
        }
    }

    /// Takes one input and says what to do. What happens is what
    /// `client_step` states.
    pub fn step(&mut self, input: ClientInput) -> (action: ClientAction)
        ensures
            (final(self).spec_state(), action@) == client_step(
                old(self).spec_state(),
                old(self).spec_query(),
                input@,
            ),
            final(self).spec_query() == old(self).spec_query(),
    {
        match self.state {
            ClientState::Connecting => match input {
                ClientInput::Connected => {
                    self.state = ClientState::SentInit;
                    ClientAction::Send(init_frame())
                },
                ClientInput::TransportError => {
                    self.state = ClientState::Failed;
                    ClientAction::Fail(ClientError::Transport)
                },
                _ => ClientAction::Wait,
            },
            ClientState::SentInit => match input {
                ClientInput::Sent => {
                    self.state = ClientState::WaitAck;
                    ClientAction::Wait
                },
                ClientInput::Connected => ClientAction::Wait,
                _ => self.wait_ack(input),
            },
            ClientState::WaitAck => self.wait_ack(input),
            ClientState::Subscribed => match input {
                ClientInput::Message(m) => self.frame(m),
                ClientInput::CloseFrame => {
                    self.state = ClientState::Done;
                    ClientAction::Finish
                },
                ClientInput::Ended => {
                    self.state = ClientState::Done;
                    ClientAction::Finish
                },
                ClientInput::TransportError => {
                    self.state = ClientState::Failed;
                    ClientAction::Fail(ClientError::Transport)
                },
                ClientInput::Other => ClientAction::Warn,
                _ => ClientAction::Wait,
            },
            ClientState::Done => ClientAction::Wait,
            ClientState::Failed => ClientAction::Wait,
        }
    }
}

/// A client that has stopped stays as it is and does nothing more.
pub proof fn lemma_finished_is_final(state: ClientState, query: Seq<char>, input: ClientInputView)
    requires
        state == ClientState::Done || state == ClientState::Failed,
    ensures
        client_step(state, query, input) == (state, ClientActionView::Wait),
{
}

/// An `error` frame does not end the subscription.
pub proof fn lemma_error_frame_goes_on(query: Seq<char>, payload: Option<Seq<char>>)
    ensures
        client_step(
            ClientState::Subscribed,
            query,
            ClientInputView::Message(ServerMsgView { typ: "error"@, payload }),
        ).0 == ClientState::Subscribed,
{
    reveal_strlit("error");
    reveal_strlit("connection_ack");
    reveal_strlit("next");
    assert("error"@.len() != "connection_ack"@.len());
    assert("error"@.len() != "next"@.len());
}

/// Where the query of a client comes from.
#[derive(Clone, Debug)]
pub enum QuerySource {
    /// The file of this name holds it.
    File(String),
    /// This is it.
    Inline(String),
    /// It is to be read from standard input.
    Stdin,
}

pub enum QuerySourceView {
    File(Seq<char>),
    Inline(Seq<char>),
    Stdin,
}

impl View for QuerySource {
    type V = QuerySourceView;

    open spec fn view(&self) -> QuerySourceView {
        match *self {
            QuerySource::File(name) => QuerySourceView::File(name@),
            QuerySource::Inline(query) => QuerySourceView::Inline(query@),
            QuerySource::Stdin => QuerySourceView::Stdin,
        }
    }
}

/// Where the query comes from, given the argument of the command line: an
/// argument that begins with `@` names a file; any other argument is the
/// query; without an argument the query is read from standard input.
pub open spec fn query_source_of(arg: Option<Seq<char>>) -> QuerySourceView {
    match arg {
        Some(q) => if q.len() > 0 && q[0] == '@' {
            QuerySourceView::File(q.subrange(1, q.len() as int))
        } else {
            QuerySourceView::Inline(q)
        },
        None => QuerySourceView::Stdin,
    }
}

/// Where the query comes from, given the argument of the command line.
pub fn query_source(arg: Option<String>) -> (r: QuerySource)
    ensures
        r@ == query_source_of(opt_view(arg)),
{
    match arg {
        Some(q) => {
            let n = q.as_str().unicode_len();
            if n > 0 && q.as_str().get_char(0) == '@' {
                QuerySource::File(String::from_str(q.as_str().substring_char(1, n)))
            } else {
                QuerySource::Inline(q)
            }
        },
        None => QuerySource::Stdin,
    }
}

/// Whether standard input can hold the query: a terminal cannot.
pub fn check_stdin(is_terminal: bool) -> (r: Result<(), ClientError>)
    ensures
        r == if is_terminal {
            Err::<(), ClientError>(ClientError::NoQuery)
        } else {
            Ok::<(), ClientError>(())
        },
{
    if is_terminal {
        Err(ClientError::NoQuery)
    } else {
        Ok(())
    }
}

} // verus!
