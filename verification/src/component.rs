//! The component connection: the handshake with the server, the stream of
//! stanzas after it, and the end of the connection.
//!
//! The connection decides; its caller reads and writes the stream. The caller
//! reports what it read as a [`StreamEvent`] and is told what to do as a
//! [`StreamAction`].

use vstd::prelude::*;
use crate::dispatch::{NotificationIntent, NotificationIntentView};
use crate::handshake::{credential_of, handshake_credential};
use crate::supervisor::SupervisorEvent;

verus! {

/// The seconds that the server may take over each step of a connection
/// attempt: to accept the transport, to send its stream header, and to
/// answer the credential. A step that takes longer has timed out.
pub const HANDSHAKE_TIMEOUT_SECS: u64 = 30;

/// Where a connection stands.
#[derive(Clone, Copy, Debug, PartialEq, Eq, Structural)]
pub enum ConnectionState {
    /// No transport is open yet.
    Disconnected,
    /// The transport is open and the handshake is under way.
    Handshaking,
    /// The handshake succeeded; stanzas are received.
    Connected,
    /// The connection failed or was lost. It is never used again.
    Failed,
}

/// Why a connection attempt was abandoned.
#[derive(Clone, Copy, Debug, PartialEq, Eq, Structural)]
pub enum ConnectError {
    /// The server refused the transport.
    TransportRefused,
    /// The server did not answer in time.
    Timeout,
    /// The server's stream header could not be read.
    MalformedHeader,
    /// The server answered the credential with a stream error.
    HandshakeRejected,
    /// The transport was lost before the handshake was over.
    TransportLost,
    /// The server sent something that has no place in the handshake.
    UnexpectedEvent,
}

/// A stanza, as far as the gateway looks at it.
#[derive(Clone, Debug, PartialEq, Eq)]
pub enum ProtocolEvent {
    /// The server asks for a notification.
    Notify(NotificationIntent),
    /// Any other stanza.
    Other,
}

/// What the caller reports to the connection.
#[derive(Clone, Debug, PartialEq, Eq)]
pub enum StreamEvent {
    /// The transport to the server is open.
    TransportOpened,
    /// The transport could not be opened.
    TransportRefused,
    /// The server did not answer in time.
    TimedOut,
    /// The server opened its stream and assigned this identifier to it.
    StreamHeader { id: String },
    /// The server opened its stream with a header that cannot be read.
    MalformedHeader,
    /// The server accepted the credential.
    HandshakeAccepted,
    /// The server sent a stream error: it rejects the component.
    HandshakeRejected,
    /// The server sent a stanza.
    Stanza(ProtocolEvent),
    /// The server sent a stanza that cannot be read.
    MalformedStanza,
    /// The transport was closed, could not be read, or the stream ended.
    TransportLost,
}

/// What the connection asks of the caller.
#[derive(Clone, Debug, PartialEq, Eq)]
pub enum StreamAction {
    /// Open the stream to the server, addressed to this component.
    SendStreamHeader { to: String },
    /// Send the handshake element with this text.
    SendHandshake { credential: String },
    /// The connection stands: go on to receive stanzas.
    Established,
    /// The attempt failed: close the transport and give up this connection.
    Abandon(ConnectError),
    /// Hand this intent to the dispatcher, then go on receiving.
    Dispatch(NotificationIntent),
    /// Nothing to do for this stanza: go on receiving.
    Skip,
    /// The connection is lost: stop receiving and give up this connection.
    ConnectionLost,
    /// The connection was given up before: there is nothing to do.
    Ignore,
}

/// Mathematical value of a [`ProtocolEvent`].
pub enum ProtocolEventView {
    Notify(NotificationIntentView),
    Other,
}

impl View for ProtocolEvent {
    type V = ProtocolEventView;

    open spec fn view(&self) -> ProtocolEventView {
        match self {
            ProtocolEvent::Notify(intent) => ProtocolEventView::Notify(intent@),
            ProtocolEvent::Other => ProtocolEventView::Other,
        }
    }
}

/// Mathematical value of a [`StreamEvent`].
pub enum StreamEventView {
    TransportOpened,
    TransportRefused,
    TimedOut,
    StreamHeader { id: Seq<char> },
    MalformedHeader,
    HandshakeAccepted,
    HandshakeRejected,
    Stanza(ProtocolEventView),
    MalformedStanza,
    TransportLost,
}

impl View for StreamEvent {
    type V = StreamEventView;

    open spec fn view(&self) -> StreamEventView {
        match self {
            StreamEvent::TransportOpened => StreamEventView::TransportOpened,
            StreamEvent::TransportRefused => StreamEventView::TransportRefused,
            StreamEvent::TimedOut => StreamEventView::TimedOut,
            StreamEvent::StreamHeader { id } => StreamEventView::StreamHeader { id: id@ },
            StreamEvent::MalformedHeader => StreamEventView::MalformedHeader,
            StreamEvent::HandshakeAccepted => StreamEventView::HandshakeAccepted,
            StreamEvent::HandshakeRejected => StreamEventView::HandshakeRejected,
            StreamEvent::Stanza(stanza) => StreamEventView::Stanza(stanza@),
            StreamEvent::MalformedStanza => StreamEventView::MalformedStanza,
            StreamEvent::TransportLost => StreamEventView::TransportLost,
        }
    }
}

/// Mathematical value of a [`StreamAction`].
pub enum StreamActionView {
    SendStreamHeader { to: Seq<char> },
    SendHandshake { credential: Seq<char> },
    Established,
    Abandon(ConnectError),
    Dispatch(NotificationIntentView),
    Skip,
    ConnectionLost,
    Ignore,
}

impl View for StreamAction {
    type V = StreamActionView;

    open spec fn view(&self) -> StreamActionView {
        match self {
            StreamAction::SendStreamHeader { to } => StreamActionView::SendStreamHeader { to: to@ },
            StreamAction::SendHandshake { credential } => StreamActionView::SendHandshake {
                credential: credential@,
            },
            StreamAction::Established => StreamActionView::Established,
            StreamAction::Abandon(error) => StreamActionView::Abandon(*error),
            StreamAction::Dispatch(intent) => StreamActionView::Dispatch(intent@),
            StreamAction::Skip => StreamActionView::Skip,
            StreamAction::ConnectionLost => StreamActionView::ConnectionLost,
            StreamAction::Ignore => StreamActionView::Ignore,
        }
    }
}

/// Mathematical value of a [`ComponentConnection`].
pub struct ComponentConnectionView {
    /// Where the connection stands.
    pub state: ConnectionState,
    /// During the handshake: whether the credential has been sent.
    pub credential_sent: bool,
    /// The address of the component.
    pub jid: Seq<char>,
    /// The secret that the component shares with the server.
    pub secret: Seq<char>,
}

impl ComponentConnectionView {
    /// Whether the server's stream header lies behind: the credential that
    /// answers it has been sent, or the connection stands.
    pub open spec fn header_seen(self) -> bool {
        self.state == ConnectionState::Connected || (self.state == ConnectionState::Handshaking
            && self.credential_sent)
    }

    /// The same connection in another state.
    pub open spec fn moved_to(self, state: ConnectionState, credential_sent: bool) -> Self {
        ComponentConnectionView { state, credential_sent, ..self }
    }
}

/// The error that abandons a connection attempt on `event`, where `event`
/// does not carry the handshake on.
pub open spec fn connect_error(event: StreamEventView) -> ConnectError {
    match event {
        StreamEventView::TransportRefused => ConnectError::TransportRefused,
        StreamEventView::TimedOut => ConnectError::Timeout,
        StreamEventView::MalformedHeader => ConnectError::MalformedHeader,
        StreamEventView::HandshakeRejected => ConnectError::HandshakeRejected,
        StreamEventView::TransportLost => ConnectError::TransportLost,
        _ => ConnectError::UnexpectedEvent,
    }
}

/// The connection after `event` and the action that it asks for.
///
/// The handshake goes on by exactly one event at each step: the open
/// transport, then the server's stream header, then the acceptance of the
/// credential. Every other event abandons the attempt. Once connected, each
/// stanza is dispatched or skipped, an unreadable one too, and every other
/// event ends the connection. A connection that failed stays so.
pub open spec fn react(connection: ComponentConnectionView, event: StreamEventView) -> (
    ComponentConnectionView,
    StreamActionView,
) {
    match connection.state {
        ConnectionState::Disconnected => match event {
            StreamEventView::TransportOpened => (
                connection.moved_to(ConnectionState::Handshaking, false),
                StreamActionView::SendStreamHeader { to: connection.jid },
            ),
            _ => (
                connection.moved_to(ConnectionState::Failed, false),
                StreamActionView::Abandon(connect_error(event)),
            ),
        },
        ConnectionState::Handshaking => match event {
            StreamEventView::StreamHeader { id } if !connection.credential_sent => (
                connection.moved_to(ConnectionState::Handshaking, true),
                StreamActionView::SendHandshake { credential: credential_of(id, connection.secret) },
            ),
            StreamEventView::HandshakeAccepted if connection.credential_sent => (
                connection.moved_to(ConnectionState::Connected, false),
                StreamActionView::Established,
            ),
            _ => (
                connection.moved_to(ConnectionState::Failed, false),
                StreamActionView::Abandon(connect_error(event)),
            ),
        },
        ConnectionState::Connected => match event {
            StreamEventView::Stanza(ProtocolEventView::Notify(intent)) => (
                connection,
                StreamActionView::Dispatch(intent),
            ),
            StreamEventView::Stanza(ProtocolEventView::Other) => (connection, StreamActionView::Skip),
            StreamEventView::MalformedStanza => (connection, StreamActionView::Skip),
            _ => (
                connection.moved_to(ConnectionState::Failed, false),
                StreamActionView::ConnectionLost,
            ),
        },
        ConnectionState::Failed => (connection, StreamActionView::Ignore),
    }
}

/// What an action of the connection means to the supervisor, if anything.
pub open spec fn supervisor_event_of(action: StreamActionView) -> Option<SupervisorEvent> {
    match action {
        StreamActionView::Established => Some(SupervisorEvent::Connected),
        StreamActionView::Abandon(_) => Some(SupervisorEvent::ConnectFailed),
        StreamActionView::ConnectionLost => Some(SupervisorEvent::ConnectionLost),
        _ => None,
    }
}

/// One connection of the component to its server, from the first attempt to
/// open it to its end.
#[derive(Debug)]
pub struct ComponentConnection {
    state: ConnectionState,
    credential_sent: bool,
    jid: String,
    secret: String,
}

impl View for ComponentConnection {
    type V = ComponentConnectionView;

    closed spec fn view(&self) -> ComponentConnectionView {
        ComponentConnectionView {
            state: self.state,
            credential_sent: self.credential_sent,
            jid: self.jid@,
            secret: self.secret@,
        }
    }
}

impl ComponentConnection {
    /// A connection for the component `jid` that is not open yet.
    pub fn new(jid: String, secret: String) -> (connection: Self)
        ensures
            connection@ == (ComponentConnectionView {
                state: ConnectionState::Disconnected,
                credential_sent: false,
                jid: jid@,
                secret: secret@,
            }),
    {
        Self { state: ConnectionState::Disconnected, credential_sent: false, jid, secret }
    }

    /// Where the connection stands.
    pub fn state(&self) -> (state: ConnectionState)
        ensures
            state == self@.state,
    {
        self.state
    }

    /// Whether the server's stream header lies behind.
    pub fn header_seen(&self) -> (seen: bool)
        ensures
            seen == self@.header_seen(),
    {
        match self.state {
            ConnectionState::Connected => true,
            ConnectionState::Handshaking => self.credential_sent,
            _ => false,
        }
    }

    fn fail(&mut self)
        ensures
            final(self)@ == old(self)@.moved_to(ConnectionState::Failed, false),
    {
        self.state = ConnectionState::Failed;
        self.credential_sent = false;
    }

    fn abandon(&mut self, event: &StreamEvent) -> (action: StreamAction)
        ensures
            final(self)@ == old(self)@.moved_to(ConnectionState::Failed, false),
            action@ == StreamActionView::Abandon(connect_error(event@)),
    {
        self.fail();
        let error = match event {
            StreamEvent::TransportRefused => ConnectError::TransportRefused,
            StreamEvent::TimedOut => ConnectError::Timeout,
            StreamEvent::MalformedHeader => ConnectError::MalformedHeader,
            StreamEvent::HandshakeRejected => ConnectError::HandshakeRejected,
            StreamEvent::TransportLost => ConnectError::TransportLost,
            _ => ConnectError::UnexpectedEvent,
        };
        StreamAction::Abandon(error)
    }

    /// Takes note of `event` and says what to do next.
    pub fn handle(&mut self, event: StreamEvent) -> (action: StreamAction)
        ensures
            (final(self)@, action@) == react(old(self)@, event@),
    {
        match self.state {
            ConnectionState::Disconnected => match event {
                StreamEvent::TransportOpened => {
                    self.state = ConnectionState::Handshaking;
                    self.credential_sent = false;
                    StreamAction::SendStreamHeader { to: self.jid.clone() }
                },
                other => self.abandon(&other),
            },
            ConnectionState::Handshaking => match event {
                StreamEvent::StreamHeader { id } if !self.credential_sent => {
                    self.credential_sent = true;
                    StreamAction::SendHandshake {
                        credential: handshake_credential(id.as_str(), self.secret.as_str()),
                    }
                },
                StreamEvent::HandshakeAccepted if self.credential_sent => {
                    self.state = ConnectionState::Connected;
                    self.credential_sent = false;
                    StreamAction::Established
                },
                other => self.abandon(&other),
            },
            ConnectionState::Connected => match event {
                StreamEvent::Stanza(ProtocolEvent::Notify(intent)) => StreamAction::Dispatch(intent),
                StreamEvent::Stanza(ProtocolEvent::Other) => StreamAction::Skip,
                StreamEvent::MalformedStanza => StreamAction::Skip,
                _ => {
                    self.fail();
                    StreamAction::ConnectionLost
                },
            },
            ConnectionState::Failed => StreamAction::Ignore,
        }
    }
}

impl StreamAction {
    /// What the action means to the supervisor of the connection, if
    /// anything: that the attempt succeeded, that it failed, or that the
    /// connection is lost.
    pub fn supervisor_event(&self) -> (event: Option<SupervisorEvent>)
        ensures
            event == supervisor_event_of(self@),
    {
        match self {
            StreamAction::Established => Some(SupervisorEvent::Connected),
            StreamAction::Abandon(_) => Some(SupervisorEvent::ConnectFailed),
            StreamAction::ConnectionLost => Some(SupervisorEvent::ConnectionLost),
            _ => None,
        }
    }
}

/// A handshake that the server accepts: from a connection that is not open,
/// the open transport, the server's stream header and the acceptance of the
/// credential lead to `Connected`, and on the way the connection asks for
/// its own stream header and for the credential that answers the server's
/// stream identifier under the shared secret.
pub proof fn lemma_accepted_handshake_connects(connection: ComponentConnectionView, id: Seq<char>)
    requires
        connection.state == ConnectionState::Disconnected,
    ensures
        ({
            let opened = react(connection, StreamEventView::TransportOpened);
            let greeted = react(opened.0, StreamEventView::StreamHeader { id });
            let accepted = react(greeted.0, StreamEventView::HandshakeAccepted);
            &&& opened.1 == StreamActionView::SendStreamHeader { to: connection.jid }
            &&& opened.0.state == ConnectionState::Handshaking
            &&& greeted.1 == StreamActionView::SendHandshake {
                credential: credential_of(id, connection.secret),
            }
            &&& greeted.0.state == ConnectionState::Handshaking
            &&& accepted.1 == StreamActionView::Established
            &&& accepted.0.state == ConnectionState::Connected
        }),
{
}

/// A credential that the server rejects ends the attempt with
/// `HandshakeRejected`, and the supervisor is told that the attempt failed.
pub proof fn lemma_rejected_handshake_fails(connection: ComponentConnectionView)
    requires
        connection.state == ConnectionState::Handshaking,
        connection.credential_sent,
    ensures
        react(connection, StreamEventView::HandshakeRejected).0.state == ConnectionState::Failed,
        react(connection, StreamEventView::HandshakeRejected).1 == StreamActionView::Abandon(
            ConnectError::HandshakeRejected,
        ),
        supervisor_event_of(react(connection, StreamEventView::HandshakeRejected).1) == Some(
            SupervisorEvent::ConnectFailed,
        ),
{
}

/// Before the connection stands, an event either carries the handshake on
/// or abandons the attempt: no connection is left half open. The attempt is
/// abandoned on every refusal, timeout, unreadable header, rejection and
/// loss of the transport.
pub proof fn lemma_attempt_goes_on_or_fails(connection: ComponentConnectionView, event: StreamEventView)
    requires
        connection.state == ConnectionState::Disconnected || connection.state
            == ConnectionState::Handshaking,
    ensures
        ({
            let (next, action) = react(connection, event);
            ||| next.state == ConnectionState::Failed && action == StreamActionView::Abandon(
                connect_error(event),
            )
            ||| next.state == ConnectionState::Handshaking && (action is SendStreamHeader || action
                is SendHandshake)
            ||| next.state == ConnectionState::Connected && action == StreamActionView::Established
        }),
        event is TransportRefused || event is TimedOut || event is MalformedHeader || event
            is HandshakeRejected || event is TransportLost ==> react(connection, event).0.state
            == ConnectionState::Failed,
{
}

/// A stanza that cannot be read does not harm the connection: it is skipped,
/// and the connection stays as it was.
pub proof fn lemma_unreadable_stanza_is_skipped(connection: ComponentConnectionView)
    requires
        connection.state == ConnectionState::Connected,
    ensures
        react(connection, StreamEventView::MalformedStanza) == (connection, StreamActionView::Skip),
{
}

/// Once connected, the connection ends only by being lost, and the
/// supervisor is told so. Until then every event leaves it connected.
pub proof fn lemma_connected_until_lost(connection: ComponentConnectionView, event: StreamEventView)
    requires
        connection.state == ConnectionState::Connected,
    ensures
        ({
            let (next, action) = react(connection, event);
            if event is Stanza || event is MalformedStanza {
                next == connection && (action is Dispatch || action is Skip)
            } else {
                next.state == ConnectionState::Failed && action == StreamActionView::ConnectionLost
                    && supervisor_event_of(action) == Some(SupervisorEvent::ConnectionLost)
            }
        }),
        react(connection, StreamEventView::TransportLost).1 == StreamActionView::ConnectionLost,
{
}

/// A connection that failed is never used again, and no event changes the
/// address or the secret of a connection.
pub proof fn lemma_failed_stays_failed(connection: ComponentConnectionView, event: StreamEventView)
    ensures
        connection.state == ConnectionState::Failed ==> react(connection, event) == (
            connection,
            StreamActionView::Ignore,
        ),
        react(connection, event).0.jid == connection.jid,
        react(connection, event).0.secret == connection.secret,
{
}

} // verus!
