//! The component stream as bytes: what the server sent, cut into the events
//! that the connection understands, and what the connection sends, written
//! out.
//!
//! The server's stream is one long XML document that is never complete. Its
//! root element is opened by the stream header; each child of the root is
//! one element of the protocol, as XEP-0114 lays it down for components.
//! The bytes received so far are scanned from their beginning for the next
//! event; what the event took is then dropped by the caller.
//!
//! A notification is asked for as XEP-0357 has it: the server publishes to
//! a node that is named after the device token, in a stanza that is sent
//! to the address of the backend. The stanza may be an `iq` or a `message`.

use vstd::prelude::*;
use vstd::slice::slice_subrange;
use crate::component::{
    react,
    ComponentConnection,
    ComponentConnectionView,
    ConnectionState,
    ProtocolEvent,
    ProtocolEventView,
    StreamAction,
    StreamActionView,
    StreamEvent,
    StreamEventView,
};
use crate::dispatch::{NotificationIntent, NotificationIntentView};
use crate::handshake::credential_of;
use crate::text::{text_eq, text_of};
use crate::xml::{
    escape,
    escaped,
    read_attribute,
    read_name,
    read_token,
    xml_attribute,
    xml_name,
    xml_token,
    XmlToken,
    READ_LIMIT,
};

verus! {

/// What was found at the beginning of the bytes received.
#[derive(Clone, Debug, PartialEq, Eq)]
pub struct Reading {
    /// The next event, if the bytes hold all of it.
    pub event: Option<StreamEvent>,
    /// The number of bytes that are done with and must be dropped.
    pub consumed: usize,
}

/// Mathematical value of a [`Reading`].
pub struct ReadingView {
    pub event: Option<StreamEventView>,
    pub consumed: int,
}

impl View for Reading {
    type V = ReadingView;

    open spec fn view(&self) -> ReadingView {
        ReadingView {
            event: match self.event {
                Some(event) => Some(event@),
                None => None,
            },
            consumed: self.consumed as int,
        }
    }
}

/// Where a scan of the bytes received stands.
#[derive(Clone, Copy, Debug, PartialEq, Eq, Structural)]
pub struct Cursor {
    /// The place of the next piece.
    pub at: usize,
    /// The number of elements that are open.
    pub depth: usize,
    /// Where the outermost open element began, if one is open.
    pub start: usize,
}

/// What one piece means to the scan.
#[derive(Clone, Copy, Debug, PartialEq, Eq, Structural)]
pub enum Found {
    /// Nothing yet: scan on from here.
    Next(Cursor),
    /// The bytes end before the next event: drop `consumed` of them and
    /// wait for more.
    Wait { consumed: usize },
    /// The stream header, a tag from `from` to `end`.
    Header { from: usize, end: usize },
    /// In place of the stream header, a tag that opens nothing.
    BadHeader { end: usize },
    /// One child element of the stream, from `from` to `end`.
    Element { from: usize, end: usize },
    /// The end of the stream.
    Closed { end: usize },
    /// The bytes are no XML.
    Broken,
}

/// What is looked for in an element: a tag named `publish`.
#[derive(Clone, Copy, Debug, PartialEq, Eq, Structural)]
pub enum Search {
    /// The piece is the tag.
    Found,
    /// The piece is not the tag: look on at `at`.
    Next { at: usize },
    /// The element holds no such tag.
    Missing,
}

/// What a child element of the stream is, by its name.
#[derive(Clone, Copy, Debug, PartialEq, Eq, Structural)]
pub enum ElementKind {
    /// `handshake`: the server accepts the credential.
    Accepted,
    /// `stream:error`: the server rejects the component.
    Rejected,
    /// `iq` or `message`: a stanza that may ask for a notification.
    Carrier,
    /// Any other stanza.
    Other,
    /// An element whose name cannot be read.
    Unreadable,
}

/// The bytes from `at` on.
pub open spec fn rest(bytes: Seq<u8>, at: int) -> Seq<u8> {
    bytes.subrange(at, bytes.len() as int)
}

/// Whether the bytes begin with a byte-order mark.
pub open spec fn has_mark(bytes: Seq<u8>) -> bool {
    bytes.len() >= 3 && bytes[0] == 0xEF && bytes[1] == 0xBB && bytes[2] == 0xBF
}

/// What the bytes begin with. A byte-order mark is a piece of its own, of
/// three bytes, which the reader never gets to see; everything else is what
/// the reader makes of the bytes.
pub open spec fn token_at(bytes: Seq<u8>) -> XmlToken {
    if has_mark(bytes) {
        XmlToken::Other { len: 3 }
    } else {
        xml_token(bytes)
    }
}

/// The number of bytes that a token takes of `room` bytes; `None` for a
/// token that is none, takes nothing, or takes more than there is.
pub open spec fn token_len(token: XmlToken, room: int) -> Option<int> {
    let len: int = match token {
        XmlToken::Start { len } => len as int,
        XmlToken::Empty { len } => len as int,
        XmlToken::End { len } => len as int,
        XmlToken::Other { len } => len as int,
        _ => 0,
    };
    if 0 < len <= room {
        Some(len)
    } else {
        None
    }
}

/// Whether a token opens an element.
pub open spec fn opens(token: XmlToken) -> bool {
    token is Start || token is Empty
}

/// What the token at the cursor means to a scan of `total` bytes.
///
/// Text and declarations are passed over. Before the stream header was
/// seen, the first tag is the header, and it must open the stream. After
/// it, a tag that closes the outermost open element ends one child of the
/// stream, and a tag that closes more than was opened ends the stream.
///
/// Where the reader fails, the bytes are no XML if the failure lies before
/// their end: more bytes cannot mend it. A failure at their end may be a
/// piece that is not all there yet, and waits. `<!` alone waits for what
/// follows it; followed by a byte that begins nothing, it is no XML.
///
/// While it waits, the scan gives up what lies before the outermost open
/// element, and keeps the rest.
pub open spec fn found_of(token: XmlToken, cursor: Cursor, total: usize, header_seen: bool) -> Found {
    if !(cursor.start <= cursor.at <= total && cursor.depth <= total) {
        Found::Broken
    } else {
        let room = total - cursor.at;
        let wait = Found::Wait {
            consumed: if cursor.depth == 0 {
                cursor.at
            } else {
                cursor.start
            },
        };
        match token {
            XmlToken::Eof => wait,
            XmlToken::BadBang => if room > 2 {
                Found::Broken
            } else {
                wait
            },
            XmlToken::Failed { len } => if len < room {
                Found::Broken
            } else {
                wait
            },
            _ => match token_len(token, room) {
                None => Found::Broken,
                Some(len) => {
                    let end = (cursor.at + len) as usize;
                    if token is Other {
                        Found::Next(Cursor { at: end, ..cursor })
                    } else if !header_seen {
                        if token is Start {
                            Found::Header { from: cursor.at, end }
                        } else if token is Empty {
                            Found::BadHeader { end }
                        } else {
                            Found::Closed { end }
                        }
                    } else if token is Start {
                        if cursor.depth == 0 {
                            Found::Next(Cursor { at: end, depth: 1, start: cursor.at })
                        } else if cursor.depth < total {
                            Found::Next(
                                Cursor { at: end, depth: (cursor.depth + 1) as usize, ..cursor },
                            )
                        } else {
                            Found::Broken
                        }
                    } else if token is Empty {
                        if cursor.depth == 0 {
                            Found::Element { from: cursor.at, end }
                        } else {
                            Found::Next(Cursor { at: end, ..cursor })
                        }
                    } else if cursor.depth == 0 {
                        Found::Closed { end }
                    } else if cursor.depth == 1 {
                        Found::Element { from: cursor.start, end }
                    } else {
                        Found::Next(Cursor { at: end, depth: (cursor.depth - 1) as usize, ..cursor })
                    }
                },
            },
        }
    }
}

/// What a piece at `at` of `total` bytes means to the search for a tag
/// named `publish`: `token` is the piece and `name` its name, if it has one.
pub open spec fn search_of(token: XmlToken, name: Option<Seq<char>>, at: usize, total: usize) -> Search {
    if at > total {
        Search::Missing
    } else {
        match token_len(token, total - at) {
            None => Search::Missing,
            Some(len) => if opens(token) && name == Some("publish"@) {
                Search::Found
            } else {
                Search::Next { at: (at + len) as usize }
            },
        }
    }
}

/// What an element is, by its name.
pub open spec fn kind_of(name: Option<Seq<char>>) -> ElementKind {
    match name {
        None => ElementKind::Unreadable,
        Some(name) => if name == "handshake"@ {
            ElementKind::Accepted
        } else if name == "stream:error"@ {
            ElementKind::Rejected
        } else if name == "iq"@ || name == "message"@ {
            ElementKind::Carrier
        } else {
            ElementKind::Other
        },
    }
}

/// What the server's stream header means, by its attribute `id`: it must
/// assign an identifier to the stream.
pub open spec fn header_event(id: Option<Seq<char>>) -> StreamEventView {
    match id {
        Some(id) => StreamEventView::StreamHeader { id },
        None => StreamEventView::MalformedHeader,
    }
}

/// What a stanza that publishes to a node asks for, by the address `to`
/// that it is sent to and the `node` that it publishes to: the address
/// names the backend and the node the device token. Without either, the
/// stanza cannot be read.
pub open spec fn publish_event(to: Option<Seq<char>>, node: Option<Seq<char>>) -> StreamEventView {
    match (to, node) {
        (Some(selector), Some(token)) => StreamEventView::Stanza(
            ProtocolEventView::Notify(NotificationIntentView { selector, token }),
        ),
        _ => StreamEventView::MalformedStanza,
    }
}

/// The place of the first tag named `publish` in `element` from `at` on;
/// `None` where there is none before the bytes end or cannot be read on.
pub open spec fn publish_at(element: Seq<u8>, at: int) -> Option<int>
    decreases element.len() - at,
{
    if 0 <= at <= element.len() <= usize::MAX {
        match search_of(
            token_at(rest(element, at)),
            xml_name(rest(element, at)),
            at as usize,
            element.len() as usize,
        ) {
            Search::Found => Some(at),
            Search::Next { at: next } => publish_at(element, next as int),
            Search::Missing => None,
        }
    } else {
        None
    }
}

/// What a stanza that may ask for a notification does ask for. One that
/// holds no tag named `publish` is a stanza of another kind.
pub open spec fn carrier_event(element: Seq<u8>) -> StreamEventView {
    match token_len(token_at(element), element.len() as int) {
        None => StreamEventView::MalformedStanza,
        Some(len) => match publish_at(element, len) {
            None => StreamEventView::Stanza(ProtocolEventView::Other),
            Some(at) => publish_event(
                xml_attribute(element, "to"@),
                xml_attribute(rest(element, at), "node"@),
            ),
        },
    }
}

/// What one child element of the stream means. An element of more bytes
/// than can be read at once is a stanza that cannot be read.
pub open spec fn element_event(element: Seq<u8>) -> StreamEventView {
    if element.len() > READ_LIMIT {
        StreamEventView::MalformedStanza
    } else {
        match kind_of(xml_name(element)) {
            ElementKind::Accepted => StreamEventView::HandshakeAccepted,
            ElementKind::Rejected => StreamEventView::HandshakeRejected,
            ElementKind::Carrier => carrier_event(element),
            ElementKind::Other => StreamEventView::Stanza(ProtocolEventView::Other),
            ElementKind::Unreadable => StreamEventView::MalformedStanza,
        }
    }
}

/// The reading of bytes that are no XML: they are all dropped, and the
/// connection cannot go on.
pub open spec fn broken(bytes: Seq<u8>, header_seen: bool) -> ReadingView {
    ReadingView {
        event: Some(
            if header_seen {
                StreamEventView::TransportLost
            } else {
                StreamEventView::MalformedHeader
            },
        ),
        consumed: bytes.len() as int,
    }
}

/// The reading of `bytes` by a scan that stands at `cursor`: piece by piece
/// until one of them decides.
pub open spec fn scan(bytes: Seq<u8>, header_seen: bool, cursor: Cursor) -> ReadingView
    decreases bytes.len() - cursor.at,
{
    if cursor.at <= bytes.len() <= usize::MAX {
        match found_of(
            token_at(rest(bytes, cursor.at as int)),
            cursor,
            bytes.len() as usize,
            header_seen,
        ) {
            Found::Next(next) => scan(bytes, header_seen, next),
            Found::Wait { consumed } => ReadingView { event: None, consumed: consumed as int },
            Found::Header { from, end } => ReadingView {
                event: Some(header_event(xml_attribute(rest(bytes, from as int), "id"@))),
                consumed: end as int,
            },
            Found::BadHeader { end } => ReadingView {
                event: Some(StreamEventView::MalformedHeader),
                consumed: end as int,
            },
            Found::Element { from, end } => ReadingView {
                event: Some(element_event(bytes.subrange(from as int, end as int))),
                consumed: end as int,
            },
            Found::Closed { end } => ReadingView {
                event: Some(StreamEventView::TransportLost),
                consumed: end as int,
            },
            Found::Broken => broken(bytes, header_seen),
        }
    } else {
        broken(bytes, header_seen)
    }
}

/// The reading of the bytes received and not yet dropped, for a stream
/// whose header was seen before or not. More bytes than can be read at once
/// are read as bytes that are no XML.
pub open spec fn stream_reading(bytes: Seq<u8>, header_seen: bool) -> ReadingView {
    if bytes.len() > READ_LIMIT {
        broken(bytes, header_seen)
    } else {
        scan(bytes, header_seen, Cursor { at: 0, depth: 0, start: 0 })
    }
}

/// The number of bytes that a token takes of `room` bytes.
fn length_of(token: XmlToken, room: usize) -> (len: Option<usize>)
    ensures
        match len {
            Some(len) => token_len(token, room as int) == Some(len as int),
            None => token_len(token, room as int) is None,
        },
{
    let len: usize = match token {
        XmlToken::Start { len } => len,
        XmlToken::Empty { len } => len,
        XmlToken::End { len } => len,
        XmlToken::Other { len } => len,
        _ => 0,
    };
    if 0 < len && len <= room {
        Some(len)
    } else {
        None
    }
}

fn is_opening(token: XmlToken) -> (opening: bool)
    ensures
        opening == opens(token),
{
    match token {
        XmlToken::Start { .. } => true,
        XmlToken::Empty { .. } => true,
        _ => false,
    }
}

/// What the bytes begin with.
fn next_token(bytes: &[u8]) -> (token: XmlToken)
    requires
        bytes@.len() <= READ_LIMIT,
    ensures
        token == token_at(bytes@),
{
    if bytes.len() >= 3 && bytes[0] == 0xEF && bytes[1] == 0xBB && bytes[2] == 0xBF {
        XmlToken::Other { len: 3 }
    } else {
        read_token(bytes)
    }
}

/// Says what the token at the cursor means to a scan of `total` bytes.
pub fn judge_token(token: XmlToken, cursor: Cursor, total: usize, header_seen: bool) -> (found: Found)
    ensures
        found == found_of(token, cursor, total, header_seen),
{
    if !(cursor.start <= cursor.at && cursor.at <= total && cursor.depth <= total) {
        return Found::Broken;
    }
    let room = total - cursor.at;
    let wait = Found::Wait { consumed: if cursor.depth == 0 {
        cursor.at
    } else {
        cursor.start
    } };
    match token {
        XmlToken::Eof => {
            return wait;
        },
        XmlToken::BadBang => {
            return if room > 2 {
                Found::Broken
            } else {
                wait
            };
        },
        XmlToken::Failed { len } => {
            return if len < room {
                Found::Broken
            } else {
                wait
            };
        },
        _ => {},
    }
    let len = match length_of(token, room) {
        Some(len) => len,
        None => {
            return Found::Broken;
        },
    };
    let end = cursor.at + len;
    match token {
        XmlToken::Other { .. } => Found::Next(Cursor { at: end, depth: cursor.depth, start: cursor.start }),
        XmlToken::Start { .. } => {
            if !header_seen {
                Found::Header { from: cursor.at, end }
            } else if cursor.depth == 0 {
                Found::Next(Cursor { at: end, depth: 1, start: cursor.at })
            } else if cursor.depth < total {
                Found::Next(Cursor { at: end, depth: cursor.depth + 1, start: cursor.start })
            } else {
                Found::Broken
            }
        },
        XmlToken::Empty { .. } => {
            if !header_seen {
                Found::BadHeader { end }
            } else if cursor.depth == 0 {
                Found::Element { from: cursor.at, end }
            } else {
                Found::Next(Cursor { at: end, depth: cursor.depth, start: cursor.start })
            }
        },
        _ => {
            if !header_seen || cursor.depth == 0 {
                Found::Closed { end }
            } else if cursor.depth == 1 {
                Found::Element { from: cursor.start, end }
            } else {
                Found::Next(Cursor { at: end, depth: cursor.depth - 1, start: cursor.start })
            }
        },
    }
}

/// Says what a piece at `at` of `total` bytes means to the search for a tag
/// named `publish`.
pub fn judge_search(token: XmlToken, name: &Option<String>, at: usize, total: usize) -> (search: Search)
    ensures
        search == search_of(token, text_of(*name), at, total),
{
    if at > total {
        return Search::Missing;
    }
    let len = match length_of(token, total - at) {
        Some(len) => len,
        None => {
            return Search::Missing;
        },
    };
    let named = match name {
        Some(name) => text_eq(name.as_str(), "publish"),
        None => false,
    };
    if is_opening(token) && named {
        Search::Found
    } else {
        Search::Next { at: at + len }
    }
}

/// Says what an element is, by its name.
pub fn judge_name(name: &Option<String>) -> (kind: ElementKind)
    ensures
        kind == kind_of(text_of(*name)),
{
    match name {
        None => ElementKind::Unreadable,
        Some(name) => {
            if text_eq(name.as_str(), "handshake") {
                ElementKind::Accepted
            } else if text_eq(name.as_str(), "stream:error") {
                ElementKind::Rejected
            } else if text_eq(name.as_str(), "iq") || text_eq(name.as_str(), "message") {
                ElementKind::Carrier
            } else {
                ElementKind::Other
            }
        },
    }
}

/// Says what the server's stream header means, by its attribute `id`.
pub fn judge_header(id: Option<String>) -> (event: StreamEvent)
    ensures
        event@ == header_event(text_of(id)),
{
    match id {
        Some(id) => StreamEvent::StreamHeader { id },
        None => StreamEvent::MalformedHeader,
    }
}

/// Says what a stanza that publishes to a node asks for, by the address
/// that it is sent to and the node that it publishes to.
pub fn judge_publish(to: Option<String>, node: Option<String>) -> (event: StreamEvent)
    ensures
        event@ == publish_event(text_of(to), text_of(node)),
{
    match (to, node) {
        (Some(selector), Some(token)) => StreamEvent::Stanza(
            ProtocolEvent::Notify(NotificationIntent::new(selector, token)),
        ),
        _ => StreamEvent::MalformedStanza,
    }
}

/// The place of the first tag named `publish` in `element` from `from` on.
fn find_publish(element: &[u8], from: usize) -> (found: Option<usize>)
    requires
        from <= element@.len() <= READ_LIMIT,
    ensures
        match found {
            Some(at) => publish_at(element@, from as int) == Some(at as int) && at <= element@.len(),
            None => publish_at(element@, from as int) is None,
        },
{
    let total = element.len();
    let mut at: usize = from;
    loop
        invariant
            at <= total <= READ_LIMIT,
            total == element@.len(),
            publish_at(element@, from as int) == publish_at(element@, at as int),
        decreases total - at,
    {
        let tail = slice_subrange(element, at, total);
        let token = next_token(tail);
        let name = read_name(tail);
        match judge_search(token, &name, at, total) {
            Search::Found => {
                return Some(at);
            },
            Search::Next { at: next } => {
                at = next;
            },
            Search::Missing => {
                return None;
            },
        }
    }
}

/// What a stanza that may ask for a notification does ask for.
fn read_carrier(element: &[u8]) -> (event: StreamEvent)
    requires
        element@.len() <= READ_LIMIT,
    ensures
        event@ == carrier_event(element@),
{
    let first = next_token(element);
    let len = match length_of(first, element.len()) {
        Some(len) => len,
        None => {
            return StreamEvent::MalformedStanza;
        },
    };
    let at = match find_publish(element, len) {
        Some(at) => at,
        None => {
            return StreamEvent::Stanza(ProtocolEvent::Other);
        },
    };
    let to = read_attribute(element, "to");
    let node = read_attribute(slice_subrange(element, at, element.len()), "node");
    judge_publish(to, node)
}

/// Says what one child element of the stream means.
pub fn read_element(element: &[u8]) -> (event: StreamEvent)
    ensures
        event@ == element_event(element@),
{
    if element.len() > READ_LIMIT {
        return StreamEvent::MalformedStanza;
    }
    let name = read_name(element);
    match judge_name(&name) {
        ElementKind::Accepted => StreamEvent::HandshakeAccepted,
        ElementKind::Rejected => StreamEvent::HandshakeRejected,
        ElementKind::Carrier => read_carrier(element),
        ElementKind::Other => StreamEvent::Stanza(ProtocolEvent::Other),
        ElementKind::Unreadable => StreamEvent::MalformedStanza,
    }
}

fn give_up(bytes: &[u8], header_seen: bool) -> (reading: Reading)
    ensures
        reading@ == broken(bytes@, header_seen),
{
    Reading {
        event: Some(
            if header_seen {
                StreamEvent::TransportLost
            } else {
                StreamEvent::MalformedHeader
            },
        ),
        consumed: bytes.len(),
    }
}

/// Looks for the next event at the beginning of `pending`, the bytes that
/// were received and not yet dropped. `header_seen` says whether the
/// server's stream header was read before.
pub fn read_stream(pending: &[u8], header_seen: bool) -> (reading: Reading)
    ensures
        reading@ == stream_reading(pending@, header_seen),
        reading.consumed <= pending@.len(),
{
    let total = pending.len();
    if total > READ_LIMIT {
        return give_up(pending, header_seen);
    }
    let mut cursor = Cursor { at: 0, depth: 0, start: 0 };
    loop
        invariant
            cursor.at <= total <= READ_LIMIT,
            total == pending@.len(),
            stream_reading(pending@, header_seen) == scan(pending@, header_seen, cursor),
        decreases total - cursor.at,
    {
        let tail = slice_subrange(pending, cursor.at, total);
        let token = next_token(tail);
        match judge_token(token, cursor, total, header_seen) {
            Found::Next(next) => {
                cursor = next;
            },
            Found::Wait { consumed } => {
                return Reading { event: None, consumed };
            },
            Found::Header { from, end } => {
                let id = read_attribute(slice_subrange(pending, from, total), "id");
                return Reading { event: Some(judge_header(id)), consumed: end };
            },
            Found::BadHeader { end } => {
                return Reading { event: Some(StreamEvent::MalformedHeader), consumed: end };
            },
            Found::Element { from, end } => {
                let element = slice_subrange(pending, from, end);
                return Reading { event: Some(read_element(element)), consumed: end };
            },
            Found::Closed { end } => {
                return Reading { event: Some(StreamEvent::TransportLost), consumed: end };
            },
            Found::Broken => {
                return give_up(pending, header_seen);
            },
        }
    }
}

/// The stream header that a component sends to open its stream.
pub open spec fn stream_header_text(to: Seq<char>) -> Seq<char> {
    "<?xml version='1.0'?><stream:stream xmlns='jabber:component:accept' xmlns:stream='http://etherx.jabber.org/streams' to='"@
        + escaped(to) + "'>"@
}

/// The handshake element that carries a credential.
pub open spec fn handshake_text(credential: Seq<char>) -> Seq<char> {
    "<handshake>"@ + escaped(credential) + "</handshake>"@
}

/// What an action puts on the wire, if anything.
pub open spec fn wire_text(action: StreamActionView) -> Option<Seq<char>> {
    match action {
        StreamActionView::SendStreamHeader { to } => Some(stream_header_text(to)),
        StreamActionView::SendHandshake { credential } => Some(handshake_text(credential)),
        _ => None,
    }
}

/// Writes out what `action` asks to send; `None` for an action that sends
/// nothing.
pub fn write_action(action: &StreamAction) -> (text: Option<String>)
    ensures
        text_of(text) == wire_text(action@),
{
    match action {
        StreamAction::SendStreamHeader { to } => {
            let mut text =
                "<?xml version='1.0'?><stream:stream xmlns='jabber:component:accept' xmlns:stream='http://etherx.jabber.org/streams' to='".to_owned();
            text.append(escape(to.as_str()).as_str());
            text.append("'>");
            Some(text)
        },
        StreamAction::SendHandshake { credential } => {
            let mut text = "<handshake>".to_owned();
            text.append(escape(credential.as_str()).as_str());
            text.append("</handshake>");
            Some(text)
        },
        _ => None,
    }
}

/// What came of the bytes received.
#[derive(Clone, Debug, PartialEq, Eq)]
pub struct Received {
    /// What to do next, if the bytes held an event.
    pub action: Option<StreamAction>,
    /// The number of bytes that are done with and must be dropped.
    pub consumed: usize,
}

/// The most bytes that may wait for the end of one element. A server that
/// sends more without ending the element is given up.
pub const MAX_PENDING: usize = 1048576;

/// The connection after the bytes `pending` were received, the action that
/// it asks for, and the number of bytes that are done with: the next event
/// is read from the bytes and the connection reacts to it. Where the bytes
/// hold no event yet, nothing changes, unless more bytes are left waiting
/// than may wait: then all are dropped, and the connection reacts as to a
/// lost transport.
pub open spec fn reception(connection: ComponentConnectionView, pending: Seq<u8>) -> (
    ComponentConnectionView,
    Option<StreamActionView>,
    int,
) {
    let reading = stream_reading(pending, connection.header_seen());
    match reading.event {
        Some(event) => (react(connection, event).0, Some(react(connection, event).1), reading.consumed),
        None => if pending.len() - reading.consumed > MAX_PENDING {
            (
                react(connection, StreamEventView::TransportLost).0,
                Some(react(connection, StreamEventView::TransportLost).1),
                pending.len() as int,
            )
        } else {
            (connection, None, reading.consumed)
        },
    }
}

impl ComponentConnection {
    /// Takes note of the bytes that were received and not yet dropped, and
    /// says what to do next and how many of the bytes to drop. Call it again
    /// on what is left until it asks for nothing; then wait for more bytes.
    pub fn receive(&mut self, pending: &[u8]) -> (received: Received)
        ensures
            final(self)@ == reception(old(self)@, pending@).0,
            match received.action {
                Some(action) => reception(old(self)@, pending@).1 == Some(action@),
                None => reception(old(self)@, pending@).1 is None,
            },
            received.consumed == reception(old(self)@, pending@).2,
            received.consumed <= pending@.len(),
    {
        let reading = read_stream(pending, self.header_seen());
        match reading.event {
            Some(event) => Received { action: Some(self.handle(event)), consumed: reading.consumed },
            None => if pending.len() - reading.consumed > MAX_PENDING {
                Received {
                    action: Some(self.handle(StreamEvent::TransportLost)),
                    consumed: pending.len(),
                }
            } else {
                Received { action: None, consumed: reading.consumed }
            },
        }
    }
}

/// No piece makes a scan go back or beyond the bytes: it goes on behind the
/// piece, waits, or ends within the bytes.
pub proof fn lemma_found_stays_within(token: XmlToken, cursor: Cursor, total: usize, header_seen: bool)
    ensures
        match found_of(token, cursor, total, header_seen) {
            Found::Next(next) => cursor.at < next.at <= total && next.start <= next.at && next.depth
                <= total,
            Found::Wait { consumed } => consumed <= cursor.at <= total,
            Found::Header { from, end } => from == cursor.at && from < end <= total,
            Found::BadHeader { end } => cursor.at < end <= total,
            Found::Element { from, end } => from <= cursor.at && from < end <= total,
            Found::Closed { end } => cursor.at < end <= total,
            Found::Broken => true,
        },
{
}

/// A reading drops no more bytes than were received.
pub proof fn lemma_scan_stays_within(bytes: Seq<u8>, header_seen: bool, cursor: Cursor)
    ensures
        0 <= scan(bytes, header_seen, cursor).consumed <= bytes.len(),
    decreases bytes.len() - cursor.at,
{
    if cursor.at <= bytes.len() <= usize::MAX {
        let token = token_at(rest(bytes, cursor.at as int));
        lemma_found_stays_within(token, cursor, bytes.len() as usize, header_seen);
        match found_of(token, cursor, bytes.len() as usize, header_seen) {
            Found::Next(next) => {
                lemma_scan_stays_within(bytes, header_seen, next);
            },
            _ => {},
        }
    }
}

/// Bytes that hold no event yet change nothing, and what a connection
/// makes of bytes never reaches beyond them. Nothing that is received
/// changes the address or the secret of the connection.
pub proof fn lemma_reception_is_sound(connection: ComponentConnectionView, pending: Seq<u8>)
    ensures
        reception(connection, pending).1 is None ==> reception(connection, pending).0 == connection,
        0 <= reception(connection, pending).2 <= pending.len(),
        reception(connection, pending).0.jid == connection.jid,
        reception(connection, pending).0.secret == connection.secret,
{
    lemma_scan_stays_within(
        pending,
        connection.header_seen(),
        Cursor { at: 0, depth: 0, start: 0 },
    );
}

/// The server's stream header is answered with the credential for the
/// identifier that the header assigns, under the secret of the connection.
pub proof fn lemma_header_is_answered_with_the_credential(
    connection: ComponentConnectionView,
    pending: Seq<u8>,
    id: Seq<char>,
)
    requires
        connection.state == ConnectionState::Handshaking,
        !connection.credential_sent,
        stream_reading(pending, false).event == Some(StreamEventView::StreamHeader { id }),
    ensures
        reception(connection, pending).1 == Some(
            StreamActionView::SendHandshake { credential: credential_of(id, connection.secret) },
        ),
        reception(connection, pending).0.state == ConnectionState::Handshaking,
        reception(connection, pending).0.header_seen(),
{
}

/// A connection that stands outlives every stanza, readable or not: it is
/// lost only to bytes that are no stanza, or to an element that does not
/// end.
pub proof fn lemma_stanzas_keep_the_connection(connection: ComponentConnectionView, pending: Seq<u8>)
    requires
        connection.state == ConnectionState::Connected,
    ensures
        ({
            let reading = stream_reading(pending, true);
            let (next, action, consumed) = reception(connection, pending);
            match reading.event {
                Some(StreamEventView::Stanza(ProtocolEventView::Notify(intent))) => next == connection
                    && action == Some(StreamActionView::Dispatch(intent)),
                Some(StreamEventView::Stanza(ProtocolEventView::Other)) => next == connection && action
                    == Some(StreamActionView::Skip),
                Some(StreamEventView::MalformedStanza) => next == connection && action == Some(
                    StreamActionView::Skip,
                ),
                Some(_) => next.state == ConnectionState::Failed && action == Some(
                    StreamActionView::ConnectionLost,
                ),
                None => next == connection || (next.state == ConnectionState::Failed && action
                    == Some(StreamActionView::ConnectionLost)),
            }
        }),
{
}

} // verus!
