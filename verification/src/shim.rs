//! A TCP shim that sits in front of an ID server and unblocks logged-in clients.
//!
//! A client that is logged in to an API server waits for the ID server to speak first, and
//! gives up after 18 seconds. The open-source ID server waits for the client. The client does
//! not require that what arrives makes sense, only that something arrives, so this shim writes
//! one frame and then gets out of the way: it copies bytes in both directions. The control
//! channel stays plaintext, exactly as it is for logged-out clients.

use crate::config::{env_or, set_or};
use crate::text::join;
use vstd::prelude::*;

verus! {

/// How many bytes the header of a frame has whose first byte is `first`.
pub open spec fn header_len(first: u8) -> int {
    (first & 0x3) + 1
}

/// How many bytes the payload of a frame has whose header is the one byte `first`.
pub open spec fn payload_len(first: u8) -> int {
    (first >> 2) as int
}

/// The number that two bytes write as a protobuf varint: seven bits each, the low ones first,
/// and the top bit set in all but the last.
pub open spec fn varint(low: u8, high: u8) -> int
    recommends
        low >= 0x80,
        high < 0x80,
{
    (low & 0x7f) + 128 * high
}

/// One frame the client will read, discard, and move on from: a header for a payload of three
/// bytes, and the payload, an unknown protobuf field with the value 0.
pub fn greeting() -> (r: Vec<u8>)
    ensures
        r@ == greeting_view(),
{
    let mut r: Vec<u8> = Vec::new();
    r.push(0x0C);
    r.push(0xA0);
    r.push(0x06);
    r.push(0x00);
    r
}

/// The bytes of the greeting.
pub open spec fn greeting_view() -> Seq<u8> {
    Seq::empty().push(0x0C).push(0xA0).push(0x06).push(0x00)
}

/// The greeting is one whole frame: its header has one byte and announces exactly the bytes
/// that follow. They are one protobuf field of the type varint with the value 0, whose number
/// is above every number that the client's messages use, the highest of which is 28.
pub proof fn law_greeting_is_one_unknown_field()
    ensures
        header_len(greeting_view()[0]) == 1,
        header_len(greeting_view()[0]) + payload_len(greeting_view()[0]) == greeting_view().len(),
        greeting_view()[1] >= 0x80,
        greeting_view()[2] < 0x80,
        varint(greeting_view()[1], greeting_view()[2]) % 8 == 0,
        varint(greeting_view()[1], greeting_view()[2]) / 8 == 100,
        varint(greeting_view()[1], greeting_view()[2]) / 8 > 28,
        greeting_view()[3] == 0,
{
    assert(0x0Cu8 & 0x3 == 0) by (bit_vector);
    assert(0x0Cu8 >> 2 == 3) by (bit_vector);
    assert(0xA0u8 & 0x7f == 0x20) by (bit_vector);
}

// ---------------------------------------------------------------------------
// One connection
// ---------------------------------------------------------------------------

/// What happened to a connection.
pub enum LinkEvent {
    /// A client connected.
    Accepted,
    /// The ID server was reached, or not, with this error.
    Reached(Result<(), String>),
    /// The greeting was sent, or not, with this error.
    Greeted(Result<(), String>),
    /// Both sockets were duplicated, or not.
    Split(bool),
}

/// What to do for a connection.
pub enum LinkAction {
    /// Connect to the ID server.
    Connect,
    /// Send these bytes to the client.
    Greet(Vec<u8>),
    /// Duplicate both sockets.
    Split,
    /// Copy in both directions.
    Pipe,
    /// Report this and drop the connection.
    GiveUp(String),
}

/// What a [`LinkEvent`] says.
pub enum LinkEventView {
    Accepted,
    Reached(Result<(), Seq<char>>),
    Greeted(Result<(), Seq<char>>),
    Split(bool),
}

impl View for LinkEvent {
    type V = LinkEventView;

    open spec fn view(&self) -> LinkEventView {
        match self {
            LinkEvent::Accepted => LinkEventView::Accepted,
            LinkEvent::Reached(Ok(_)) => LinkEventView::Reached(Ok(())),
            LinkEvent::Reached(Err(e)) => LinkEventView::Reached(Err(e@)),
            LinkEvent::Greeted(Ok(_)) => LinkEventView::Greeted(Ok(())),
            LinkEvent::Greeted(Err(e)) => LinkEventView::Greeted(Err(e@)),
            LinkEvent::Split(done) => LinkEventView::Split(*done),
        }
    }
}

/// What a [`LinkAction`] says.
pub enum LinkActionView {
    Connect,
    Greet(Seq<u8>),
    Split,
    Pipe,
    GiveUp(Seq<char>),
}

impl View for LinkAction {
    type V = LinkActionView;

    open spec fn view(&self) -> LinkActionView {
        match self {
            LinkAction::Connect => LinkActionView::Connect,
            LinkAction::Greet(bytes) => LinkActionView::Greet(bytes@),
            LinkAction::Split => LinkActionView::Split,
            LinkAction::Pipe => LinkActionView::Pipe,
            LinkAction::GiveUp(message) => LinkActionView::GiveUp(message@),
        }
    }
}

/// What to do for the connection of `peer`, to be forwarded to `upstream`, once `event`
/// happened. The client is greeted before anything is copied, and only where the ID server
/// was reached.
pub open spec fn handle_view(
    event: LinkEventView,
    peer: Seq<char>,
    upstream: Seq<char>,
) -> LinkActionView {
    match event {
        LinkEventView::Accepted => LinkActionView::Connect,
        LinkEventView::Reached(Ok(_)) => LinkActionView::Greet(greeting_view()),
        LinkEventView::Reached(Err(e)) => LinkActionView::GiveUp(
            peer + ": cannot reach hbbs at "@ + upstream + ": "@ + e,
        ),
        LinkEventView::Greeted(Ok(_)) => LinkActionView::Split,
        LinkEventView::Greeted(Err(e)) => LinkActionView::GiveUp(
            peer + ": failed to send greeting: "@ + e,
        ),
        LinkEventView::Split(true) => LinkActionView::Pipe,
        LinkEventView::Split(false) => LinkActionView::GiveUp(
            peer + ": failed to duplicate sockets"@,
        ),
    }
}

/// Decides what to do for a connection.
pub fn handle(event: LinkEvent, peer: &str, upstream: &str) -> (r: LinkAction)
    ensures
        r@ == handle_view(event@, peer@, upstream@),
{
    match event {
        LinkEvent::Accepted => LinkAction::Connect,
        LinkEvent::Reached(Ok(_)) => LinkAction::Greet(greeting()),
        LinkEvent::Reached(Err(e)) => {
            let message = join(peer, ": cannot reach hbbs at ");
            let message = join(message.as_str(), upstream);
            let message = join(message.as_str(), ": ");
            LinkAction::GiveUp(join(message.as_str(), e.as_str()))
        },
        LinkEvent::Greeted(Ok(_)) => LinkAction::Split,
        LinkEvent::Greeted(Err(e)) => {
            let message = join(peer, ": failed to send greeting: ");
            LinkAction::GiveUp(join(message.as_str(), e.as_str()))
        },
        LinkEvent::Split(done) => if done {
            LinkAction::Pipe
        } else {
            LinkAction::GiveUp(join(peer, ": failed to duplicate sockets"))
        },
    }
}

/// `event` is what can happen when `action` is carried out.
pub open spec fn follows(event: LinkEventView, action: LinkActionView) -> bool {
    match action {
        LinkActionView::Connect => event is Reached,
        LinkActionView::Greet(_) => event is Greeted,
        LinkActionView::Split => event is Split,
        LinkActionView::Pipe => false,
        LinkActionView::GiveUp(_) => false,
    }
}

/// `events` are what happened to a connection in a row, from its acceptance on.
pub open spec fn is_linking(
    events: Seq<LinkEventView>,
    peer: Seq<char>,
    upstream: Seq<char>,
) -> bool
    decreases events.len(),
{
    if events.len() <= 1 {
        events.len() == 1 ==> events[0] is Accepted
    } else {
        &&& is_linking(events.drop_last(), peer, upstream)
        &&& follows(
            events.last(),
            handle_view(events[events.len() - 2], peer, upstream),
        )
    }
}

/// Nothing is copied for a connection before the ID server was reached and the client was
/// greeted, in this order, and a connection is settled after four events.
pub proof fn law_client_is_greeted_before_copying(
    events: Seq<LinkEventView>,
    peer: Seq<char>,
    upstream: Seq<char>,
)
    requires
        is_linking(events, peer, upstream),
    ensures
        events.len() <= 4,
        events.len() > 0 && handle_view(events.last(), peer, upstream) is Pipe ==> events.len() == 4
            && (events[1] matches LinkEventView::Reached(Ok(_))) && (
        events[2] matches LinkEventView::Greeted(Ok(_))) && events[3] == LinkEventView::Split(true),
{
    lemma_link_order(events, peer, upstream);
}

/// Events happen in their order, each after the one before went well.
proof fn lemma_link_order(events: Seq<LinkEventView>, peer: Seq<char>, upstream: Seq<char>)
    requires
        is_linking(events, peer, upstream),
    ensures
        events.len() <= 4,
        events.len() > 0 ==> events[0] is Accepted,
        events.len() > 1 ==> events[1] is Reached,
        events.len() > 2 ==> (events[1] matches LinkEventView::Reached(Ok(_))) && events[2] is Greeted,
        events.len() > 3 ==> (events[2] matches LinkEventView::Greeted(Ok(_))) && events[3] is Split,
    decreases events.len(),
{
    if events.len() > 1 {
        lemma_link_order(events.drop_last(), peer, upstream);
    }
}

// ---------------------------------------------------------------------------
// Copying
// ---------------------------------------------------------------------------

/// What happened while copying from one socket to another.
#[derive(Debug, Clone, Copy, PartialEq, Eq, Structural)]
pub enum PipeEvent {
    /// So many bytes were read into the buffer; none at the end of the stream.
    Read(usize),
    /// Reading was interrupted by a signal.
    Interrupted,
    /// Reading failed.
    ReadFailed,
    /// What was read was written in full.
    Written,
    /// Writing failed.
    WriteFailed,
}

/// What to do next while copying.
#[derive(Debug, Clone, Copy, PartialEq, Eq, Structural)]
pub enum PipeAction {
    /// Read into the buffer.
    Read,
    /// Write the first so many bytes of the buffer.
    Write(usize),
    /// Half-close both directions, so the peers observe a clean end rather than a hang.
    Close,
}

/// What to do after `event`.
pub open spec fn pipe_view(event: PipeEvent) -> PipeAction {
    match event {
        PipeEvent::Read(n) => if n == 0 {
            PipeAction::Close
        } else {
            PipeAction::Write(n)
        },
        PipeEvent::Interrupted => PipeAction::Read,
        PipeEvent::ReadFailed => PipeAction::Close,
        PipeEvent::Written => PipeAction::Read,
        PipeEvent::WriteFailed => PipeAction::Close,
    }
}

/// Decides how copying goes on: until either end closes.
pub fn pipe(event: PipeEvent) -> (r: PipeAction)
    ensures
        r == pipe_view(event),
{
    match event {
        PipeEvent::Read(n) => if n == 0 {
            PipeAction::Close
        } else {
            PipeAction::Write(n)
        },
        PipeEvent::Interrupted => PipeAction::Read,
        PipeEvent::ReadFailed => PipeAction::Close,
        PipeEvent::Written => PipeAction::Read,
        PipeEvent::WriteFailed => PipeAction::Close,
    }
}

/// `event` is what can happen when `action` is carried out.
pub open spec fn answers(event: PipeEvent, action: PipeAction) -> bool {
    match action {
        PipeAction::Read => event is Read || event is Interrupted || event is ReadFailed,
        PipeAction::Write(_) => event is Written || event is WriteFailed,
        PipeAction::Close => false,
    }
}

/// `events` are what happened in a row, from the first read on.
pub open spec fn is_copying(events: Seq<PipeEvent>) -> bool
    decreases events.len(),
{
    events.len() > 0 ==> {
        &&& is_copying(events.drop_last())
        &&& answers(
            events.last(),
            if events.len() == 1 {
                PipeAction::Read
            } else {
                pipe_view(events[events.len() - 2])
            },
        )
    }
}

/// How many bytes were read.
pub open spec fn bytes_read(events: Seq<PipeEvent>) -> int
    decreases events.len(),
{
    if events.len() == 0 {
        0
    } else {
        bytes_read(events.drop_last()) + match events.last() {
            PipeEvent::Read(n) => n as int,
            _ => 0,
        }
    }
}

/// How many bytes were written in full.
pub open spec fn bytes_written(events: Seq<PipeEvent>) -> int
    decreases events.len(),
{
    if events.len() == 0 {
        0
    } else {
        bytes_written(events.drop_last()) + match (
            events.last(),
            if events.len() == 1 {
                PipeAction::Read
            } else {
                pipe_view(events[events.len() - 2])
            },
        ) {
            (PipeEvent::Written, PipeAction::Write(n)) => n as int,
            _ => 0,
        }
    }
}

/// Nothing that was read is lost or written twice: whenever the shim is about to read again,
/// or closes without a failed write, as many bytes were written as were read.
pub proof fn law_copying_is_complete(events: Seq<PipeEvent>)
    requires
        is_copying(events),
    ensures
        bytes_written(events) <= bytes_read(events),
        events.len() == 0 || (events.last() !is WriteFailed && pipe_view(events.last()) !is Write)
            ==> bytes_written(events) == bytes_read(events),
        events.len() > 0 && pipe_view(events.last()) is Write ==> bytes_written(events)
            + pipe_view(events.last())->Write_0 == bytes_read(events),
    decreases events.len(),
{
    if events.len() > 0 {
        law_copying_is_complete(events.drop_last());
        if events.len() > 1 {
            assert(events.drop_last().last() == events[events.len() - 2]);
        }
    }
}

/// The address to listen on: `SHIM_LISTEN`, where it is set.
pub fn listen_address(value: Option<String>) -> (r: String)
    ensures
        r@ == set_or(value.deep_view(), "0.0.0.0:21126"@),
{
    env_or(value, "0.0.0.0:21126")
}

/// The address of the ID server: `SHIM_UPSTREAM`, where it is set.
pub fn upstream_address(value: Option<String>) -> (r: String)
    ensures
        r@ == set_or(value.deep_view(), "127.0.0.1:21116"@),
{
    env_or(value, "127.0.0.1:21116")
}

} // verus!
