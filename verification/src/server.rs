//! The server: which peers are connected, what becomes of what they send, and when it stops.

use crate::electrum::client::{Client, ClientView};
use crate::json_codec;
use crate::json_codec::{read_json, write_json, JsonRead};
use crate::json_value::JsonValue;
use crate::message_io::LINE_FEED;
use crate::signals::Signal;
use crate::text;
use crate::text::{decimal, join};
use std::collections::HashMap;
use vstd::prelude::*;

verus! {

broadcast use vstd::std_specs::hash::group_hash_axioms;

/// A peer: the state of the client, and `W`, what goes to it.
pub struct Peer<S, W> {
    pub client: Client<S>,
    pub stream: W,
}

/// What a `Peer` is.
pub struct PeerView<S, W> {
    pub client: ClientView<S>,
    pub stream: W,
}

/// The peers that are connected, by their number.
pub struct Peers<S, W> {
    pub peers: HashMap<usize, Peer<S, W>>,
}

/// What a peer does.
pub struct Event<W> {
    pub peer_id: usize,
    pub msg: Message<W>,
}

/// A peer connects, sends a line, or goes away.
pub enum Message<W> {
    New(W),
    Request(String),
    Done,
}

/// What is to be done about an event.
pub enum PeerAction {
    Nothing,
    HandleRequest { peer_id: usize, line: String },
    UnknownPeer { peer_id: usize, line: String },
}

/// What wakes the server: a signal or the end of the signals, a tip or the end of the tips, an
/// event or the end of the events.
pub enum Wake<W> {
    Signal(Option<Signal>),
    Tip { more: bool },
    Event(Option<Event<W>>),
}

/// What waits behind an event.
pub enum Waiting<W> {
    Event(Event<W>),
    Empty,
    Closed,
}

/// What the server does next.
pub enum ServerStep<W> {
    /// Stops, as it should.
    Stop,
    /// Brings everything up to date.
    Update,
    /// Handles an event, and then whatever waits behind it.
    Handle(Event<W>),
    /// Stops because of an error.
    Fail(String),
}

/// What becomes of a connection after a read.
pub enum ReceiveStep<W> {
    Send(Event<W>),
    Stop,
    Fail(String),
}

impl<S, W> Peer<S, W> {
    /// What the peer is.
    pub open spec fn view(&self) -> PeerView<S, W> {
        PeerView { client: self.client@, stream: self.stream }
    }

    /// A peer that has just connected.
    pub fn new(stream: W) -> (peer: Peer<S, W>)
        ensures
            peer@ == (PeerView::<S, W> {
                client: ClientView { tip: None, status: Map::empty() },
                stream,
            }),
    {
        Peer { client: Client::default(), stream }
    }
}

impl<S, W> Peers<S, W> {
    /// The peers by their number.
    pub open spec fn view(&self) -> Map<usize, Peer<S, W>> {
        self.peers@
    }

    /// No peers.
    pub fn new() -> (peers: Peers<S, W>)
        ensures
            peers@ == Map::<usize, Peer<S, W>>::empty(),
    {
        Peers { peers: HashMap::new() }
    }

    /// Takes an event: a peer that connects is known from then on, and one that goes away is not;
    /// a line is handled where its peer is known.
    pub fn handle(&mut self, event: Event<W>) -> (action: PeerAction)
        ensures
            match event.msg {
                Message::New(stream) => {
                    &&& action == PeerAction::Nothing
                    &&& final(self)@.contains_key(event.peer_id)
                    &&& final(self)@[event.peer_id]@ == (PeerView::<S, W> {
                        client: ClientView { tip: None, status: Map::empty() },
                        stream,
                    })
                    &&& final(self)@.remove(event.peer_id) == old(self)@.remove(event.peer_id)
                },
                Message::Request(line) => {
                    &&& action == if old(self)@.contains_key(event.peer_id) {
                        PeerAction::HandleRequest { peer_id: event.peer_id, line }
                    } else {
                        PeerAction::UnknownPeer { peer_id: event.peer_id, line }
                    }
                    &&& final(self)@ == old(self)@
                },
                Message::Done => {
                    &&& action == PeerAction::Nothing
                    &&& final(self)@ == old(self)@.remove(event.peer_id)
                },
            },
    {
        let Event { peer_id, msg } = event;
        match msg {
            Message::New(stream) => {
                self.peers.insert(peer_id, Peer::new(stream));
                assert(self@.remove(peer_id) =~= old(self)@.remove(peer_id));
                PeerAction::Nothing
            },
            Message::Request(line) => if self.peers.contains_key(&peer_id) {
                PeerAction::HandleRequest { peer_id, line }
            } else {
                PeerAction::UnknownPeer { peer_id, line }
            },
            Message::Done => {
                self.peers.remove(&peer_id);
                assert(self@ =~= old(self)@.remove(peer_id));
                PeerAction::Nothing
            },
        }
    }

    /// Takes a peer out whose request failed; its connection is to be shut down.
    pub fn drop_peer(&mut self, peer_id: usize) -> (peer: Option<Peer<S, W>>)
        ensures
            final(self)@ == old(self)@.remove(peer_id),
            match peer {
                Some(peer) => old(self)@.contains_key(peer_id) && old(self)@[peer_id] == peer,
                None => !old(self)@.contains_key(peer_id),
            },
    {
        let peer = self.peers.remove(&peer_id);
        assert(self@ =~= old(self)@.remove(peer_id));
        peer
    }
}

/// What is said of a line that is no request.
pub open spec fn invalid_request(line: Seq<char>) -> Seq<char> {
    "invalid request: "@ + line
}

/// Reads the JSON value that a line is; the error is for the log.
pub fn read_request(line: &str) -> (request: Result<JsonValue, String>)
    ensures
        match request {
            Ok(json) => json_codec::json_read(line@) == JsonRead::Value(json@),
            Err(message) => {
                &&& json_codec::json_read(line@) is Error
                &&& message@ == invalid_request(line@)
                &&& text::ends_with(message@, line@)
            },
        },
{
    match read_json(line) {
        Ok(json) => Ok(json),
        Err(_) => {
            proof {
                text::what_is_put_behind_ends_it("invalid request: "@, line@);
            }
            Err(join("invalid request: ", line))
        },
    }
}

/// What is said of a request that could not be handled.
pub fn unhandled_request(line: &str) -> (message: String)
    ensures
        message@ == "failed to handle request: "@ + line@,
{
    join("failed to handle request: ", line)
}

/// Writes a response as a line.
pub fn response_line(response: JsonValue) -> (bytes: Vec<u8>)
    ensures
        bytes@ == vstd::utf8::encode_utf8(json_codec::json_text(response@)).push(LINE_FEED),
        !vstd::utf8::encode_utf8(json_codec::json_text(response@)).contains(LINE_FEED),
{
    let mut bytes = write_json(response);
    bytes.push(LINE_FEED);
    bytes
}

/// Decides what the server does when it wakes: it stops when it is told to or when the daemon
/// goes, it fails when it is cut off, and else it goes on.
pub fn on_wake<W>(wake: Wake<W>) -> (step: ServerStep<W>)
    ensures
        match wake {
            Wake::Signal(Some(Signal::Exit)) => step == ServerStep::<W>::Stop,
            Wake::Signal(Some(Signal::Trigger)) => step == ServerStep::<W>::Update,
            Wake::Signal(None) => step matches ServerStep::Fail(message) && message@
                == "signal channel disconnected"@,
            Wake::Tip { more } => step == if more {
                ServerStep::<W>::Update
            } else {
                ServerStep::<W>::Stop
            },
            Wake::Event(Some(event)) => step == ServerStep::Handle(event),
            Wake::Event(None) => step matches ServerStep::Fail(message) && message@
                == "server disconnected"@,
        },
{
    match wake {
        Wake::Signal(Some(Signal::Exit)) => ServerStep::Stop,
        Wake::Signal(Some(Signal::Trigger)) => ServerStep::Update,
        Wake::Signal(None) => ServerStep::Fail("signal channel disconnected".to_owned()),
        Wake::Tip { more } => if more {
            ServerStep::Update
        } else {
            ServerStep::Stop
        },
        Wake::Event(Some(event)) => ServerStep::Handle(event),
        Wake::Event(None) => ServerStep::Fail("server disconnected".to_owned()),
    }
}

/// Decides what the server does once an event is handled: all events that wait are handled before
/// everything is brought up to date.
pub fn on_waiting<W>(waiting: Waiting<W>) -> (step: ServerStep<W>)
    ensures
        match waiting {
            Waiting::Event(event) => step == ServerStep::Handle(event),
            Waiting::Empty => step == ServerStep::<W>::Update,
            Waiting::Closed => step matches ServerStep::Fail(message) && message@
                == "server disconnected"@,
        },
{
    match waiting {
        Waiting::Event(event) => ServerStep::Handle(event),
        Waiting::Empty => ServerStep::Update,
        Waiting::Closed => ServerStep::Fail("server disconnected".to_owned()),
    }
}

/// Decides what becomes of a connection after a read: a line is passed on, the end of the stream
/// ends it, and an error ends it with a message.
pub fn on_received<W>(peer_id: usize, received: Option<Result<String, std::io::Error>>) -> (step:
    ReceiveStep<W>)
    ensures
        match received {
            Some(Ok(line)) => step == ReceiveStep::Send(
                (Event::<W> { peer_id, msg: Message::Request(line) }),
            ),
            Some(Err(_)) => step matches ReceiveStep::Fail(message) && message@
                == text::decimal_text(peer_id as nat) + ": recv failed"@,
            None => step == ReceiveStep::<W>::Stop,
        },
{
    match received {
        Some(Ok(line)) => ReceiveStep::Send(Event { peer_id, msg: Message::Request(line) }),
        Some(Err(_)) => ReceiveStep::Fail(join(decimal(peer_id).as_str(), ": recv failed")),
        None => ReceiveStep::Stop,
    }
}

/// What came of passing on a tip.
#[derive(Debug, Clone, Copy, PartialEq, Eq, Structural)]
pub enum TipPassed {
    Taken,
    Full,
    Closed,
}

/// Decides whether to go on looking for tips: a tip that is not taken because another waits is no
/// loss.
pub fn on_tip_passed(passed: TipPassed) -> (result: Result<(), String>)
    ensures
        match result {
            Ok(_) => passed != TipPassed::Closed,
            Err(message) => passed == TipPassed::Closed && message@
                == "tip receiver disconnected"@,
        },
{
    match passed {
        TipPassed::Taken => Ok(()),
        TipPassed::Full => Ok(()),
        TipPassed::Closed => Err("tip receiver disconnected".to_owned()),
    }
}

} // verus!
