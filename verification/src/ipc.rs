//! The messages between the web server and its streamer processes, and the
//! framing of the streams that carry them.

use crate::api_bindings::{PlayerSlot, RoomRole, StreamClientMessage, StreamServerMessage};
use crate::config::{LevelFilter, WebRtcConfig};
use vstd::prelude::*;
use vstd::string::StringSliceAdditionalSpecFns;

verus! {

/// What a streamer is told of the server's configuration.
#[derive(Clone, Debug, PartialEq, Eq)]
pub struct StreamerConfig {
    pub webrtc: WebRtcConfig,
    pub log_level: LevelFilter,
}

/// Names one connected browser. The server hands the numbers out in rising
/// order and never twice.
#[derive(Clone, Copy, Debug, PartialEq, Eq, Hash, Structural)]
pub struct PeerId(pub u64);

/// What the server tells a streamer.
#[derive(Clone, Debug, PartialEq, Eq)]
pub enum ServerIpcMessage {
    Init {
        config: StreamerConfig,
        host_address: String,
        host_http_port: u16,
        client_unique_id: Option<String>,
        /// The client's private key, PEM encoded.
        client_private_key: String,
        /// The client's certificate, PEM encoded.
        client_certificate: String,
        /// The host's certificate, PEM encoded.
        server_certificate: String,
        app_id: u32,
        video_frame_queue_size: usize,
        audio_sample_queue_size: usize,
    },
    /// A browser joined the room.
    PeerConnected {
        peer_id: PeerId,
        player_slot: Option<PlayerSlot>,
        role: RoomRole,
        video_frame_queue_size: usize,
        audio_sample_queue_size: usize,
    },
    /// A participant became player or spectator.
    PeerRoleChanged { peer_id: PeerId, new_role: RoomRole, player_slot: Option<PlayerSlot> },
    /// A browser left the room.
    PeerDisconnected { peer_id: PeerId },
    /// A message of no browser in particular.
    WebSocket(StreamClientMessage),
    /// A message of one browser.
    PeerWebSocket { peer_id: PeerId, message: StreamClientMessage },
    /// Transport data of no browser in particular.
    WebSocketTransport(Vec<u8>),
    /// Transport data of one browser.
    PeerWebSocketTransport { peer_id: PeerId, data: Vec<u8> },
    /// Let the guests use keyboard and mouse, or not.
    SetGuestsKeyboardMouseEnabled { enabled: bool },
    Stop,
}

/// What a streamer tells the server.
#[derive(Clone, Debug, PartialEq, Eq)]
pub enum StreamerIpcMessage {
    /// A message for every browser of the room.
    WebSocket(StreamServerMessage),
    /// A message for one browser.
    PeerWebSocket { peer_id: PeerId, message: StreamServerMessage },
    /// Transport data for every browser of the room.
    WebSocketTransport(Vec<u8>),
    /// Transport data for one browser.
    PeerWebSocketTransport { peer_id: PeerId, data: Vec<u8> },
    /// The transport of a browser is negotiated.
    PeerReady { peer_id: PeerId },
    Stop,
}

/// How many messages may wait to be written in one direction. Who wants to
/// send one more waits until there is room.
pub const IPC_QUEUE_CAPACITY: usize = 10;

/// The byte that ends a record.
pub const RECORD_END: u8 = 10;

/// Frames a record for the stream: its bytes, then the byte that ends it.
pub fn frame_record(json: &str) -> (r: Vec<u8>)
    ensures
        r@ == json.spec_bytes().push(RECORD_END),
{
    let bytes = json.as_bytes();
    let mut frame: Vec<u8> = Vec::new();
    let mut i: usize = 0;
    while i < bytes.len()
        invariant
            i <= bytes@.len(),
            bytes@ == json.spec_bytes(),
            frame@ == bytes@.subrange(0, i as int),
        decreases bytes.len() - i,
    {
        frame.push(bytes[i]);
        i += 1;
    }
    assert(bytes@.subrange(0, i as int) == bytes@);
    frame.push(RECORD_END);
    frame
}

/// The writing end of a stream of records.
///
/// A record that cannot be written ends the writing: every later record is
/// dropped.
#[derive(Debug)]
pub struct IpcSender {
    terminated: bool,
}

impl View for IpcSender {
    type V = bool;

    /// Whether the writing has ended.
    closed spec fn view(&self) -> bool {
        self.terminated
    }
}

impl IpcSender {
    pub fn new() -> (r: Self)
        ensures
            !r@,
    {
        IpcSender { terminated: false }
    }

    pub fn is_terminated(&self) -> (r: bool)
        ensures
            r == self@,
    {
        self.terminated
    }

    /// The bytes to write for a message, given its JSON text, or `None` for
    /// a message that has no JSON text. Nothing is written for a message
    /// without text, nor after the writing has ended.
    pub fn send(&self, json: Option<&str>) -> (r: Option<Vec<u8>>)
        ensures
            match json {
                Some(json) => if self@ {
                    r is None
                } else {
                    r matches Some(frame) && frame@ == json.spec_bytes().push(RECORD_END)
                },
                None => r is None,
            },
    {
        if self.terminated {
            return None;
        }
        match json {
            Some(json) => Some(frame_record(json)),
            None => None,
        }
    }

    /// As `send`, for a caller that may block while it waits for room.
    pub fn blocking_send(&self, json: Option<&str>) -> (r: Option<Vec<u8>>)
        ensures
            match json {
                Some(json) => if self@ {
                    r is None
                } else {
                    r matches Some(frame) && frame@ == json.spec_bytes().push(RECORD_END)
                },
                None => r is None,
            },
    {
        self.send(json)
    }

    /// Notes how writing and flushing a record went: a failure ends the
    /// writing.
    pub fn on_written(&mut self, ok: bool)
        ensures
            final(self)@ == (old(self)@ || !ok),
    {
        if !ok {
            self.terminated = true;
        }
    }
}

/// What reading one line from a stream of records gave.
#[derive(Clone, Debug, PartialEq, Eq)]
pub enum LineRead {
    Line(String),
    /// The stream has ended.
    End,
    /// The stream failed.
    Failed,
}

/// What is to be done after a line was asked for.
#[derive(Clone, Debug, PartialEq, Eq)]
pub enum RecvStep {
    /// The line is to be read as a message. A line that is no message is
    /// passed over, and the next line is asked for.
    Parse(String),
    /// There are no more messages.
    End,
}

/// What follows when a line was read as a message.
#[derive(Clone, Debug, PartialEq, Eq)]
pub enum Parsed<Message> {
    /// The line is this message.
    Message(Message),
    /// The line is no message: it is passed over, and the next line is to
    /// be asked for.
    ReadNext,
}

/// The reading end of a stream of records.
///
/// A stream that failed once has ended for good.
#[derive(Debug)]
pub struct IpcReceiver {
    errored: bool,
}

impl View for IpcReceiver {
    type V = bool;

    /// Whether the stream has failed.
    closed spec fn view(&self) -> bool {
        self.errored
    }
}

impl IpcReceiver {
    pub fn new() -> (r: Self)
        ensures
            !r@,
    {
        IpcReceiver { errored: false }
    }

    /// Whether the stream has failed: no line is to be asked for any more.
    pub fn is_errored(&self) -> (r: bool)
        ensures
            r == self@,
    {
        self.errored
    }

    /// Takes what reading a line as a message gave: the message, or `None`
    /// for a line that is no message. Such a line is passed over and the next
    /// line is to be asked for; the stream has not failed over it.
    pub fn on_parsed<Message>(&mut self, parsed: Option<Message>) -> (r: Parsed<Message>)
        ensures
            final(self)@ == old(self)@,
            r == (match parsed {
                Some(message) => Parsed::Message(message),
                None => Parsed::ReadNext,
            }),
    {
        match parsed {
            Some(message) => Parsed::Message(message),
            None => Parsed::ReadNext,
        }
    }

    /// Notes what reading a line gave, and says what is to be done. After a
    /// failure the stream has ended, whatever is read later.
    pub fn recv(&mut self, read: LineRead) -> (r: RecvStep)
        ensures
            old(self)@ ==> r == RecvStep::End && final(self)@,
            !old(self)@ ==> match read {
                LineRead::Line(line) => r == RecvStep::Parse(line) && !final(self)@,
                LineRead::End => r == RecvStep::End && !final(self)@,
                LineRead::Failed => r == RecvStep::End && final(self)@,
            },
    {
        if self.errored {
            return RecvStep::End;
        }
        match read {
            LineRead::Line(line) => RecvStep::Parse(line),
            LineRead::End => RecvStep::End,
            LineRead::Failed => {
                self.errored = true;
                RecvStep::End
            },
        }
    }
}

/// The place of the first byte of `bytes` that ends a record, from `from`
/// on; the length of `bytes` if there is none.
pub open spec fn record_end(bytes: Seq<u8>, from: int) -> int
    decreases bytes.len() - from,
{
    if from < 0 || from >= bytes.len() {
        bytes.len() as int
    } else if bytes[from] == RECORD_END {
        from
    } else {
        record_end(bytes, from + 1)
    }
}

/// The first record end lies in the bytes or at their end, and no byte
/// before it ends a record.
pub proof fn lemma_record_end(bytes: Seq<u8>, from: int)
    requires
        0 <= from <= bytes.len(),
    ensures
        from <= record_end(bytes, from) <= bytes.len(),
        record_end(bytes, from) < bytes.len() ==> bytes[record_end(bytes, from)] == RECORD_END,
        forall|i: int| from <= i < record_end(bytes, from) ==> bytes[i] != RECORD_END,
    decreases bytes.len() - from,
{
    if from < bytes.len() && bytes[from] != RECORD_END {
        lemma_record_end(bytes, from + 1);
    }
}

/// The bytes of a stream of records that arrived and are not taken apart
/// yet.
#[derive(Debug)]
pub struct LineBuffer {
    pending: Vec<u8>,
}

impl View for LineBuffer {
    type V = Seq<u8>;

    closed spec fn view(&self) -> Seq<u8> {
        self.pending@
    }
}

impl LineBuffer {
    pub fn new() -> (r: Self)
        ensures
            r@ == Seq::<u8>::empty(),
    {
        LineBuffer { pending: Vec::new() }
    }

    /// Takes in bytes that arrived.
    pub fn push(&mut self, bytes: &[u8])
        ensures
            final(self)@ == old(self)@ + bytes@,
    {
        let mut i: usize = 0;
        while i < bytes.len()
            invariant
                i <= bytes@.len(),
                self.pending@ == old(self)@ + bytes@.subrange(0, i as int),
            decreases bytes.len() - i,
        {
            self.pending.push(bytes[i]);
            i += 1;
        }
        assert(bytes@.subrange(0, i as int) == bytes@);
    }

    /// Takes the first record out: the bytes before the first byte that ends
    /// a record. Without such a byte no record is complete, and nothing is
    /// taken.
    pub fn next_record(&mut self) -> (r: Option<Vec<u8>>)
        ensures
            ({
                let end = record_end(old(self)@, 0);
                if end < old(self)@.len() {
                    r matches Some(record) && record@ == old(self)@.subrange(0, end) && final(self)@
                        == old(self)@.subrange(end + 1, old(self)@.len() as int)
                } else {
                    r is None && final(self)@ == old(self)@
                }
            }),
    {
        proof {
            lemma_record_end(self@, 0);
        }
        let mut end: usize = 0;
        while end < self.pending.len() && self.pending[end] != RECORD_END
            invariant
                end <= self.pending@.len(),
                self.pending@ == old(self)@,
                record_end(self.pending@, 0) == record_end(self.pending@, end as int),
            decreases self.pending.len() - end,
        {
            end += 1;
        }
        if end >= self.pending.len() {
            return None;
        }
        let mut record: Vec<u8> = Vec::new();
        let mut rest: Vec<u8> = Vec::new();
        let mut i: usize = 0;
        while i < end
            invariant
                i <= end < self.pending@.len(),
                record@ == self.pending@.subrange(0, i as int),
            decreases end - i,
        {
            record.push(self.pending[i]);
            i += 1;
        }
        let mut j: usize = end + 1;
        while j < self.pending.len()
            invariant
                end < j <= self.pending@.len(),
                rest@ == self.pending@.subrange(end + 1, j as int),
            decreases self.pending.len() - j,
        {
            rest.push(self.pending[j]);
            j += 1;
        }
        self.pending = rest;
        Some(record)
    }
}

/// A record that was framed and arrived whole comes out as it went in,
/// provided that it holds no byte that ends a record.
pub proof fn lemma_record_round_trip(record: Seq<u8>)
    requires
        forall|i: int| 0 <= i < record.len() ==> record[i] != RECORD_END,
    ensures
        record_end(record.push(RECORD_END), 0) == record.len(),
        record.push(RECORD_END).subrange(0, record.len() as int) == record,
{
    let framed = record.push(RECORD_END);
    lemma_record_end(framed, 0);
    let end = record_end(framed, 0);
    if end < record.len() {
        assert(framed[end] == record[end]);
    }
    if end > record.len() {
        assert(framed[record.len() as int] == RECORD_END);
    }
}

} // verus!
