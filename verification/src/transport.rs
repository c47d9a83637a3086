//! What travels between the streamer and one browser, whatever the carrier.

use crate::api_bindings::{
    GeneralServerMessage, StreamColorspace, TransportChannelId,
};
use crate::ipc::StreamerIpcMessage;
use std::collections::VecDeque;
use vstd::prelude::*;

verus! {

/// What a browser asks of the stream that it starts.
#[derive(Clone, Copy, Debug, PartialEq, Eq, Structural)]
pub struct StreamSettings {
    pub bitrate: u32,
    pub packet_size: u32,
    pub fps: u32,
    pub width: u32,
    pub height: u32,
    pub play_audio_local: bool,
    pub video_supported_formats: u32,
    pub video_colorspace: StreamColorspace,
    pub video_color_range_full: bool,
}

/// The delay that the streaming host reports for its own work on the frames
/// of one interval, in nanoseconds.
#[derive(Clone, Copy, Debug, PartialEq, Eq, Structural)]
pub struct StatsHostProcessingLatency {
    pub min_host_processing_latency_ns: u64,
    pub max_host_processing_latency_ns: u64,
    pub avg_host_processing_latency_ns: u64,
}

/// A report on the stream for the browsers. All times are in nanoseconds.
#[derive(Clone, Copy, Debug, PartialEq, Eq, Structural)]
pub enum StreamerStatsUpdate {
    Rtt { rtt_ns: u64, rtt_variance_ns: u64 },
    Video {
        /// `None` if the host reported no delay in the interval.
        host_processing_latency: Option<StatsHostProcessingLatency>,
        min_streamer_processing_time_ns: u64,
        max_streamer_processing_time_ns: u64,
        avg_streamer_processing_time_ns: u64,
    },
}

/// What the streamer sends to a browser, apart from video and audio.
#[derive(Clone, Copy, Debug, PartialEq, Eq, Structural)]
pub enum OutboundPacket {
    General { message: GeneralServerMessage },
    Stats(StreamerStatsUpdate),
    ControllerRumble { controller_number: u8, low_frequency_motor: u16, high_frequency_motor: u16 },
    ControllerTriggerRumble {
        controller_number: u8,
        left_trigger_motor: u16,
        right_trigger_motor: u16,
    },
}

/// What a browser sends to the streamer: the input of its user.
///
/// Codes of the streaming protocol (actions, buttons, modifiers, flags, kinds
/// of controller and of touch event) are carried as the numbers they are on
/// the wire. Fractions of a touch are carried as the bits of their 32-bit
/// floating point form.
#[allow(inconsistent_fields)]
#[derive(Clone, Debug, PartialEq, Eq)]
pub enum InboundPacket {
    MousePosition { x: i16, y: i16, reference_width: i16, reference_height: i16 },
    MouseButton { action: u8, button: u8 },
    MouseMove { delta_x: i16, delta_y: i16 },
    HighResScroll { delta_x: i16, delta_y: i16 },
    Scroll { delta_x: i8, delta_y: i8 },
    Key { action: u8, modifiers: i8, key: u16, flags: i8 },
    Text { text: String },
    Touch {
        pointer_id: u32,
        x: u32,
        y: u32,
        pressure_or_distance: u32,
        contact_area_major: u32,
        contact_area_minor: u32,
        rotation: Option<u16>,
        event_type: u8,
    },
    ControllerConnected { id: u8, ty: u8, supported_buttons: u32, capabilities: u16 },
    ControllerDisconnected { id: u8 },
    ControllerState {
        id: u8,
        buttons: u32,
        left_trigger: u8,
        right_trigger: u8,
        left_stick_x: i16,
        left_stick_y: i16,
        right_stick_x: i16,
        right_stick_y: i16,
    },
}

/// Why a transport yields no further event.
#[derive(Clone, Debug, PartialEq, Eq)]
pub enum TransportError {
    /// The transport is closed.
    Closed,
    /// The carrier failed; the text says how.
    Implementation(String),
}

/// What a transport reports to the streamer.
#[derive(Clone, Debug, PartialEq, Eq)]
pub enum TransportEvent {
    /// The transport wants the server to relay something.
    SendIpc(StreamerIpcMessage),
    /// The browser asks for the stream to begin.
    StartStream { settings: StreamSettings },
    /// Input from the browser.
    RecvPacket(InboundPacket),
    Closed,
}

/// The channel of the gamepad `id`: the channels of the 16 gamepads follow
/// one another from `CONTROLLER0` on.
pub open spec fn controller_channel_spec(id: u8) -> Option<u8> {
    if id < 16 {
        Some((10 + id) as u8)
    } else {
        None
    }
}

/// The channel of the gamepad `id`, if there is such a gamepad.
pub fn controller_channel(id: u8) -> (r: Option<u8>)
    ensures
        r == controller_channel_spec(id),
{
    if id < 16 {
        Some(TransportChannelId::CONTROLLER0 + id)
    } else {
        None
    }
}

/// Frames a packet for the single stream of a web socket: the number of its
/// channel in one byte, then the packet.
pub fn frame_packet(channel: u8, payload: &[u8]) -> (r: Vec<u8>)
    ensures
        r@ == seq![channel] + payload@,
{
    let mut frame: Vec<u8> = Vec::new();
    frame.push(channel);
    let mut i: usize = 0;
    while i < payload.len()
        invariant
            i <= payload.len(),
            frame@ == seq![channel] + payload@.subrange(0, i as int),
        decreases payload.len() - i,
    {
        frame.push(payload[i]);
        i += 1;
    }
    assert(payload@.subrange(0, i as int) == payload@);
    frame
}

/// Takes a frame of a web socket apart into the number of its channel and
/// the packet. An empty frame has no channel and is no frame.
pub fn split_frame(frame: &[u8]) -> (r: Option<(u8, Vec<u8>)>)
    ensures
        frame@.len() == 0 ==> r is None,
        frame@.len() > 0 ==> (r matches Some((channel, payload)) && channel == frame@[0]
            && payload@ == frame@.subrange(1, frame@.len() as int)),
{
    if frame.len() == 0 {
        return None;
    }
    let mut payload: Vec<u8> = Vec::new();
    let mut i: usize = 1;
    while i < frame.len()
        invariant
            1 <= i <= frame.len(),
            payload@ == frame@.subrange(1, i as int),
        decreases frame.len() - i,
    {
        payload.push(frame[i]);
        i += 1;
    }
    Some((frame[0], payload))
}

/// Framing and then taking apart gives back the channel and the packet.
pub proof fn lemma_frame_round_trip(channel: u8, payload: Seq<u8>)
    ensures
        (seq![channel] + payload)[0] == channel,
        (seq![channel] + payload).subrange(1, (seq![channel] + payload).len() as int) == payload,
{
}

/// What waits in a queue of `capacity` places after `item` came: the items
/// that waited and the new one, without the oldest where there is no place
/// left. A queue without places keeps nothing.
pub open spec fn queued<T>(waiting: Seq<T>, capacity: nat, item: T) -> Seq<T> {
    if capacity == 0 {
        waiting
    } else if waiting.len() >= capacity {
        waiting.drop_first().push(item)
    } else {
        waiting.push(item)
    }
}

/// What a queue of `capacity` places gives up when `item` comes: the oldest
/// item where there is no place left, and `item` itself where the queue has
/// no places.
pub open spec fn displaced<T>(waiting: Seq<T>, capacity: nat, item: T) -> Option<T> {
    if capacity == 0 {
        Some(item)
    } else if waiting.len() >= capacity {
        Some(waiting[0])
    } else {
        None
    }
}

/// The video frames or audio samples that wait to be sent to one browser.
///
/// The queue holds as many items as it has places. An item that comes when
/// no place is left takes the place of the oldest, so that what is sent is
/// never older than it has to be, and the sender is never held up.
pub struct MediaQueue<T> {
    items: VecDeque<T>,
    capacity: usize,
}

/// A media queue as a mathematical value.
pub struct MediaQueueView<T> {
    /// The items that wait, the oldest first.
    pub waiting: Seq<T>,
    pub capacity: usize,
}

impl<T> View for MediaQueue<T> {
    type V = MediaQueueView<T>;

    closed spec fn view(&self) -> MediaQueueView<T> {
        MediaQueueView { waiting: self.items@, capacity: self.capacity }
    }
}

impl<T> MediaQueue<T> {
    /// No more items wait than the queue has places. This holds of what
    /// `new` hands out, and the functions keep it.
    pub open spec fn wf(&self) -> bool {
        self@.waiting.len() <= self@.capacity
    }

    /// An empty queue of `capacity` places.
    pub fn new(capacity: usize) -> (r: Self)
        ensures
            r.wf(),
            r@.waiting == Seq::<T>::empty(),
            r@.capacity == capacity,
    {
        MediaQueue { items: VecDeque::new(), capacity }
    }

    pub fn len(&self) -> (r: usize)
        ensures
            r == self@.waiting.len(),
    {
        self.items.len()
    }

    pub fn capacity(&self) -> (r: usize)
        ensures
            r == self@.capacity,
    {
        self.capacity
    }

    /// Takes an item in. Hands back what had to go for it, if anything.
    pub fn push(&mut self, item: T) -> (r: Option<T>)
        requires
            old(self).wf(),
        ensures
            final(self).wf(),
            final(self)@.capacity == old(self)@.capacity,
            final(self)@.waiting == queued(
                old(self)@.waiting,
                old(self)@.capacity as nat,
                item,
            ),
            r == displaced(old(self)@.waiting, old(self)@.capacity as nat, item),
    {
        if self.capacity == 0 {
            return Some(item);
        }
        let dropped = if self.items.len() >= self.capacity {
            self.items.pop_front()
        } else {
            None
        };
        self.items.push_back(item);
        dropped
    }

    /// Takes the oldest item out.
    pub fn pop(&mut self) -> (r: Option<T>)
        requires
            old(self).wf(),
        ensures
            final(self).wf(),
            final(self)@.capacity == old(self)@.capacity,
            old(self)@.waiting.len() == 0 ==> r is None && final(self)@.waiting == old(self)@.waiting,
            old(self)@.waiting.len() > 0 ==> r == Some(old(self)@.waiting[0]) && final(self)@.waiting == old(self)@.waiting.drop_first(),
    {
        self.items.pop_front()
    }
}

/// However many items come, a queue never holds more than it has places,
/// and what it holds are the newest items in the order in which they came.
pub proof fn lemma_queue_keeps_the_newest<T>(waiting: Seq<T>, capacity: nat, item: T)
    requires
        waiting.len() <= capacity,
        capacity > 0,
    ensures
        queued(waiting, capacity, item).len() <= capacity,
        queued(waiting, capacity, item).last() == item,
        waiting.len() < capacity ==> queued(waiting, capacity, item) == waiting.push(item),
        waiting.len() == capacity ==> queued(waiting, capacity, item) == waiting.subrange(
            1,
            waiting.len() as int,
        ).push(item),
{
}

} // verus!
