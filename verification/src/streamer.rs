//! The core of one streamer: the peers of its room, their transports, the
//! state of the stream, and what becomes of each message, event and packet.
//!
//! The core decides and the caller acts. A function here takes what arrived,
//! changes the state, and hands back what is to be done: which transports get
//! a message, which are to be closed, what the streaming client is to be
//! told. The transports themselves are values of a type `T` of the caller's
//! choice, which the core keeps, hands out and gives back, and never looks
//! into.

use crate::api_bindings::{
    duplicate_ice_servers, same_ice_servers, ConnectionStatus, GeneralServerMessage, LogMessageType, StreamCapabilities, StreamClientMessage,
    StreamServerMessage, TransportType,
};
use crate::gamepads::ActiveGamepads;
use crate::ipc::{PeerId, ServerIpcMessage, StreamerConfig, StreamerIpcMessage};
use crate::peer_manager::{slot_for_role, PeerInfo, PeerManager, PeerManagerView};
use crate::peer_table::{distinct_peers, has_peer, lookup, peers_of, with, without, PeerTable};
use crate::transport::{
    InboundPacket, OutboundPacket, StreamSettings, TransportError, TransportEvent,
};
use crate::strings::{concat, decimal, push_decimal};
use vstd::prelude::*;

verus! {

/// How the streaming host encodes the video.
#[derive(Clone, Copy, Debug, PartialEq, Eq, Structural)]
pub struct VideoSetup {
    /// One of the video formats, as its number.
    pub format: u32,
    pub width: u32,
    pub height: u32,
    pub redraw_rate: u32,
    pub flags: i32,
}

/// How the streaming host encodes the audio.
#[derive(Clone, Copy, Debug, PartialEq, Eq)]
pub struct OpusMultistreamConfig {
    pub sample_rate: u32,
    pub channel_count: u32,
    pub streams: u32,
    pub coupled_streams: u32,
    pub samples_per_frame: u32,
    pub mapping: [u8; 8],
}

/// What the streaming host last said of its video and audio.
#[derive(Clone, Copy, Debug, PartialEq, Eq)]
pub struct StreamSetup {
    pub video: Option<VideoSetup>,
    pub audio: Option<OpusMultistreamConfig>,
}

/// What is told to the browsers where the streaming host said nothing: the
/// number of the plainest video format, and the layout of stereo sound.
#[derive(Clone, Copy, Debug, PartialEq, Eq)]
pub struct StreamDefaults {
    pub video_format: u32,
    pub audio: OpusMultistreamConfig,
}

/// One call of the streaming client, with the values to hand over.
///
/// The scroll variants hold the amount of one axis; the gamepad variants hold
/// the gamepad's number at the streaming host and the gamepads that are
/// plugged in after the event.
#[allow(inconsistent_fields)]
#[derive(Clone, Debug, PartialEq, Eq)]
pub enum StreamInput {
    MousePosition { x: i16, y: i16, reference_width: i16, reference_height: i16 },
    MouseButton { action: u8, button: u8 },
    MouseMove { delta_x: i16, delta_y: i16 },
    HighResScroll { amount: i16 },
    HighResHorizontalScroll { amount: i16 },
    Scroll { amount: i8 },
    HorizontalScroll { amount: i8 },
    KeyboardEvent { key: i16, action: u8, modifiers: i8, flags: i8 },
    Text { text: String },
    Touch {
        pointer_id: u32,
        x: u32,
        y: u32,
        pressure_or_distance: u32,
        contact_area_major: u32,
        contact_area_minor: u32,
        rotation: Option<u16>,
        event_type: u8,
    },
    ControllerArrival {
        controller_number: u8,
        active_gamepads: ActiveGamepads,
        ty: u8,
        supported_buttons: u32,
        capabilities: u16,
    },
    MultiController {
        controller_number: u8,
        active_gamepads: ActiveGamepads,
        buttons: u32,
        left_trigger: u8,
        right_trigger: u8,
        left_stick_x: i16,
        left_stick_y: i16,
        right_stick_x: i16,
        right_stick_y: i16,
    },
}

/// Why a packet of a browser does not reach the streaming client.
#[derive(Clone, Copy, Debug, PartialEq, Eq, Structural)]
pub enum DropReason {
    /// No stream is live.
    NoStream,
    /// The peer may not use keyboard, mouse and touch.
    InputNotAllowed,
    /// The peer has no gamepad of that number at the streaming host.
    GamepadRefused,
    /// The streaming host has no gamepad of that number.
    GamepadOutOfRange,
    /// The gamepad was never plugged in.
    GamepadNotActive,
}

/// What becomes of a packet of a browser.
#[derive(Clone, Debug, PartialEq, Eq)]
pub enum PacketOutcome {
    /// The streaming client gets these calls, in this order.
    Forward(Vec<StreamInput>),
    Dropped(DropReason),
}

/// Where a streamer stands between its start and its end.
#[derive(Clone, Copy, Debug, PartialEq, Eq, Structural)]
pub enum StreamPhase {
    /// Initialised, and no transport asked for yet.
    Ready,
    /// A transport was asked for, and no stream is live.
    Negotiating,
    /// A stream is live.
    Streaming,
    /// The streamer is ending.
    Terminating,
}

/// Why the streaming client did not start a stream.
#[derive(Clone, Copy, Debug, PartialEq, Eq, Structural)]
pub enum StartError {
    /// The streaming client already holds a connection.
    ConnectionAlreadyExists,
    Other,
}

/// What is to be done when a stream is about to start.
#[derive(Clone, Debug, PartialEq, Eq)]
pub struct StartPlan {
    /// Whether a stream was live: it is to be stopped before the new one
    /// starts.
    pub stop_previous: bool,
    /// What the browsers are told.
    pub notice: StreamerIpcMessage,
}

/// Names one transport of a streamer. The streamer hands the numbers out
/// in rising order, so that a peer's earlier transport and its later one
/// are told apart.
#[derive(Clone, Copy, Debug, PartialEq, Eq, Hash, Structural)]
pub struct TransportId(pub u64);

/// A transport as the streamer keeps it: under its number.
#[derive(Clone, Debug, PartialEq, Eq)]
pub struct PeerTransport<T> {
    pub id: TransportId,
    pub sender: T,
}

/// The number after `number`; after the highest number the count starts
/// again at 0.
pub open spec fn next_number(number: u64) -> u64 {
    if number == u64::MAX {
        0
    } else {
        (number + 1) as u64
    }
}

/// The transport that `transports` holds for `peer`.
pub open spec fn sender_of<T>(transports: Seq<(PeerId, PeerTransport<T>)>, peer: PeerId) -> Option<
    T,
> {
    match lookup(transports, peer) {
        Some(transport) => Some(transport.sender),
        None => None,
    }
}

/// Whether the transport that `transports` holds for `peer` is the one with
/// the number `id`.
pub open spec fn holds_transport<T>(
    transports: Seq<(PeerId, PeerTransport<T>)>,
    peer: PeerId,
    id: TransportId,
) -> bool {
    lookup(transports, peer) matches Some(transport) && transport.id == id
}

/// `transports` after the transport `id` of `peer` ended: without the entry
/// of `peer` if that entry is the transport `id`. A later transport of the
/// peer is left alone.
pub open spec fn ended<T>(
    transports: Seq<(PeerId, PeerTransport<T>)>,
    peer: PeerId,
    id: TransportId,
) -> Seq<(PeerId, PeerTransport<T>)> {
    if holds_transport(transports, peer, id) {
        without(transports, peer)
    } else {
        transports
    }
}

/// What is given up when the transport `id` of `peer` ended: the transport
/// itself, if it was still the peer's.
pub open spec fn given_up<T>(
    transports: Seq<(PeerId, PeerTransport<T>)>,
    peer: PeerId,
    id: TransportId,
) -> Option<T> {
    if holds_transport(transports, peer, id) {
        sender_of(transports, peer)
    } else {
        None
    }
}

/// What is to be done when the streamer ends.
#[derive(Clone, Debug, PartialEq, Eq)]
pub struct StopPlan<T> {
    /// Whether a stream was live: it is to be stopped.
    pub stop_stream: bool,
    /// The transports that were live: each is to be closed.
    pub transports: Vec<(PeerId, PeerTransport<T>)>,
    /// What the server is told: that the streamer stops.
    pub notice: StreamerIpcMessage,
}

/// How an attempt to start a stream ended.
#[derive(Clone, Debug, PartialEq, Eq)]
pub enum StartOutcome<T> {
    /// The stream is live; the browsers are told how to read it.
    Streaming { announce: StreamerIpcMessage },
    /// The streaming client was streaming already; the browsers are told so,
    /// and the streamer goes on.
    AlreadyStreaming { notice: StreamerIpcMessage },
    /// The start failed and the streamer ends. The plan is `None` if the
    /// streamer was ending already.
    Terminated { plan: Option<StopPlan<T>> },
    /// The stream started while the streamer was ending: it is to be stopped.
    Discarded,
}

/// What happened to a new transport.
#[derive(Clone, Debug, PartialEq, Eq)]
pub enum TransportSwap<T> {
    /// It is the peer's transport now, under the number `transport_id`: what
    /// the transport reports is handed to `on_transport_event` under that
    /// number. The one it replaced, if any, is to be closed.
    Installed { transport_id: TransportId, replaced: Option<T> },
    /// The streamer is ending: the new transport is to be closed.
    Refused { transport: T },
}

/// What is to be done with a message of the server.
#[derive(Clone, Debug, PartialEq, Eq)]
pub enum IpcOutcome<T> {
    /// Nothing.
    Handled,
    /// A transport of this kind is to be made, with queues of these sizes,
    /// and handed to `set_peer_transport` for this peer.
    CreateTransport {
        peer_id: PeerId,
        transport_type: TransportType,
        video_frame_queue_size: usize,
        audio_sample_queue_size: usize,
    },
    /// The message goes to the transports of these peers.
    Forward { recipients: Vec<PeerId>, message: ServerIpcMessage },
    /// A peer left. Its transport, if it had one, is to be closed.
    PeerGone { transport: Option<T> },
    /// The server asked the streamer to stop. The plan is `None` if the
    /// streamer was ending already.
    Stopped { plan: Option<StopPlan<T>> },
}

/// What is to be done with an event of a peer's transport.
#[derive(Clone, Debug, PartialEq, Eq)]
pub enum EventOutcome<T> {
    /// The server is to relay this.
    Relay { message: StreamerIpcMessage },
    /// A stream is to be started with these settings.
    StartStream { settings: StreamSettings },
    /// Input of the peer, and what becomes of it.
    Input { outcome: PacketOutcome },
    /// The transport is closed: no more events are to be asked of it. It is
    /// handed back if it was still the peer's transport, which it is no
    /// more.
    Closed { transport: Option<T> },
    /// The carrier failed: no more events are to be asked of the transport.
    /// It is handed back if it was still the peer's transport, which it is
    /// no more.
    Failed { transport: Option<T> },
}

/// The streamer's core as a mathematical value.
pub struct StreamConnectionView<T> {
    pub peers: PeerManagerView,
    /// The live transports, each with the peer it belongs to, oldest first.
    pub transports: Seq<(PeerId, PeerTransport<T>)>,
    /// The number of the next transport.
    pub next_transport_id: u64,
    pub config: StreamerConfig,
    /// The peer whose input is being handled.
    pub current_peer_id: Option<PeerId>,
    pub stream_live: bool,
    pub active_gamepads: ActiveGamepads,
    pub stream_setup: StreamSetup,
    pub terminating: bool,
    /// Whether a transport was ever asked for.
    pub negotiating: bool,
    pub video_frame_queue_size: usize,
    pub audio_sample_queue_size: usize,
}

impl<T> StreamConnectionView<T> {
    /// No peer has two transports, and a streamer that is ending has neither
    /// a transport nor a stream.
    pub open spec fn wf(self) -> bool {
        &&& distinct_peers(self.transports)
        &&& self.terminating ==> self.transports.len() == 0 && !self.stream_live
    }

    pub open spec fn phase(self) -> StreamPhase {
        if self.terminating {
            StreamPhase::Terminating
        } else if self.stream_live {
            StreamPhase::Streaming
        } else if self.negotiating {
            StreamPhase::Negotiating
        } else {
            StreamPhase::Ready
        }
    }

    /// Whether the peer whose input is being handled may use keyboard, mouse
    /// and touch. Input that comes from no peer may not.
    pub open spec fn keyboard_mouse_allowed(self) -> bool {
        match self.current_peer_id {
            Some(peer) => self.peers.can_use_keyboard_mouse(peer),
            None => false,
        }
    }

    /// The gamepad at the streaming host that stands for pad `id` of the peer
    /// whose input is being handled. Input that comes from no peer has no
    /// gamepad.
    pub open spec fn mapped_gamepad(self, id: u8) -> Option<u8> {
        match self.current_peer_id {
            Some(peer) => self.peers.map_gamepad_id(peer, id),
            None => None,
        }
    }

    /// The core after `transport` became the transport of `peer_id`: it is
    /// the peer's newest and only transport, under the next number.
    pub open spec fn installing(self, peer_id: PeerId, transport: T) -> StreamConnectionView<T> {
        StreamConnectionView {
            transports: with(
                self.transports,
                peer_id,
                PeerTransport { id: TransportId(self.next_transport_id), sender: transport },
            ),
            next_transport_id: next_number(self.next_transport_id),
            negotiating: true,
            ..self
        }
    }

    /// The queue sizes for a transport of `peer`: its own where the peer is
    /// known, else those of the streamer. Video first.
    pub open spec fn queue_sizes_for(self, peer: PeerId) -> (usize, usize) {
        match self.peers.queue_sizes(peer) {
            Some(sizes) => sizes,
            None => (self.video_frame_queue_size, self.audio_sample_queue_size),
        }
    }

    /// The core after it ended: ending, without transport and stream.
    pub open spec fn stopped(self) -> StreamConnectionView<T> {
        StreamConnectionView {
            terminating: true,
            stream_live: false,
            transports: Seq::empty(),
            ..self
        }
    }
}

/// The key code as the streaming client takes it: the same 16 bits, read as
/// a signed number.
pub open spec fn key_code(key: u16) -> i16 {
    if key < 0x8000 {
        key as i16
    } else {
        (key - 0x10000) as i16
    }
}

/// The calls for a scroll in both axes: the vertical one first, and none for
/// an axis that did not move.
pub open spec fn high_res_scroll_inputs(delta_x: i16, delta_y: i16) -> Seq<StreamInput> {
    (if delta_y != 0 {
        seq![StreamInput::HighResScroll { amount: delta_y }]
    } else {
        Seq::empty()
    }) + (if delta_x != 0 {
        seq![StreamInput::HighResHorizontalScroll { amount: delta_x }]
    } else {
        Seq::empty()
    })
}

/// As `high_res_scroll_inputs`, for the coarse scroll.
pub open spec fn scroll_inputs(delta_x: i8, delta_y: i8) -> Seq<StreamInput> {
    (if delta_y != 0 {
        seq![StreamInput::Scroll { amount: delta_y }]
    } else {
        Seq::empty()
    }) + (if delta_x != 0 {
        seq![StreamInput::HorizontalScroll { amount: delta_x }]
    } else {
        Seq::empty()
    })
}

/// What becomes of a packet, and which gamepads are plugged in afterwards.
pub struct PacketRoute {
    /// The calls of the streaming client, or why there are none.
    pub outcome: Result<Seq<StreamInput>, DropReason>,
    pub active_gamepads: ActiveGamepads,
}

/// The calls that input of keyboard, mouse or touch leads to for the peer
/// whose input is being handled, if it may use them.
pub open spec fn guarded<T>(v: StreamConnectionView<T>, inputs: Seq<StreamInput>) -> PacketRoute {
    if v.keyboard_mouse_allowed() {
        PacketRoute { outcome: Ok(inputs), active_gamepads: v.active_gamepads }
    } else {
        PacketRoute {
            outcome: Err(DropReason::InputNotAllowed),
            active_gamepads: v.active_gamepads,
        }
    }
}

/// The gamepad at the streaming host that an event of pad `id` is about, as
/// its number and its mask; or why the event is dropped.
pub open spec fn gamepad_target<T>(v: StreamConnectionView<T>, id: u8) -> Result<
    (u8, ActiveGamepads),
    DropReason,
> {
    match v.mapped_gamepad(id) {
        None => Err(DropReason::GamepadRefused),
        Some(mapped) => match ActiveGamepads::spec_from_id(mapped) {
            None => Err(DropReason::GamepadOutOfRange),
            Some(gamepad) => Ok((mapped, gamepad)),
        },
    }
}

/// What becomes of `packet` in the state `v`.
///
/// Without a live stream every packet is dropped. Keyboard, mouse, scroll,
/// text and touch reach the streaming client only from a peer that may use
/// them. An event of a gamepad is renumbered to the peer's gamepad at the
/// streaming host: plugging in adds it to the active gamepads, pulling out
/// removes it, and a state is passed on only while it is plugged in.
pub open spec fn route_packet<T>(v: StreamConnectionView<T>, packet: InboundPacket) -> PacketRoute {
    let unchanged = v.active_gamepads;
    if !v.stream_live {
        PacketRoute { outcome: Err(DropReason::NoStream), active_gamepads: unchanged }
    } else {
        match packet {
            InboundPacket::MousePosition { x, y, reference_width, reference_height } => guarded(
                v,
                seq![StreamInput::MousePosition { x, y, reference_width, reference_height }],
            ),
            InboundPacket::MouseButton { action, button } => guarded(
                v,
                seq![StreamInput::MouseButton { action, button }],
            ),
            InboundPacket::MouseMove { delta_x, delta_y } => guarded(
                v,
                seq![StreamInput::MouseMove { delta_x, delta_y }],
            ),
            InboundPacket::HighResScroll { delta_x, delta_y } => guarded(
                v,
                high_res_scroll_inputs(delta_x, delta_y),
            ),
            InboundPacket::Scroll { delta_x, delta_y } => guarded(
                v,
                scroll_inputs(delta_x, delta_y),
            ),
            InboundPacket::Key { action, modifiers, key, flags } => guarded(
                v,
                seq![StreamInput::KeyboardEvent { key: key_code(key), action, modifiers, flags }],
            ),
            InboundPacket::Text { text } => guarded(v, seq![StreamInput::Text { text }]),
            InboundPacket::Touch {
                pointer_id,
                x,
                y,
                pressure_or_distance,
                contact_area_major,
                contact_area_minor,
                rotation,
                event_type,
            } => guarded(
                v,
                seq![
                    StreamInput::Touch {
                        pointer_id,
                        x,
                        y,
                        pressure_or_distance,
                        contact_area_major,
                        contact_area_minor,
                        rotation,
                        event_type,
                    },
                ],
            ),
            InboundPacket::ControllerConnected { id, ty, supported_buttons, capabilities } => {
                match gamepad_target(v, id) {
                    Err(reason) => PacketRoute { outcome: Err(reason), active_gamepads: unchanged },
                    Ok((mapped, gamepad)) => {
                        let active = unchanged.union(gamepad);
                        PacketRoute {
                            outcome: Ok(
                                seq![
                                    StreamInput::ControllerArrival {
                                        controller_number: mapped,
                                        active_gamepads: active,
                                        ty,
                                        supported_buttons,
                                        capabilities,
                                    },
                                ],
                            ),
                            active_gamepads: active,
                        }
                    },
                }
            },
            InboundPacket::ControllerDisconnected { id } => {
                match gamepad_target(v, id) {
                    Err(reason) => PacketRoute { outcome: Err(reason), active_gamepads: unchanged },
                    Ok((mapped, gamepad)) => {
                        let active = unchanged.difference(gamepad);
                        PacketRoute {
                            outcome: Ok(
                                seq![
                                    StreamInput::MultiController {
                                        controller_number: mapped,
                                        active_gamepads: active,
                                        buttons: 0,
                                        left_trigger: 0,
                                        right_trigger: 0,
                                        left_stick_x: 0,
                                        left_stick_y: 0,
                                        right_stick_x: 0,
                                        right_stick_y: 0,
                                    },
                                ],
                            ),
                            active_gamepads: active,
                        }
                    },
                }
            },
            InboundPacket::ControllerState {
                id,
                buttons,
                left_trigger,
                right_trigger,
                left_stick_x,
                left_stick_y,
                right_stick_x,
                right_stick_y,
            } => {
                match gamepad_target(v, id) {
                    Err(reason) => PacketRoute { outcome: Err(reason), active_gamepads: unchanged },
                    Ok((mapped, gamepad)) => {
                        if !unchanged.spec_contains(gamepad) {
                            PacketRoute {
                                outcome: Err(DropReason::GamepadNotActive),
                                active_gamepads: unchanged,
                            }
                        } else {
                            PacketRoute {
                                outcome: Ok(
                                    seq![
                                        StreamInput::MultiController {
                                            controller_number: mapped,
                                            active_gamepads: unchanged,
                                            buttons,
                                            left_trigger,
                                            right_trigger,
                                            left_stick_x,
                                            left_stick_y,
                                            right_stick_x,
                                            right_stick_y,
                                        },
                                    ],
                                ),
                                active_gamepads: unchanged,
                            }
                        }
                    },
                }
            },
        }
    }
}

/// Whether `outcome` is what `route` says: the same calls in the same order,
/// or the same reason.
pub open spec fn outcome_is(outcome: PacketOutcome, route: PacketRoute) -> bool {
    match route.outcome {
        Ok(inputs) => outcome matches PacketOutcome::Forward(calls) && calls@ == inputs,
        Err(reason) => outcome == PacketOutcome::Dropped(reason),
    }
}

/// The message of a transport as the server gets it: what was meant for the
/// browser in general is marked as meant for the transport's peer.
pub open spec fn relayed_for(peer_id: PeerId, message: StreamerIpcMessage) -> StreamerIpcMessage {
    match message {
        StreamerIpcMessage::WebSocket(message) => StreamerIpcMessage::PeerWebSocket {
            peer_id,
            message,
        },
        StreamerIpcMessage::WebSocketTransport(data) => StreamerIpcMessage::PeerWebSocketTransport {
            peer_id,
            data,
        },
        other => other,
    }
}

/// The core of one streamer.
pub struct StreamConnection<T> {
    config: StreamerConfig,
    video_frame_queue_size: usize,
    audio_sample_queue_size: usize,
    stream_setup: StreamSetup,
    stream_live: bool,
    active_gamepads: ActiveGamepads,
    peer_transports: PeerTable<PeerTransport<T>>,
    next_transport_id: u64,
    is_terminating: bool,
    negotiating: bool,
    peer_manager: PeerManager,
    current_peer_id: Option<PeerId>,
}

impl<T> View for StreamConnection<T> {
    type V = StreamConnectionView<T>;

    closed spec fn view(&self) -> StreamConnectionView<T> {
        StreamConnectionView {
            peers: self.peer_manager@,
            transports: self.peer_transports@,
            next_transport_id: self.next_transport_id,
            config: self.config,
            current_peer_id: self.current_peer_id,
            stream_live: self.stream_live,
            active_gamepads: self.active_gamepads,
            stream_setup: self.stream_setup,
            terminating: self.is_terminating,
            negotiating: self.negotiating,
            video_frame_queue_size: self.video_frame_queue_size,
            audio_sample_queue_size: self.audio_sample_queue_size,
        }
    }
}

impl<T> StreamConnection<T> {
    /// Whether the core is well formed. Every core that `new` hands out is,
    /// and the functions of the core keep it so.
    pub open spec fn wf(&self) -> bool {
        self@.wf()
    }

    /// The configuration that the core was made with.
    pub open spec fn spec_config(&self) -> StreamerConfig {
        self@.config
    }

    /// A streamer that is initialised: without peers, transports and stream.
    pub fn new(
        config: StreamerConfig,
        video_frame_queue_size: usize,
        audio_sample_queue_size: usize,
    ) -> (r: Self)
        ensures
            r.wf(),
            r.spec_config() == config,
            r@.peers.peers == Map::<u64, PeerInfo>::empty(),
            !r@.peers.guests_keyboard_mouse_enabled,
            r@.transports == Seq::<(PeerId, PeerTransport<T>)>::empty(),
            r@.next_transport_id == 0,
            r@.current_peer_id is None,
            !r@.stream_live,
            r@.active_gamepads == ActiveGamepads::spec_empty(),
            r@.stream_setup == (StreamSetup { video: None, audio: None }),
            !r@.terminating,
            !r@.negotiating,
            r@.video_frame_queue_size == video_frame_queue_size,
            r@.audio_sample_queue_size == audio_sample_queue_size,
            r@.phase() == StreamPhase::Ready,
    {
        StreamConnection {
            config,
            video_frame_queue_size,
            audio_sample_queue_size,
            stream_setup: StreamSetup { video: None, audio: None },
            stream_live: false,
            active_gamepads: ActiveGamepads::empty(),
            peer_transports: PeerTable::new(),
            next_transport_id: 0,
            is_terminating: false,
            negotiating: false,
            peer_manager: PeerManager::new(),
            current_peer_id: None,
        }
    }

    pub fn config(&self) -> (r: &StreamerConfig)
        ensures
            *r == self.spec_config(),
    {
        &self.config
    }

    pub fn peer_manager(&self) -> (r: &PeerManager)
        ensures
            r@ == self@.peers,
    {
        &self.peer_manager
    }

    pub fn phase(&self) -> (r: StreamPhase)
        ensures
            r == self@.phase(),
    {
        if self.is_terminating {
            StreamPhase::Terminating
        } else if self.stream_live {
            StreamPhase::Streaming
        } else if self.negotiating {
            StreamPhase::Negotiating
        } else {
            StreamPhase::Ready
        }
    }

    pub fn is_terminating(&self) -> (r: bool)
        ensures
            r == self@.terminating,
    {
        self.is_terminating
    }

    pub fn active_gamepads(&self) -> (r: ActiveGamepads)
        ensures
            r == self@.active_gamepads,
    {
        self.active_gamepads
    }

    pub fn stream_setup(&self) -> (r: StreamSetup)
        ensures
            r == self@.stream_setup,
    {
        self.stream_setup
    }

    /// The transport of a peer, if it has one.
    pub fn transport(&self, peer_id: PeerId) -> (r: Option<&T>)
        requires
            self.wf(),
        ensures
            r == (match sender_of(self@.transports, peer_id) {
                Some(t) => Some(&t),
                None => None,
            }),
    {
        match self.peer_transports.get(peer_id) {
            Some(transport) => Some(&transport.sender),
            None => None,
        }
    }

    /// The peers that have a transport, the oldest transport first.
    pub fn transport_peers(&self) -> (r: Vec<PeerId>)
        ensures
            r@ == peers_of(self@.transports),
    {
        self.peer_transports.peers()
    }

    /// Makes `transport` the transport of the peer, in place of the one that
    /// the peer had, and gives it a number. A streamer that is ending takes
    /// no transport.
    pub fn set_peer_transport(&mut self, peer_id: PeerId, transport: T) -> (r: TransportSwap<T>)
        requires
            old(self).wf(),
        ensures
            final(self).wf(),
            old(self)@.terminating ==> r == (TransportSwap::Refused { transport }) && final(self)@
                == old(self)@,
            !old(self)@.terminating ==> r == (TransportSwap::Installed {
                transport_id: TransportId(old(self)@.next_transport_id),
                replaced: sender_of(old(self)@.transports, peer_id),
            }) && final(self)@ == old(self)@.installing(peer_id, transport),
    {
        if self.is_terminating {
            return TransportSwap::Refused { transport };
        }
        let transport_id = TransportId(self.next_transport_id);
        self.next_transport_id = if self.next_transport_id == u64::MAX {
            0
        } else {
            self.next_transport_id + 1
        };
        let replaced = match self.peer_transports.insert(
            peer_id,
            PeerTransport { id: transport_id, sender: transport },
        ) {
            Some(before) => Some(before.sender),
            None => None,
        };
        self.negotiating = true;
        TransportSwap::Installed { transport_id, replaced }
    }

    /// Takes the transport of a peer out and hands it back to be closed.
    pub fn remove_peer_transport(&mut self, peer_id: PeerId) -> (r: Option<T>)
        requires
            old(self).wf(),
        ensures
            final(self).wf(),
            r == sender_of(old(self)@.transports, peer_id),
            final(self)@ == (StreamConnectionView {
                transports: without(old(self)@.transports, peer_id),
                ..old(self)@
            }),
    {
        let removed = self.peer_transports.remove(peer_id);
        proof {
            crate::peer_table::lemma_without(old(self)@.transports, peer_id);
            if old(self)@.terminating {
                assert(!has_peer(old(self)@.transports, peer_id));
            }
        }
        match removed {
            Some(transport) => Some(transport.sender),
            None => None,
        }
    }

    /// Takes the transport `transport_id` of a peer out, if it is still the
    /// peer's transport, and hands it back.
    fn end_transport(&mut self, peer_id: PeerId, transport_id: TransportId) -> (r: Option<T>)
        requires
            old(self).wf(),
        ensures
            final(self).wf(),
            r == given_up(old(self)@.transports, peer_id, transport_id),
            final(self)@ == (StreamConnectionView {
                transports: ended(old(self)@.transports, peer_id, transport_id),
                ..old(self)@
            }),
    {
        let holds = match self.peer_transports.get(peer_id) {
            Some(transport) => transport.id == transport_id,
            None => false,
        };
        if holds {
            self.remove_peer_transport(peer_id)
        } else {
            None
        }
    }

    /// Fans a packet out: one copy for the transport of each peer, the oldest
    /// transport first. Without a transport the packet is dropped.
    pub fn try_send_packet(&self, packet: OutboundPacket) -> (r: Vec<(PeerId, OutboundPacket)>)
        ensures
            r@ == Seq::new(self@.transports.len(), |i: int| (self@.transports[i].0, packet)),
    {
        let peers = self.peer_transports.peers();
        let mut copies: Vec<(PeerId, OutboundPacket)> = Vec::new();
        let mut i: usize = 0;
        while i < peers.len()
            invariant
                i <= peers@.len(),
                peers@ == peers_of(self@.transports),
                copies@.len() == i,
                forall|j: int| 0 <= j < i ==> copies@[j] == (self@.transports[j].0, packet),
            decreases peers.len() - i,
        {
            copies.push((peers[i], packet));
            i += 1;
        }
        assert(copies@ =~= Seq::new(
            self@.transports.len(),
            |i: int| (self@.transports[i].0, packet),
        ));
        copies
    }

    /// Notes the peer whose input is handled next.
    pub fn set_current_peer(&mut self, peer_id: Option<PeerId>)
        ensures
            final(self)@ == (StreamConnectionView { current_peer_id: peer_id, ..old(self)@ }),
    {
        self.current_peer_id = peer_id;
    }

    /// Decides what becomes of a packet of the peer whose input is being
    /// handled: which calls of the streaming client it leads to, or why it
    /// leads to none. See `route_packet`.
    pub fn on_packet(&mut self, packet: InboundPacket) -> (r: PacketOutcome)
        ensures
            outcome_is(r, route_packet(old(self)@, packet)),
            final(self)@ == (StreamConnectionView {
                active_gamepads: route_packet(old(self)@, packet).active_gamepads,
                ..old(self)@
            }),
            old(self).wf() ==> final(self).wf(),
    {
        if !self.stream_live {
            return PacketOutcome::Dropped(DropReason::NoStream);
        }
        let can_use_keyboard_mouse = match self.current_peer_id {
            Some(peer) => self.peer_manager.can_use_keyboard_mouse(peer),
            None => false,
        };
        let mut inputs: Vec<StreamInput> = Vec::new();
        match packet {
            InboundPacket::MousePosition { x, y, reference_width, reference_height } => {
                if !can_use_keyboard_mouse {
                    return PacketOutcome::Dropped(DropReason::InputNotAllowed);
                }
                inputs.push(StreamInput::MousePosition { x, y, reference_width, reference_height });
            },
            InboundPacket::MouseButton { action, button } => {
                if !can_use_keyboard_mouse {
                    return PacketOutcome::Dropped(DropReason::InputNotAllowed);
                }
                inputs.push(StreamInput::MouseButton { action, button });
            },
            InboundPacket::MouseMove { delta_x, delta_y } => {
                if !can_use_keyboard_mouse {
                    return PacketOutcome::Dropped(DropReason::InputNotAllowed);
                }
                inputs.push(StreamInput::MouseMove { delta_x, delta_y });
            },
            InboundPacket::HighResScroll { delta_x, delta_y } => {
                if !can_use_keyboard_mouse {
                    return PacketOutcome::Dropped(DropReason::InputNotAllowed);
                }
                if delta_y != 0 {
                    inputs.push(StreamInput::HighResScroll { amount: delta_y });
                }
                if delta_x != 0 {
                    inputs.push(StreamInput::HighResHorizontalScroll { amount: delta_x });
                }
                assert(inputs@ =~= high_res_scroll_inputs(delta_x, delta_y));
            },
            InboundPacket::Scroll { delta_x, delta_y } => {
                if !can_use_keyboard_mouse {
                    return PacketOutcome::Dropped(DropReason::InputNotAllowed);
                }
                if delta_y != 0 {
                    inputs.push(StreamInput::Scroll { amount: delta_y });
                }
                if delta_x != 0 {
                    inputs.push(StreamInput::HorizontalScroll { amount: delta_x });
                }
                assert(inputs@ =~= scroll_inputs(delta_x, delta_y));
            },
            InboundPacket::Key { action, modifiers, key, flags } => {
                if !can_use_keyboard_mouse {
                    return PacketOutcome::Dropped(DropReason::InputNotAllowed);
                }
                inputs.push(
                    StreamInput::KeyboardEvent { key: signed_key_code(key), action, modifiers, flags },
                );
            },
            InboundPacket::Text { text } => {
                if !can_use_keyboard_mouse {
                    return PacketOutcome::Dropped(DropReason::InputNotAllowed);
                }
                inputs.push(StreamInput::Text { text });
            },
            InboundPacket::Touch {
                pointer_id,
                x,
                y,
                pressure_or_distance,
                contact_area_major,
                contact_area_minor,
                rotation,
                event_type,
            } => {
                if !can_use_keyboard_mouse {
                    return PacketOutcome::Dropped(DropReason::InputNotAllowed);
                }
                inputs.push(
                    StreamInput::Touch {
                        pointer_id,
                        x,
                        y,
                        pressure_or_distance,
                        contact_area_major,
                        contact_area_minor,
                        rotation,
                        event_type,
                    },
                );
            },
            InboundPacket::ControllerConnected { id, ty, supported_buttons, capabilities } => {
                let (mapped, gamepad) = match self.gamepad_target(id) {
                    Ok(target) => target,
                    Err(reason) => {
                        return PacketOutcome::Dropped(reason);
                    },
                };
                self.active_gamepads.insert(gamepad);
                inputs.push(
                    StreamInput::ControllerArrival {
                        controller_number: mapped,
                        active_gamepads: self.active_gamepads,
                        ty,
                        supported_buttons,
                        capabilities,
                    },
                );
            },
            InboundPacket::ControllerDisconnected { id } => {
                let (mapped, gamepad) = match self.gamepad_target(id) {
                    Ok(target) => target,
                    Err(reason) => {
                        return PacketOutcome::Dropped(reason);
                    },
                };
                self.active_gamepads.remove(gamepad);
                inputs.push(
                    StreamInput::MultiController {
                        controller_number: mapped,
                        active_gamepads: self.active_gamepads,
                        buttons: 0,
                        left_trigger: 0,
                        right_trigger: 0,
                        left_stick_x: 0,
                        left_stick_y: 0,
                        right_stick_x: 0,
                        right_stick_y: 0,
                    },
                );
            },
            InboundPacket::ControllerState {
                id,
                buttons,
                left_trigger,
                right_trigger,
                left_stick_x,
                left_stick_y,
                right_stick_x,
                right_stick_y,
            } => {
                let (mapped, gamepad) = match self.gamepad_target(id) {
                    Ok(target) => target,
                    Err(reason) => {
                        return PacketOutcome::Dropped(reason);
                    },
                };
                if !self.active_gamepads.contains(gamepad) {
                    return PacketOutcome::Dropped(DropReason::GamepadNotActive);
                }
                inputs.push(
                    StreamInput::MultiController {
                        controller_number: mapped,
                        active_gamepads: self.active_gamepads,
                        buttons,
                        left_trigger,
                        right_trigger,
                        left_stick_x,
                        left_stick_y,
                        right_stick_x,
                        right_stick_y,
                    },
                );
            },
        }
        PacketOutcome::Forward(inputs)
    }

    /// The gamepad at the streaming host that an event of pad `id` of the
    /// peer whose input is being handled is about.
    fn gamepad_target(&self, id: u8) -> (r: Result<(u8, ActiveGamepads), DropReason>)
        ensures
            r == gamepad_target(self@, id),
    {
        let mapped = match self.current_peer_id {
            Some(peer) => match self.peer_manager.map_gamepad_id(peer, id) {
                Some(mapped) => mapped,
                None => {
                    return Err(DropReason::GamepadRefused);
                },
            },
            None => {
                return Err(DropReason::GamepadRefused);
            },
        };
        match ActiveGamepads::from_id(mapped) {
            Some(gamepad) => Ok((mapped, gamepad)),
            None => Err(DropReason::GamepadOutOfRange),
        }
    }
}

/// What the server's configuration of a streamer holds: the first message
/// that a streamer takes.
#[derive(Clone, Debug, PartialEq, Eq)]
pub struct StreamInit {
    pub config: StreamerConfig,
    pub host_address: String,
    pub host_http_port: u16,
    pub client_unique_id: Option<String>,
    pub client_private_key: String,
    pub client_certificate: String,
    pub server_certificate: String,
    pub app_id: u32,
    pub video_frame_queue_size: usize,
    pub audio_sample_queue_size: usize,
}

/// What a streamer that is not initialised yet makes of a message: `Init`
/// initialises it, and everything else is passed over.
pub fn accept_init(message: ServerIpcMessage) -> (r: Option<StreamInit>)
    ensures
        match message {
            ServerIpcMessage::Init {
                config,
                host_address,
                host_http_port,
                client_unique_id,
                client_private_key,
                client_certificate,
                server_certificate,
                app_id,
                video_frame_queue_size,
                audio_sample_queue_size,
            } => r == Some(
                StreamInit {
                    config,
                    host_address,
                    host_http_port,
                    client_unique_id,
                    client_private_key,
                    client_certificate,
                    server_certificate,
                    app_id,
                    video_frame_queue_size,
                    audio_sample_queue_size,
                },
            ),
            _ => r is None,
        },
{
    match message {
        ServerIpcMessage::Init {
            config,
            host_address,
            host_http_port,
            client_unique_id,
            client_private_key,
            client_certificate,
            server_certificate,
            app_id,
            video_frame_queue_size,
            audio_sample_queue_size,
        } => Some(
            StreamInit {
                config,
                host_address,
                host_http_port,
                client_unique_id,
                client_private_key,
                client_certificate,
                server_certificate,
                app_id,
                video_frame_queue_size,
                audio_sample_queue_size,
            },
        ),
        _ => None,
    }
}

/// What is to be done with a message of the server, as a mathematical value.
pub enum IpcDecision {
    Handled,
    CreateTransport {
        peer_id: PeerId,
        transport_type: TransportType,
        video_frame_queue_size: usize,
        audio_sample_queue_size: usize,
    },
    Forward { recipients: Seq<PeerId>, message: ServerIpcMessage },
    PeerGone { peer_id: PeerId },
    Stopped,
}

/// What is to be done with a message that comes from `peer`, or from no peer
/// in particular: a request for a transport leads to one being made, for
/// peer 0 where no peer is named. Everything else goes to the transport of
/// the peer, if it has one, or to every transport where no peer is named.
pub open spec fn message_decision<T>(
    v: StreamConnectionView<T>,
    message: ServerIpcMessage,
    peer: Option<PeerId>,
) -> IpcDecision {
    match message {
        ServerIpcMessage::WebSocket(StreamClientMessage::SetTransport(transport_type)) => {
            let peer_id = match peer {
                Some(peer_id) => peer_id,
                None => PeerId(0),
            };
            IpcDecision::CreateTransport {
                peer_id,
                transport_type,
                video_frame_queue_size: v.queue_sizes_for(peer_id).0,
                audio_sample_queue_size: v.queue_sizes_for(peer_id).1,
            }
        },
        _ => match peer {
            Some(peer_id) => if has_peer(v.transports, peer_id) {
                IpcDecision::Forward { recipients: seq![peer_id], message }
            } else {
                IpcDecision::Handled
            },
            None => IpcDecision::Forward { recipients: peers_of(v.transports), message },
        },
    }
}

/// What is to be done with `message` in the state `v`.
///
/// A streamer that is ending passes over every message. What the server
/// says of the peers is noted. A message or data of one peer makes that peer
/// the one whose input is handled, and is then dealt with as
/// `message_decision` says. A second `Init` is passed over.
pub open spec fn ipc_decision<T>(v: StreamConnectionView<T>, message: ServerIpcMessage) -> IpcDecision {
    if v.terminating {
        IpcDecision::Handled
    } else {
        match message {
            ServerIpcMessage::Init { .. } => IpcDecision::Handled,
            ServerIpcMessage::PeerConnected { .. } => IpcDecision::Handled,
            ServerIpcMessage::PeerRoleChanged { .. } => IpcDecision::Handled,
            ServerIpcMessage::SetGuestsKeyboardMouseEnabled { .. } => IpcDecision::Handled,
            ServerIpcMessage::PeerDisconnected { peer_id } => IpcDecision::PeerGone { peer_id },
            ServerIpcMessage::PeerWebSocket { peer_id, message } => message_decision(
                v,
                ServerIpcMessage::WebSocket(message),
                Some(peer_id),
            ),
            ServerIpcMessage::PeerWebSocketTransport { peer_id, data } => message_decision(
                v,
                ServerIpcMessage::WebSocketTransport(data),
                Some(peer_id),
            ),
            ServerIpcMessage::Stop => IpcDecision::Stopped,
            other => message_decision(v, other, None),
        }
    }
}

/// The state after `message` was dealt with in the state `v`.
pub open spec fn after_ipc_message<T>(
    v: StreamConnectionView<T>,
    message: ServerIpcMessage,
) -> StreamConnectionView<T> {
    if v.terminating {
        v
    } else {
        match message {
            ServerIpcMessage::PeerConnected {
                peer_id,
                player_slot,
                role,
                video_frame_queue_size,
                audio_sample_queue_size,
            } => StreamConnectionView {
                peers: v.peers.with_peer(
                    peer_id,
                    PeerInfo {
                        player_slot: slot_for_role(role, player_slot),
                        role,
                        video_frame_queue_size,
                        audio_sample_queue_size,
                    },
                ),
                ..v
            },
            ServerIpcMessage::PeerRoleChanged { peer_id, new_role, player_slot } => {
                if v.peers.peers.contains_key(peer_id.0) {
                    StreamConnectionView {
                        peers: v.peers.with_peer(
                            peer_id,
                            PeerInfo {
                                player_slot: slot_for_role(new_role, player_slot),
                                role: new_role,
                                ..v.peers.peers[peer_id.0]
                            },
                        ),
                        ..v
                    }
                } else {
                    v
                }
            },
            ServerIpcMessage::PeerDisconnected { peer_id } => StreamConnectionView {
                peers: v.peers.without_peer(peer_id),
                transports: without(v.transports, peer_id),
                ..v
            },
            ServerIpcMessage::PeerWebSocket { peer_id, .. } => StreamConnectionView {
                current_peer_id: Some(peer_id),
                ..v
            },
            ServerIpcMessage::PeerWebSocketTransport { peer_id, .. } => StreamConnectionView {
                current_peer_id: Some(peer_id),
                ..v
            },
            ServerIpcMessage::SetGuestsKeyboardMouseEnabled { enabled } => StreamConnectionView {
                peers: v.peers.with_guests_keyboard_mouse(enabled),
                ..v
            },
            ServerIpcMessage::Stop => v.stopped(),
            _ => v,
        }
    }
}

/// Whether `plan` is the plan for ending the streamer in the state `v`.
pub open spec fn stop_plan_is<T>(plan: Option<StopPlan<T>>, v: StreamConnectionView<T>) -> bool {
    if v.terminating {
        plan is None
    } else {
        plan matches Some(plan) && plan.stop_stream == v.stream_live && plan.transports@
            == v.transports && plan.notice == StreamerIpcMessage::Stop
    }
}

/// Whether `outcome` is what `decision` says for a message that arrived in
/// the state `before`.
pub open spec fn ipc_outcome_is<T>(
    outcome: IpcOutcome<T>,
    decision: IpcDecision,
    before: StreamConnectionView<T>,
) -> bool {
    match decision {
        IpcDecision::Handled => outcome == IpcOutcome::<T>::Handled,
        IpcDecision::CreateTransport {
            peer_id,
            transport_type,
            video_frame_queue_size,
            audio_sample_queue_size,
        } => outcome == (IpcOutcome::<T>::CreateTransport {
            peer_id,
            transport_type,
            video_frame_queue_size,
            audio_sample_queue_size,
        }),
        IpcDecision::Forward { recipients, message } => outcome matches IpcOutcome::Forward {
            recipients: to,
            message: forwarded,
        } && to@ == recipients && forwarded == message,
        IpcDecision::PeerGone { peer_id } => outcome == (IpcOutcome::PeerGone {
            transport: sender_of(before.transports, peer_id),
        }),
        IpcDecision::Stopped => outcome matches IpcOutcome::Stopped { plan } && stop_plan_is(
            plan,
            before,
        ),
    }
}

/// Whether what a transport reports says that the transport has ended:
/// that it is closed, or that its carrier failed.
pub open spec fn is_end(event: Result<TransportEvent, TransportError>) -> bool {
    match event {
        Ok(TransportEvent::Closed) => true,
        Err(_) => true,
        _ => false,
    }
}

/// The state after an event of the transport `transport_id` of `peer_id`
/// was dealt with in the state `v`: input makes the peer the one whose input
/// is handled, and a transport that has ended is the peer's transport no
/// more.
pub open spec fn after_transport_event<T>(
    v: StreamConnectionView<T>,
    peer_id: PeerId,
    transport_id: TransportId,
    event: Result<TransportEvent, TransportError>,
) -> StreamConnectionView<T> {
    match event {
        Ok(TransportEvent::RecvPacket(packet)) => {
            let handling = StreamConnectionView { current_peer_id: Some(peer_id), ..v };
            StreamConnectionView {
                active_gamepads: route_packet(handling, packet).active_gamepads,
                ..handling
            }
        },
        _ => if is_end(event) {
            StreamConnectionView { transports: ended(v.transports, peer_id, transport_id), ..v }
        } else {
            v
        },
    }
}

/// Whether `outcome` is what an event of the transport `transport_id` of
/// `peer_id` leads to in the state `v`.
pub open spec fn event_outcome_is<T>(
    outcome: EventOutcome<T>,
    v: StreamConnectionView<T>,
    peer_id: PeerId,
    transport_id: TransportId,
    event: Result<TransportEvent, TransportError>,
) -> bool {
    match event {
        Ok(TransportEvent::SendIpc(message)) => outcome == (EventOutcome::<T>::Relay {
            message: relayed_for(peer_id, message),
        }),
        Ok(TransportEvent::StartStream { settings }) => outcome == (EventOutcome::<
            T,
        >::StartStream { settings }),
        Ok(TransportEvent::RecvPacket(packet)) => outcome matches EventOutcome::Input {
            outcome: routed,
        } && outcome_is(
            routed,
            route_packet(StreamConnectionView { current_peer_id: Some(peer_id), ..v }, packet),
        ),
        Ok(TransportEvent::Closed) => outcome == (EventOutcome::Closed {
            transport: given_up(v.transports, peer_id, transport_id),
        }),
        Err(TransportError::Closed) => outcome == (EventOutcome::Closed {
            transport: given_up(v.transports, peer_id, transport_id),
        }),
        Err(TransportError::Implementation(_)) => outcome == (EventOutcome::Failed {
            transport: given_up(v.transports, peer_id, transport_id),
        }),
    }
}

/// The video setup that the browsers are told of: what the streaming host
/// said, or else a guess from what the browser asked for.
pub open spec fn announced_video(
    setup: StreamSetup,
    settings: StreamSettings,
    defaults: StreamDefaults,
) -> VideoSetup {
    match setup.video {
        Some(video) => video,
        None => VideoSetup {
            format: defaults.video_format,
            width: settings.width,
            height: settings.height,
            redraw_rate: settings.fps,
            flags: 0,
        },
    }
}

/// The audio setup that the browsers are told of: what the streaming host
/// said, or else stereo.
pub open spec fn announced_audio(setup: StreamSetup, defaults: StreamDefaults) -> OpusMultistreamConfig {
    match setup.audio {
        Some(audio) => audio,
        None => defaults.audio,
    }
}

/// The message that tells the browsers how to read the stream.
pub open spec fn connection_complete(
    touch: bool,
    video: VideoSetup,
    audio: OpusMultistreamConfig,
) -> StreamerIpcMessage {
    StreamerIpcMessage::WebSocket(
        StreamServerMessage::ConnectionComplete {
            capabilities: StreamCapabilities { touch },
            format: video.format,
            width: video.width,
            height: video.height,
            fps: video.redraw_rate,
            audio_sample_rate: audio.sample_rate,
            audio_channel_count: audio.channel_count,
            audio_streams: audio.streams,
            audio_coupled_streams: audio.coupled_streams,
            audio_samples_per_frame: audio.samples_per_frame,
            audio_mapping: audio.mapping,
        },
    )
}

/// Whether `message` is a note for the log of every browser with this text
/// and this weight.
pub open spec fn is_debug_log(
    message: StreamerIpcMessage,
    text: Seq<char>,
    ty: Option<LogMessageType>,
) -> bool {
    message matches StreamerIpcMessage::WebSocket(
        StreamServerMessage::DebugLog { message: logged, ty: weight },
    ) && logged@ == text && weight == ty
}

/// Whether `outcome` is how an attempt to start a stream ends in the state
/// `v`, given what the streaming client answered: `Ok` with whether the host
/// takes touch input, or the error.
pub open spec fn start_outcome_is<T>(
    outcome: StartOutcome<T>,
    v: StreamConnectionView<T>,
    result: Result<bool, StartError>,
    settings: StreamSettings,
    defaults: StreamDefaults,
) -> bool {
    if v.terminating {
        match result {
            Ok(_) => outcome == StartOutcome::<T>::Discarded,
            Err(_) => outcome == (StartOutcome::<T>::Terminated { plan: None }),
        }
    } else {
        match result {
            Ok(touch) => outcome == (StartOutcome::<T>::Streaming {
                announce: connection_complete(
                    touch,
                    announced_video(v.stream_setup, settings, defaults),
                    announced_audio(v.stream_setup, defaults),
                ),
            }),
            Err(StartError::ConnectionAlreadyExists) => outcome matches StartOutcome::AlreadyStreaming {
                notice,
            } && is_debug_log(
                notice,
                "Failed to start stream because this streamer is already streaming"@,
                None,
            ),
            Err(StartError::Other) => outcome matches StartOutcome::Terminated { plan }
                && stop_plan_is(plan, v),
        }
    }
}

/// The state after an attempt to start a stream ended.
pub open spec fn after_start<T>(
    v: StreamConnectionView<T>,
    result: Result<bool, StartError>,
) -> StreamConnectionView<T> {
    if v.terminating {
        v
    } else {
        match result {
            Ok(_) => StreamConnectionView { stream_live: true, ..v },
            Err(StartError::ConnectionAlreadyExists) => v,
            Err(StartError::Other) => v.stopped(),
        }
    }
}

impl<T> StreamConnection<T> {
    /// Ends the streamer: the stream is to be stopped, every transport to be
    /// closed, and the server to be told. Ending a streamer that is ending
    /// already does nothing.
    pub fn stop(&mut self) -> (r: Option<StopPlan<T>>)
        requires
            old(self).wf(),
        ensures
            final(self).wf(),
            stop_plan_is(r, old(self)@),
            old(self)@.terminating ==> final(self)@ == old(self)@,
            !old(self)@.terminating ==> final(self)@ == old(self)@.stopped(),
    {
        if self.is_terminating {
            return None;
        }
        self.is_terminating = true;
        let stop_stream = self.stream_live;
        self.stream_live = false;
        let transports = self.peer_transports.take_all();
        Some(StopPlan { stop_stream, transports, notice: StreamerIpcMessage::Stop })
    }

    /// Deals with a message of the server. See `ipc_decision` for what is to
    /// be done with it, and `after_ipc_message` for what the core notes.
    pub fn on_ipc_message(&mut self, message: ServerIpcMessage) -> (r: IpcOutcome<T>)
        requires
            old(self).wf(),
        ensures
            final(self).wf(),
            ipc_outcome_is(r, ipc_decision(old(self)@, message), old(self)@),
            final(self)@ == after_ipc_message(old(self)@, message),
    {
        if self.is_terminating {
            return IpcOutcome::Handled;
        }
        match message {
            ServerIpcMessage::PeerConnected {
                peer_id,
                player_slot,
                role,
                video_frame_queue_size,
                audio_sample_queue_size,
            } => {
                self.peer_manager.add_peer_with_role(
                    peer_id,
                    player_slot,
                    role,
                    video_frame_queue_size,
                    audio_sample_queue_size,
                );
                IpcOutcome::Handled
            },
            ServerIpcMessage::PeerRoleChanged { peer_id, new_role, player_slot } => {
                self.peer_manager.update_peer_role(peer_id, new_role, player_slot);
                IpcOutcome::Handled
            },
            ServerIpcMessage::PeerDisconnected { peer_id } => {
                self.peer_manager.remove_peer(peer_id);
                let transport = self.remove_peer_transport(peer_id);
                IpcOutcome::PeerGone { transport }
            },
            ServerIpcMessage::PeerWebSocket { peer_id, message } => {
                self.current_peer_id = Some(peer_id);
                self.on_message(ServerIpcMessage::WebSocket(message), Some(peer_id))
            },
            ServerIpcMessage::PeerWebSocketTransport { peer_id, data } => {
                self.current_peer_id = Some(peer_id);
                self.on_message(ServerIpcMessage::WebSocketTransport(data), Some(peer_id))
            },
            ServerIpcMessage::SetGuestsKeyboardMouseEnabled { enabled } => {
                self.peer_manager.set_guests_keyboard_mouse_enabled(enabled);
                IpcOutcome::Handled
            },
            ServerIpcMessage::Stop => {
                let plan = self.stop();
                IpcOutcome::Stopped { plan }
            },
            ServerIpcMessage::Init {
                config,
                host_address,
                host_http_port,
                client_unique_id,
                client_private_key,
                client_certificate,
                server_certificate,
                app_id,
                video_frame_queue_size,
                audio_sample_queue_size,
            } => IpcOutcome::Handled,
            ServerIpcMessage::WebSocket(message) => self.on_message(
                ServerIpcMessage::WebSocket(message),
                None,
            ),
            ServerIpcMessage::WebSocketTransport(data) => self.on_message(
                ServerIpcMessage::WebSocketTransport(data),
                None,
            ),
        }
    }

    /// Deals with a message that comes from `peer`, or from no peer in
    /// particular.
    fn on_message(&self, message: ServerIpcMessage, peer: Option<PeerId>) -> (r: IpcOutcome<T>)
        requires
            self.wf(),
            !self@.terminating,
            message is WebSocket || message is WebSocketTransport,
        ensures
            ipc_outcome_is(r, message_decision(self@, message, peer), self@),
    {
        match message {
            ServerIpcMessage::WebSocket(StreamClientMessage::SetTransport(transport_type)) => {
                let peer_id = match peer {
                    Some(peer_id) => peer_id,
                    None => PeerId(0),
                };
                let (video_frame_queue_size, audio_sample_queue_size) =
                    match self.peer_manager.get_peer_queue_sizes(peer_id) {
                    Some(sizes) => sizes,
                    None => (self.video_frame_queue_size, self.audio_sample_queue_size),
                };
                IpcOutcome::CreateTransport {
                    peer_id,
                    transport_type,
                    video_frame_queue_size,
                    audio_sample_queue_size,
                }
            },
            message => match peer {
                Some(peer_id) => {
                    if self.peer_transports.contains(peer_id) {
                        let mut recipients: Vec<PeerId> = Vec::new();
                        recipients.push(peer_id);
                        assert(recipients@ =~= seq![peer_id]);
                        IpcOutcome::Forward { recipients, message }
                    } else {
                        IpcOutcome::Handled
                    }
                },
                None => IpcOutcome::Forward { recipients: self.peer_transports.peers(), message },
            },
        }
    }

    /// Deals with what the transport `transport_id` of `peer_id` reports: an
    /// event, or why there are no more. See `event_outcome_is` and
    /// `after_transport_event`.
    pub fn on_transport_event(
        &mut self,
        peer_id: PeerId,
        transport_id: TransportId,
        event: Result<TransportEvent, TransportError>,
    ) -> (r: EventOutcome<T>)
        requires
            old(self).wf(),
        ensures
            final(self).wf(),
            event_outcome_is(r, old(self)@, peer_id, transport_id, event),
            final(self)@ == after_transport_event(old(self)@, peer_id, transport_id, event),
    {
        match event {
            Ok(TransportEvent::SendIpc(message)) => {
                let message = match message {
                    StreamerIpcMessage::WebSocket(message) => StreamerIpcMessage::PeerWebSocket {
                        peer_id,
                        message,
                    },
                    StreamerIpcMessage::WebSocketTransport(data) => {
                        StreamerIpcMessage::PeerWebSocketTransport { peer_id, data }
                    },
                    other => other,
                };
                EventOutcome::Relay { message }
            },
            Ok(TransportEvent::StartStream { settings }) => EventOutcome::StartStream { settings },
            Ok(TransportEvent::RecvPacket(packet)) => {
                self.current_peer_id = Some(peer_id);
                let outcome = self.on_packet(packet);
                EventOutcome::Input { outcome }
            },
            Ok(TransportEvent::Closed) => {
                let transport = self.end_transport(peer_id, transport_id);
                EventOutcome::Closed { transport }
            },
            Err(TransportError::Closed) => {
                let transport = self.end_transport(peer_id, transport_id);
                EventOutcome::Closed { transport }
            },
            Err(TransportError::Implementation(_)) => {
                let transport = self.end_transport(peer_id, transport_id);
                EventOutcome::Failed { transport }
            },
        }
    }

    /// Prepares the start of a stream: a stream that is live is to be
    /// stopped first, and the browsers are told that the start begins. A
    /// streamer that is ending starts no stream.
    pub fn start_stream(&mut self) -> (r: Option<StartPlan>)
        requires
            old(self).wf(),
        ensures
            final(self).wf(),
            old(self)@.terminating ==> r is None && final(self)@ == old(self)@,
            !old(self)@.terminating ==> final(self)@ == (StreamConnectionView {
                stream_live: false,
                ..old(self)@
            }) && (r matches Some(plan) && plan.stop_previous == old(self)@.stream_live
                && is_debug_log(plan.notice, "Moonlight Stream"@, None)),
    {
        if self.is_terminating {
            return None;
        }
        let stop_previous = self.stream_live;
        self.stream_live = false;
        Some(
            StartPlan {
                stop_previous,
                notice: StreamerIpcMessage::WebSocket(
                    StreamServerMessage::DebugLog {
                        message: "Moonlight Stream".to_string(),
                        ty: None,
                    },
                ),
            },
        )
    }

    /// Notes how the start of a stream ended. `result` is what the
    /// streaming client answered: `Ok` with whether the host takes touch
    /// input, or the error.
    ///
    /// A stream that started is live, and the browsers are told how to read
    /// it. Where the streaming client was streaming already the browsers are
    /// told so and the streamer goes on. Every other error ends the streamer.
    pub fn finish_start_stream(
        &mut self,
        result: Result<bool, StartError>,
        settings: StreamSettings,
        defaults: StreamDefaults,
    ) -> (r: StartOutcome<T>)
        requires
            old(self).wf(),
        ensures
            final(self).wf(),
            start_outcome_is(r, old(self)@, result, settings, defaults),
            final(self)@ == after_start(old(self)@, result),
    {
        if self.is_terminating {
            return match result {
                Ok(_) => StartOutcome::Discarded,
                Err(_) => StartOutcome::Terminated { plan: None },
            };
        }
        match result {
            Ok(touch) => {
                let video = match self.stream_setup.video {
                    Some(video) => video,
                    None => VideoSetup {
                        format: defaults.video_format,
                        width: settings.width,
                        height: settings.height,
                        redraw_rate: settings.fps,
                        flags: 0,
                    },
                };
                let audio = match self.stream_setup.audio {
                    Some(audio) => audio,
                    None => defaults.audio,
                };
                self.stream_live = true;
                StartOutcome::Streaming {
                    announce: StreamerIpcMessage::WebSocket(
                        StreamServerMessage::ConnectionComplete {
                            capabilities: StreamCapabilities { touch },
                            format: video.format,
                            width: video.width,
                            height: video.height,
                            fps: video.redraw_rate,
                            audio_sample_rate: audio.sample_rate,
                            audio_channel_count: audio.channel_count,
                            audio_streams: audio.streams,
                            audio_coupled_streams: audio.coupled_streams,
                            audio_samples_per_frame: audio.samples_per_frame,
                            audio_mapping: audio.mapping,
                        },
                    ),
                }
            },
            Err(StartError::ConnectionAlreadyExists) => StartOutcome::AlreadyStreaming {
                notice: StreamerIpcMessage::WebSocket(
                    StreamServerMessage::DebugLog {
                        message: "Failed to start stream because this streamer is already streaming".to_string(),
                        ty: None,
                    },
                ),
            },
            Err(StartError::Other) => {
                let plan = self.stop();
                StartOutcome::Terminated { plan }
            },
        }
    }

    /// Notes how the streaming host encodes the video, and names the peers
    /// whose transports are to be told, the oldest transport first.
    pub fn setup_video(&mut self, setup: VideoSetup) -> (r: Vec<PeerId>)
        ensures
            r@ == peers_of(old(self)@.transports),
            final(self)@ == (StreamConnectionView {
                stream_setup: StreamSetup { video: Some(setup), ..old(self)@.stream_setup },
                ..old(self)@
            }),
            old(self).wf() ==> final(self).wf(),
    {
        self.stream_setup = StreamSetup { video: Some(setup), audio: self.stream_setup.audio };
        self.peer_transports.peers()
    }

    /// Notes how the streaming host encodes the audio, and names the peers
    /// whose transports are to be told, the oldest transport first.
    pub fn setup_audio(&mut self, config: OpusMultistreamConfig) -> (r: Vec<PeerId>)
        ensures
            r@ == peers_of(old(self)@.transports),
            final(self)@ == (StreamConnectionView {
                stream_setup: StreamSetup { audio: Some(config), ..old(self)@.stream_setup },
                ..old(self)@
            }),
            old(self).wf() ==> final(self).wf(),
    {
        self.stream_setup = StreamSetup { video: self.stream_setup.video, audio: Some(config) };
        self.peer_transports.peers()
    }

    /// The connection to the streaming host ended with `error_code`: the
    /// browsers are told, and the streamer ends.
    pub fn connection_terminated(&mut self, error_code: i32) -> (r: (
        StreamerIpcMessage,
        Option<StopPlan<T>>,
    ))
        requires
            old(self).wf(),
        ensures
            final(self).wf(),
            r.0 == StreamerIpcMessage::WebSocket(
                StreamServerMessage::ConnectionTerminated { error_code },
            ),
            stop_plan_is(r.1, old(self)@),
            old(self)@.terminating ==> final(self)@ == old(self)@,
            !old(self)@.terminating ==> final(self)@ == old(self)@.stopped(),
    {
        let message = StreamerIpcMessage::WebSocket(
            StreamServerMessage::ConnectionTerminated { error_code },
        );
        let plan = self.stop();
        (message, plan)
    }

    /// The quality of the connection to the streaming host changed: every
    /// transport is told.
    pub fn connection_status_update(&self, status: ConnectionStatus) -> (r: Vec<
        (PeerId, OutboundPacket),
    >)
        ensures
            r@ == Seq::new(
                self@.transports.len(),
                |i: int|
                    (
                        self@.transports[i].0,
                        OutboundPacket::General {
                            message: GeneralServerMessage::ConnectionStatusUpdate { status },
                        },
                    ),
            ),
    {
        self.try_send_packet(
            OutboundPacket::General {
                message: GeneralServerMessage::ConnectionStatusUpdate { status },
            },
        )
    }

    /// The streaming host shakes a gamepad: every transport is told. Of the
    /// gamepad's number the low 8 bits are kept.
    pub fn controller_rumble(
        &self,
        controller_number: u16,
        low_frequency_motor: u16,
        high_frequency_motor: u16,
    ) -> (r: Vec<(PeerId, OutboundPacket)>)
        ensures
            r@ == Seq::new(
                self@.transports.len(),
                |i: int|
                    (
                        self@.transports[i].0,
                        OutboundPacket::ControllerRumble {
                            controller_number: (controller_number % 256) as u8,
                            low_frequency_motor,
                            high_frequency_motor,
                        },
                    ),
            ),
    {
        self.try_send_packet(
            OutboundPacket::ControllerRumble {
                controller_number: (controller_number % 256) as u8,
                low_frequency_motor,
                high_frequency_motor,
            },
        )
    }

    /// The streaming host shakes the triggers of a gamepad: every transport
    /// is told. Of the gamepad's number the low 8 bits are kept.
    pub fn controller_rumble_triggers(
        &self,
        controller_number: u16,
        left_trigger_motor: u16,
        right_trigger_motor: u16,
    ) -> (r: Vec<(PeerId, OutboundPacket)>)
        ensures
            r@ == Seq::new(
                self@.transports.len(),
                |i: int|
                    (
                        self@.transports[i].0,
                        OutboundPacket::ControllerTriggerRumble {
                            controller_number: (controller_number % 256) as u8,
                            left_trigger_motor,
                            right_trigger_motor,
                        },
                    ),
            ),
    {
        self.try_send_packet(
            OutboundPacket::ControllerTriggerRumble {
                controller_number: (controller_number % 256) as u8,
                left_trigger_motor,
                right_trigger_motor,
            },
        )
    }
}

/// Reads the 16 bits of a key code as a signed number.
pub fn signed_key_code(key: u16) -> (r: i16)
    ensures
        r == key_code(key),
{
    if key < 0x8000 {
        key as i16
    } else {
        ((key as i32) - 0x10000) as i16
    }
}

/// A streamer that is ending sends nothing to any browser: it has no
/// transport left.
pub proof fn lemma_silent_when_ending<T>(v: StreamConnectionView<T>)
    requires
        v.wf(),
        v.terminating,
    ensures
        peers_of(v.transports) == Seq::<PeerId>::empty(),
{
    assert(peers_of(v.transports) =~= Seq::<PeerId>::empty());
}

/// A streamer that is ending stays so, whatever arrives.
pub proof fn lemma_ending_is_final<T>(
    v: StreamConnectionView<T>,
    message: ServerIpcMessage,
    peer_id: PeerId,
    transport_id: TransportId,
    event: Result<TransportEvent, TransportError>,
    result: Result<bool, StartError>,
)
    requires
        v.wf(),
        v.terminating,
    ensures
        after_ipc_message(v, message) == v,
        after_transport_event(v, peer_id, transport_id, event).terminating,
        after_transport_event(v, peer_id, transport_id, event).wf(),
        after_start(v, result) == v,
{
    crate::peer_table::lemma_without(v.transports, peer_id);
    assert(!has_peer(v.transports, peer_id));
}

/// Ending a streamer twice is ending it once: the second time nothing is
/// left to do and nothing changes.
pub proof fn lemma_stop_twice<T>(v: StreamConnectionView<T>)
    ensures
        v.stopped().terminating,
        v.stopped().wf(),
        v.stopped().stopped() == v.stopped(),
        stop_plan_is(None::<StopPlan<T>>, v.stopped()),
{
}

/// When a peer gets two transports one after the other, the second is its
/// one transport afterwards, and the first is the one that was handed back
/// to be closed. The two have different numbers: when the first reports its
/// end, the second stays the peer's transport, and when the second reports
/// its end, the peer has no transport left.
pub proof fn lemma_transport_swap<T>(
    v: StreamConnectionView<T>,
    peer_id: PeerId,
    first: T,
    second: T,
)
    requires
        v.wf(),
    ensures
        ({
            let once = v.installing(peer_id, first);
            let twice = once.installing(peer_id, second);
            let first_id = TransportId(v.next_transport_id);
            let second_id = TransportId(once.next_transport_id);
            &&& sender_of(once.transports, peer_id) == Some(first)
            &&& sender_of(twice.transports, peer_id) == Some(second)
            &&& distinct_peers(twice.transports)
            &&& first_id != second_id
            &&& ended(twice.transports, peer_id, first_id) == twice.transports
            &&& given_up(twice.transports, peer_id, first_id) is None
            &&& given_up(twice.transports, peer_id, second_id) == Some(second)
            &&& !has_peer(ended(twice.transports, peer_id, second_id), peer_id)
        }),
{
    let once = v.installing(peer_id, first);
    let twice = once.installing(peer_id, second);
    crate::peer_table::lemma_with(
        v.transports,
        peer_id,
        PeerTransport { id: TransportId(v.next_transport_id), sender: first },
    );
    crate::peer_table::lemma_with(
        once.transports,
        peer_id,
        PeerTransport { id: TransportId(once.next_transport_id), sender: second },
    );
    crate::peer_table::lemma_without(twice.transports, peer_id);
}

/// A transport that has ended is not the transport of its peer any more,
/// and no other peer loses its transport over it.
pub proof fn lemma_no_transport_left<T>(
    transports: Seq<(PeerId, PeerTransport<T>)>,
    peer_id: PeerId,
    transport_id: TransportId,
    other: PeerId,
)
    requires
        distinct_peers(transports),
        other != peer_id,
    ensures
        !holds_transport(ended(transports, peer_id, transport_id), peer_id, transport_id),
        distinct_peers(ended(transports, peer_id, transport_id)),
        lookup(ended(transports, peer_id, transport_id), other) == lookup(transports, other),
{
    crate::peer_table::lemma_without(transports, peer_id);
}

/// The note for the browsers that the streaming client begins a stage of
/// connecting.
pub fn stage_starting(stage_name: &str) -> (r: StreamerIpcMessage)
    ensures
        is_debug_log(r, "Starting Stage: "@ + stage_name@, None),
{
    StreamerIpcMessage::WebSocket(
        StreamServerMessage::DebugLog { message: concat("Starting Stage: ", stage_name), ty: None },
    )
}

/// The note for the browsers that a stage of connecting is done.
pub fn stage_complete(stage_name: &str) -> (r: StreamerIpcMessage)
    ensures
        is_debug_log(r, "Completed Stage: "@ + stage_name@, None),
{
    StreamerIpcMessage::WebSocket(
        StreamServerMessage::DebugLog { message: concat("Completed Stage: ", stage_name), ty: None },
    )
}

/// The note for the browsers that a stage of connecting failed, with the
/// error code in base ten. The failure is fatal.
pub fn stage_failed(stage_name: &str, error_code: i32) -> (r: StreamerIpcMessage)
    ensures
        is_debug_log(
            r,
            "Failed Stage: "@ + stage_name@ + " with error code "@ + decimal(error_code as int),
            Some(LogMessageType::Fatal),
        ),
{
    let mut message = concat("Failed Stage: ", stage_name);
    message.append(" with error code ");
    push_decimal(&mut message, error_code);
    StreamerIpcMessage::WebSocket(
        StreamServerMessage::DebugLog { message, ty: Some(LogMessageType::Fatal) },
    )
}

/// The note for the browsers that the streamer waits for a transport.
pub fn waiting_for_transport() -> (r: StreamerIpcMessage)
    ensures
        is_debug_log(r, "Waiting for Transport to negotiate"@, None),
{
    StreamerIpcMessage::WebSocket(
        StreamServerMessage::DebugLog {
            message: "Waiting for Transport to negotiate".to_string(),
            ty: None,
        },
    )
}

impl<T> StreamConnection<T> {
    /// What the browsers are told of the servers that help them to find a
    /// way to the streamer: those of the configuration.
    pub fn setup_message(&self) -> (r: StreamerIpcMessage)
        ensures
            r matches StreamerIpcMessage::WebSocket(StreamServerMessage::Setup { ice_servers })
                && same_ice_servers(ice_servers@, self.spec_config().webrtc.ice_servers@),
    {
        StreamerIpcMessage::WebSocket(
            StreamServerMessage::Setup {
                ice_servers: duplicate_ice_servers(&self.config.webrtc.ice_servers),
            },
        )
    }
}

} // verus!
