//! The microphone server as the rest of the program sees it: its life cycle,
//! which browser is the active sender, and what becomes of each audio frame.

use crate::lan::are_lan_addresses;
use crate::lan::are_machine_addresses;
use crate::lan::get_lan_ips;
use crate::lan::is_ipv4_text;
use crate::lan::machine_gave;
use crate::lan::selects;
use crate::lan::usable;
use crate::lan::InterfaceAddress;
use crate::pairing::generate_pairing_token;
use crate::pairing::is_drawn_token;
use crate::pairing::is_pairing_token;
use crate::pairing::is_pairing_url;
use crate::pairing::pairing_url_text;
use crate::pairing::pairing_urls_for;
use crate::pairing::phone_url_text;
use crate::pairing::phone_urls_for;
use crate::pcm::float32_to_pcm16;
use crate::pcm::pcm_bytes;
use crate::telemetry::empty_telemetry;
use crate::telemetry::Arrival;
use crate::telemetry::WebTelemetry;
use crate::telemetry::WebTelemetrySnapshot;
use crate::telemetry::WEB_SAMPLE_RATE;
use crate::text::texts;
use vstd::prelude::*;

verus! {

/// The port of the microphone server unless another is chosen.
pub const DEFAULT_WEB_PORT: u16 = 8443;

/// The largest audio frame, in bytes, that is passed on.
pub const MAX_FRAME_BYTES: usize = 65536;

/// How many TLS handshakes are under way at a time; further connections are
/// dropped.
pub const MAX_TLS_HANDSHAKES: usize = 32;

/// How long a TLS handshake may take.
pub const TLS_HANDSHAKE_TIMEOUT_SECS: u64 = 5;

/// How long to wait after a connection could not be accepted, in milliseconds.
pub const ACCEPT_PAUSE_MS: u64 = 100;

/// What happened at the listener.
#[derive(Clone, Copy, Debug, PartialEq, Eq, Structural)]
pub enum AcceptEvent {
    /// A handshake was completed.
    HandshakeDone,
    /// A connection came, and one of the handshake slots was claimed for it or
    /// none was free.
    Connection { slot_claimed: bool },
    /// No connection could be accepted.
    Failed,
}

/// What to do about it.
#[derive(Clone, Copy, Debug, PartialEq, Eq, Structural)]
pub enum AcceptStep {
    /// Serve the connection whose handshake is done.
    Serve,
    /// Do the handshake aside, and wait for the next event.
    Handshake,
    /// Drop the connection, and wait for the next event.
    Drop,
    /// Pause for [`ACCEPT_PAUSE_MS`], then wait for the next event.
    Pause,
}

/// What to do about an event at the listener: a handshake never holds up the
/// others, and a connection without a slot is dropped.
pub fn accept_step(event: AcceptEvent) -> (step: AcceptStep)
    ensures
        step == match event {
            AcceptEvent::HandshakeDone => AcceptStep::Serve,
            AcceptEvent::Connection { slot_claimed } => if slot_claimed {
                AcceptStep::Handshake
            } else {
                AcceptStep::Drop
            },
            AcceptEvent::Failed => AcceptStep::Pause,
        },
{
    match event {
        AcceptEvent::HandshakeDone => AcceptStep::Serve,
        AcceptEvent::Connection { slot_claimed } => {
            if slot_claimed {
                AcceptStep::Handshake
            } else {
                AcceptStep::Drop
            }
        },
        AcceptEvent::Failed => AcceptStep::Pause,
    }
}

/// Which connection is the sender. A newer connection takes over from an older
/// one, so at most one sends at a time.
#[derive(Clone, Copy, Debug, PartialEq, Eq, Structural)]
pub struct ActiveWebSender {
    /// The number of the newest connection, counted from 1.
    pub generation: u64,
    /// The connection that sends, if one does.
    pub active: Option<u64>,
}

impl ActiveWebSender {
    /// The connection that sends is the newest one.
    pub open spec fn well_formed(self) -> bool {
        self.active matches Some(generation) ==> generation == self.generation
    }

    /// No connection yet.
    pub fn new() -> (sender: Self)
        ensures
            sender == (ActiveWebSender { generation: 0, active: None }),
            sender.well_formed(),
    {
        ActiveWebSender { generation: 0, active: None }
    }

    /// Makes a new connection the sender. Gives its number and that of the
    /// connection it takes over from, which is to be closed.
    pub fn activate(&mut self) -> (taken: (u64, Option<u64>))
        requires
            old(self).generation < u64::MAX,
        ensures
            taken.0 == old(self).generation + 1,
            taken.1 == old(self).active,
            *final(self) == (ActiveWebSender { generation: taken.0, active: Some(taken.0) }),
            final(self).well_formed(),
    {
        let generation: u64 = self.generation + 1;
        let replaced = self.active;
        self.generation = generation;
        self.active = Some(generation);
        (generation, replaced)
    }

    /// Whether a connection is the newest one.
    pub fn is_current(&self, generation: u64) -> (yes: bool)
        ensures
            yes == (self.generation == generation),
    {
        self.generation == generation
    }

    /// Ends a connection; tells whether it was the sender.
    pub fn deactivate(&mut self, generation: u64) -> (ended: bool)
        ensures
            ended == (old(self).active == Some(generation)),
            *final(self) == (ActiveWebSender {
                active: if ended {
                    None
                } else {
                    old(self).active
                },
                ..*old(self)
            }),
            old(self).well_formed() ==> final(self).well_formed(),
    {
        match self.active {
            Some(active) => {
                if active == generation {
                    self.active = None;
                    true
                } else {
                    false
                }
            },
            None => false,
        }
    }
}

/// Takes one from the client count, which does not go below zero. Gives what
/// is left.
pub fn decrement_client_count(client_count: &mut usize) -> (remaining: usize)
    ensures
        *final(client_count) == if *old(client_count) > 0 {
            (*old(client_count) - 1) as usize
        } else {
            0
        },
        remaining == *final(client_count),
{
    match client_count.checked_sub(1) {
        Some(less) => {
            *client_count = less;
            less
        },
        None => 0,
    }
}

/// The codecs of audio packets.
#[derive(Clone, Copy, Debug, PartialEq, Eq, Structural)]
pub enum AudioCodec {
    Pcm,
}

/// A packet for the stream pipeline.
pub struct AudioPacket {
    /// The audio data.
    pub buffer: Vec<u8>,
    pub sample_rate: u32,
    pub channel_count: u32,
    /// The sample format; 2 is 16-bit PCM.
    pub audio_format: u32,
    pub codec: AudioCodec,
}

/// What becomes of a frame that a connection sent.
pub enum FrameOutcome {
    /// A newer connection has taken over: the connection is closed.
    Superseded,
    /// The frame is too large and is dropped.
    TooLarge,
    /// The frame is not a whole number of floats and is dropped.
    Unaligned,
    /// The frame is counted and passed on as this packet.
    Packet(AudioPacket),
}

/// How handing a packet to the stream pipeline went.
#[derive(Clone, Copy, Debug, PartialEq, Eq, Structural)]
pub enum SendOutcome {
    Sent,
    /// The pipeline is full; the packet is lost.
    Full,
    /// The pipeline is gone.
    Closed,
}

/// What happened on a connection.
#[derive(Clone, Copy, Debug, PartialEq, Eq, Structural)]
pub enum SocketEvent {
    /// A newer connection has taken over.
    Superseded,
    /// A frame of bytes came.
    Binary,
    /// The browser closed the connection.
    Closed,
    /// The connection broke.
    Failed,
    /// Anything else came.
    Other,
}

/// What to do about it.
#[derive(Clone, Copy, Debug, PartialEq, Eq, Structural)]
pub enum SocketStep {
    /// Tell the browser to close, and end.
    CloseAndEnd,
    /// Hand the frame to [`WebServer::receive`].
    Receive,
    /// End.
    End,
    /// Wait for the next event.
    Wait,
}

/// What to do about an event on a connection.
pub fn socket_step(event: SocketEvent) -> (step: SocketStep)
    ensures
        step == match event {
            SocketEvent::Superseded => SocketStep::CloseAndEnd,
            SocketEvent::Binary => SocketStep::Receive,
            SocketEvent::Closed | SocketEvent::Failed => SocketStep::End,
            SocketEvent::Other => SocketStep::Wait,
        },
{
    match event {
        SocketEvent::Superseded => SocketStep::CloseAndEnd,
        SocketEvent::Binary => SocketStep::Receive,
        SocketEvent::Closed => SocketStep::End,
        SocketEvent::Failed => SocketStep::End,
        SocketEvent::Other => SocketStep::Wait,
    }
}

/// How a connected device is presented.
pub struct DeviceInfo {
    pub name: String,
    pub ip: String,
    pub latency: u32,
}

/// How a connected browser is presented.
pub fn browser_device() -> (info: DeviceInfo)
    ensures
        info.name@ == "Web Browser"@,
        info.ip@ == "browser"@,
        info.latency == 0,
{
    DeviceInfo { name: "Web Browser".to_owned(), ip: "browser".to_owned(), latency: 0 }
}

/// The files that the phone page loads.
#[derive(Clone, Copy, Debug, PartialEq, Eq, Structural)]
pub enum StaticAsset {
    AlpineJs,
    Manifest,
    ServiceWorker,
}

/// The content type that a file is served with.
pub fn content_type(asset: StaticAsset) -> (text: &'static str)
    ensures
        text@ == match asset {
            StaticAsset::AlpineJs | StaticAsset::ServiceWorker => "application/javascript"@,
            StaticAsset::Manifest => "application/manifest+json"@,
        },
{
    match asset {
        StaticAsset::AlpineJs => "application/javascript",
        StaticAsset::ServiceWorker => "application/javascript",
        StaticAsset::Manifest => "application/manifest+json",
    }
}

/// Where the phone page's dashboard link leads: to the computer itself.
pub fn redirect_dashboard() -> (target: &'static str)
    ensures
        target@ == "http://127.0.0.1:19527/"@,
{
    "http://127.0.0.1:19527/"
}

/// What the microphone server tells anyone about itself.
pub struct PublicStatus {
    pub running: bool,
    pub client_count: usize,
    pub port: u16,
    /// The machine's addresses on the local network.
    pub lan_ips: Vec<String>,
    /// The addresses of the phone page, one for each of `lan_ips`.
    pub phone_urls: Vec<String>,
    pub telemetry: WebTelemetrySnapshot,
}

/// What a new connection leads to.
#[derive(Clone, Copy, Debug, PartialEq, Eq, Structural)]
pub struct Connected {
    /// The number of the connection.
    pub generation: u64,
    /// The connection that is to be closed because this one takes over.
    pub superseded: Option<u64>,
    /// The client count to report.
    pub count: usize,
    /// Whether to report that a device has connected.
    pub device_connected: bool,
}

/// What the end of the sending connection leads to.
#[derive(Clone, Copy, Debug, PartialEq, Eq, Structural)]
pub struct Disconnected {
    /// The client count to report.
    pub remaining: usize,
    /// Whether to report a silent level and that the device has gone.
    pub device_disconnected: bool,
}

/// One run of the server, from a start to the stop that ends it.
pub struct WebServerState {
    pub active_sender: ActiveWebSender,
    pub pairing_token: String,
    pub port: u16,
}

/// The microphone server.
pub struct WebServer {
    client_count: usize,
    running: bool,
    port: u16,
    pairing_token: String,
    telemetry: WebTelemetry,
}

/// The microphone server, as contracts speak of it.
pub struct WebServerView {
    pub client_count: nat,
    pub running: bool,
    pub port: u16,
    pub pairing_token: Seq<char>,
    pub telemetry: WebTelemetry,
}

impl View for WebServer {
    type V = WebServerView;

    closed spec fn view(&self) -> WebServerView {
        WebServerView {
            client_count: self.client_count as nat,
            running: self.running,
            port: self.port,
            pairing_token: self.pairing_token@,
            telemetry: self.telemetry,
        }
    }
}

impl WebServerView {
    /// The server with a run begun on `port`.
    pub open spec fn begun(self, port: u16) -> WebServerView {
        WebServerView { port, ..self }
    }

    /// The server with its run ended.
    pub open spec fn stopped(self) -> WebServerView {
        WebServerView {
            running: false,
            client_count: 0,
            telemetry: self.telemetry.cleared(),
            ..self
        }
    }
}

/// Whether a frame of `length` bytes on connection `generation` is passed on.
pub open spec fn frame_accepted(sender: ActiveWebSender, generation: u64, length: nat) -> bool {
    sender.generation == generation && length <= MAX_FRAME_BYTES && length % 4 == 0
}

/// The client count is one while a connection of the run sends, and else zero.
pub open spec fn in_step(server: WebServerView, run: WebServerState) -> bool {
    &&& run.active_sender.well_formed()
    &&& server.client_count == if run.active_sender.active is Some {
        1nat
    } else {
        0
    }
}

/// What a new connection leads to.
pub open spec fn connection_of(server: WebServerView, run: WebServerState) -> Connected {
    let replaced = run.active_sender.active is Some;
    let count = after_connect(server, run).0.client_count;
    Connected {
        generation: (run.active_sender.generation + 1) as u64,
        superseded: run.active_sender.active,
        count: count as usize,
        device_connected: count == 1 && !replaced,
    }
}

/// The server and its run with a new connection, which is the sender. It counts
/// unless it takes over from another.
pub open spec fn after_connect(server: WebServerView, run: WebServerState) -> (
    WebServerView,
    WebServerState,
) {
    let generation = (run.active_sender.generation + 1) as u64;
    (
        WebServerView {
            client_count: if run.active_sender.active is Some {
                server.client_count
            } else {
                server.client_count + 1
            },
            ..server
        },
        WebServerState {
            active_sender: ActiveWebSender { generation, active: Some(generation) },
            ..run
        },
    )
}

/// What the end of a connection leads to, if it was the sender.
pub open spec fn disconnection_of(
    server: WebServerView,
    run: WebServerState,
    generation: u64,
) -> Option<Disconnected> {
    let remaining = after_disconnect(server, run, generation).0.client_count;
    if run.active_sender.active == Some(generation) {
        Some(
            Disconnected {
                remaining: remaining as usize,
                device_disconnected: remaining == 0,
            },
        )
    } else {
        None
    }
}

/// The server and its run with a connection ended. If it was the sender the
/// count goes down, and with the last one the live figures are cleared.
pub open spec fn after_disconnect(
    server: WebServerView,
    run: WebServerState,
    generation: u64,
) -> (WebServerView, WebServerState) {
    let remaining = if server.client_count > 0 {
        (server.client_count - 1) as nat
    } else {
        0
    };
    if run.active_sender.active == Some(generation) {
        (
            WebServerView {
                client_count: remaining,
                telemetry: if remaining == 0 {
                    server.telemetry.cleared()
                } else {
                    server.telemetry
                },
                ..server
            },
            WebServerState {
                active_sender: ActiveWebSender { active: None, ..run.active_sender },
                ..run
            },
        )
    } else {
        (server, run)
    }
}

/// Whether `urls` are the pairing addresses on a machine's local addresses, one
/// for each and in their order.
pub open spec fn pairs_lan_addresses(urls: Seq<Seq<char>>, port: u16, token: Seq<char>) -> bool {
    exists|ips: Seq<Seq<char>>| #[trigger]
        are_machine_addresses(ips) && are_lan_addresses(ips) && urls == ips.map_values(
            |ip: Seq<char>| pairing_url_text(ip, port, token),
        )
}

impl WebServer {
    /// A server that has not been started, with a pairing token of its own.
    pub fn new() -> (server: Self)
        ensures
            server@.client_count == 0,
            !server@.running,
            server@.port == DEFAULT_WEB_PORT,
            is_pairing_token(server@.pairing_token),
            is_drawn_token(server@.pairing_token),
            server@.telemetry == empty_telemetry(),
    {
        WebServer {
            client_count: 0,
            running: false,
            port: DEFAULT_WEB_PORT,
            pairing_token: generate_pairing_token(),
            telemetry: WebTelemetry::new(),
        }
    }

    /// How many browsers are connected.
    pub fn client_count(&self) -> (count: usize)
        ensures
            count == self@.client_count,
    {
        self.client_count
    }

    /// Whether the server accepts connections.
    pub fn is_running(&self) -> (yes: bool)
        ensures
            yes == self@.running,
    {
        self.running
    }

    /// The live figures.
    pub fn telemetry(&self) -> (shown: WebTelemetrySnapshot)
        ensures
            shown == self@.telemetry.shown(),
    {
        self.telemetry.snapshot()
    }

    /// The token that phones pair with.
    pub fn pairing_token(&self) -> (token: &str)
        ensures
            token@ == self@.pairing_token,
    {
        self.pairing_token.as_str()
    }

    /// What the server tells anyone about itself, given the machine's addresses
    /// on the local network; whoever asks reaches a server that runs.
    pub fn status_with(&self, lan_ips: Vec<String>) -> (status: PublicStatus)
        ensures
            status.running,
            status.client_count == self@.client_count,
            status.port == self@.port,
            status.lan_ips == lan_ips,
            texts(status.phone_urls@) == texts(lan_ips@).map_values(
                |ip: Seq<char>| phone_url_text(ip, self@.port),
            ),
            status.telemetry == self@.telemetry.shown(),
    {
        let phone_urls = phone_urls_for(&lan_ips, self.port);
        PublicStatus {
            running: true,
            client_count: self.client_count,
            port: self.port,
            lan_ips,
            phone_urls,
            telemetry: self.telemetry.snapshot(),
        }
    }

    /// What the server tells anyone about itself. Which addresses the machine
    /// has is its own affair; [`WebServer::status_with`] says what is made of
    /// them.
    pub fn serve_status(&self) -> (status: PublicStatus)
        ensures
            status.running,
            status.client_count == self@.client_count,
            status.port == self@.port,
            are_lan_addresses(texts(status.lan_ips@)),
            are_machine_addresses(texts(status.lan_ips@)),
            texts(status.phone_urls@) == texts(status.lan_ips@).map_values(
                |ip: Seq<char>| phone_url_text(ip, self@.port),
            ),
            status.telemetry == self@.telemetry.shown(),
    {
        self.status_with(get_lan_ips())
    }

    /// The port that the server uses.
    pub fn port(&self) -> (port: u16)
        ensures
            port == self@.port,
    {
        self.port
    }

    /// The addresses that phones pair at: one for each of the machine's local
    /// addresses, in their order. Which those are is the machine's affair.
    pub fn pairing_urls(&self) -> (urls: Vec<String>)
        ensures
            pairs_lan_addresses(texts(urls@), self@.port, self@.pairing_token),
            forall|i: int|
                0 <= i < urls@.len() ==> is_pairing_url(
                    (#[trigger] urls@[i])@,
                    self@.port,
                    self@.pairing_token,
                ),
    {
        let ips = get_lan_ips();
        let urls = pairing_urls_for(&ips, self.port, self.pairing_token.as_str());
        proof {
            assert forall|i: int| 0 <= i < urls@.len() implies is_pairing_url(
                (#[trigger] urls@[i])@,
                self@.port,
                self@.pairing_token,
            ) by {
                assert(is_ipv4_text(ips@[i]@));
                assert(urls@[i]@ == pairing_url_text(ips@[i]@, self@.port, self@.pairing_token));
            }
            assert(texts(urls@) =~= texts(ips@).map_values(
                |ip: Seq<char>| pairing_url_text(ip, self@.port, self@.pairing_token),
            ));
        }
        urls
    }

    /// Begins a run on `port`. Fails if the server is running already; a run
    /// that was begun accepts connections once `mark_running` is called.
    pub fn start(&mut self, port: u16) -> (run: Result<WebServerState, String>)
        ensures
            run is Err == old(self)@.running,
            match run {
                Ok(run) => {
                    &&& final(self)@ == old(self)@.begun(port)
                    &&& run.active_sender == (ActiveWebSender { generation: 0, active: None })
                    &&& run.pairing_token@ == old(self)@.pairing_token
                    &&& run.port == port
                    &&& old(self)@.client_count == 0 ==> in_step(final(self)@, run)
                },
                Err(message) => final(self)@ == old(self)@ && message@
                    == "Web server is already running"@,
            },
    {
        if self.running {
            return Err("Web server is already running".to_owned());
        }
        self.port = port;
        Ok(
            WebServerState {
                active_sender: ActiveWebSender::new(),
                pairing_token: self.pairing_token.clone(),
                port,
            },
        )
    }

    /// The listener of a begun run is open: connections are accepted.
    pub fn mark_running(&mut self)
        ensures
            final(self)@ == (WebServerView { running: true, ..old(self)@ }),
    {
        self.running = true;
    }

    /// Ends the run, whether it was stopped or failed: nothing is connected and
    /// the live figures are clear.
    pub fn stop(&mut self)
        ensures
            final(self)@ == old(self)@.stopped(),
    {
        self.running = false;
        self.client_count = 0;
        self.telemetry.reset_live();
    }

    /// A browser has connected. It becomes the sender; a connection that was
    /// sending is superseded and the count stays.
    pub fn connect(&mut self, run: &mut WebServerState) -> (connected: Connected)
        requires
            old(run).active_sender.generation < u64::MAX,
            old(run).active_sender.active is None ==> old(self)@.client_count < usize::MAX,
        ensures
            connected == connection_of(old(self)@, *old(run)),
            (final(self)@, *final(run)) == after_connect(old(self)@, *old(run)),
            in_step(old(self)@, *old(run)) ==> in_step(final(self)@, *final(run)),
    {
        let (generation, superseded) = run.active_sender.activate();
        let replaced = superseded.is_some();
        if !replaced {
            self.client_count = self.client_count + 1;
        }
        let count: usize = self.client_count;
        Connected { generation, superseded, count, device_connected: count == 1 && !replaced }
    }

    /// A connection has sent `data`. `now` is the time in milliseconds and
    /// `level` the audio level of the frame.
    ///
    /// A frame of the newest connection that is neither too large nor ragged is
    /// counted, and passed on as 16-bit PCM with one channel. With it comes the
    /// gap that the jitter is brought forward from.
    pub fn receive(
        &mut self,
        run: &WebServerState,
        generation: u64,
        data: &[u8],
        now: u64,
        level: u32,
    ) -> (outcome: (FrameOutcome, Option<Arrival>))
        ensures
            match outcome.0 {
                FrameOutcome::Superseded => run.active_sender.generation != generation,
                FrameOutcome::TooLarge => run.active_sender.generation == generation && data@.len()
                    > MAX_FRAME_BYTES,
                FrameOutcome::Unaligned => run.active_sender.generation == generation
                    && data@.len() <= MAX_FRAME_BYTES && data@.len() % 4 != 0,
                FrameOutcome::Packet(packet) => {
                    &&& frame_accepted(run.active_sender, generation, data@.len())
                    &&& packet.buffer@ == pcm_bytes(data@)
                    &&& packet.sample_rate == WEB_SAMPLE_RATE
                    &&& packet.channel_count == 1
                    &&& packet.audio_format == 2
                    &&& packet.codec == AudioCodec::Pcm
                },
            },
            !frame_accepted(run.active_sender, generation, data@.len()) ==> {
                &&& final(self)@ == old(self)@
                &&& outcome.1 is None
            },
            frame_accepted(run.active_sender, generation, data@.len()) ==> {
                &&& final(self)@ == (WebServerView {
                    telemetry: old(self)@.telemetry.recorded(data@.len() as usize, now, level),
                    ..old(self)@
                })
                &&& outcome.1 == old(self)@.telemetry.arrival(data@.len() as usize, now)
            },
            in_step(old(self)@, *run) ==> in_step(final(self)@, *run),
    {
        if !run.active_sender.is_current(generation) {
            return (FrameOutcome::Superseded, None);
        }
        let length: usize = data.len();
        if length > MAX_FRAME_BYTES {
            return (FrameOutcome::TooLarge, None);
        }
        if length % 4 != 0 {
            return (FrameOutcome::Unaligned, None);
        }
        let arrival = self.telemetry.record_packet(length, now, level);
        let packet = AudioPacket {
            buffer: float32_to_pcm16(data),
            sample_rate: WEB_SAMPLE_RATE,
            channel_count: 1,
            audio_format: 2,
            codec: AudioCodec::Pcm,
        };
        (FrameOutcome::Packet(packet), arrival)
    }

    /// Takes over the jitter that the last frame's gap led to.
    pub fn set_jitter(&mut self, jitter_bits: u64)
        ensures
            final(self)@ == (WebServerView {
                telemetry: WebTelemetry { jitter_bits, ..old(self)@.telemetry },
                ..old(self)@
            }),
    {
        self.telemetry.set_jitter(jitter_bits);
    }

    /// A connection has ended. If it was the sender the count goes down, and
    /// with the last one the live figures are cleared; a superseded connection
    /// changes nothing.
    pub fn disconnect(
        &mut self,
        run: &mut WebServerState,
        generation: u64,
    ) -> (disconnected: Option<Disconnected>)
        ensures
            disconnected == disconnection_of(old(self)@, *old(run), generation),
            (final(self)@, *final(run)) == after_disconnect(old(self)@, *old(run), generation),
            in_step(old(self)@, *old(run)) ==> in_step(final(self)@, *final(run)),
    {
        if !run.active_sender.deactivate(generation) {
            return None;
        }
        let remaining: usize = decrement_client_count(&mut self.client_count);
        if remaining == 0 {
            self.telemetry.reset_live();
        }
        Some(Disconnected { remaining, device_disconnected: remaining == 0 })
    }
}

/// A server that was stopped can be started again, on any port, and phones stay
/// paired with it: only another server has another token.
pub proof fn restart_keeps_phones_paired(server: WebServerView, port: u16)
    ensures
        !server.stopped().running,
        server.stopped().begun(port).pairing_token == server.pairing_token,
        server.stopped().begun(port).client_count == 0,
        server.stopped().begun(port).port == port,
{
}

/// One browser at most is counted at a time, and while one is, it is the newest
/// connection.
pub proof fn one_browser_at_a_time(server: WebServerView, run: WebServerState)
    requires
        in_step(server, run),
    ensures
        server.client_count <= 1,
        server.client_count == 1 ==> run.active_sender.active == Some(run.active_sender.generation),
{
}

/// Only the newest connection is heard: once a connection has taken over, no
/// frame of an earlier one is passed on.
pub proof fn newest_connection_takes_over(
    server: WebServerView,
    run: WebServerState,
    earlier: u64,
    length: nat,
)
    requires
        run.active_sender.generation < u64::MAX,
        earlier <= run.active_sender.generation,
    ensures
        !frame_accepted(after_connect(server, run).1.active_sender, earlier, length),
{
}

/// Taking over is seamless: the count stays, no device is reported as come or
/// gone, and the end of the superseded connection changes nothing.
pub proof fn takeover_is_seamless(server: WebServerView, run: WebServerState)
    requires
        in_step(server, run),
        run.active_sender.active is Some,
        run.active_sender.generation < u64::MAX,
    ensures
        ({
            let superseded = run.active_sender.generation;
            let (later, later_run) = after_connect(server, run);
            &&& later.client_count == server.client_count
            &&& connection_of(server, run).superseded == Some(superseded)
            &&& !connection_of(server, run).device_connected
            &&& disconnection_of(later, later_run, superseded) is None
            &&& after_disconnect(later, later_run, superseded) == (later, later_run)
        }),
{
}

/// A browser that comes and goes is reported both times, and leaves the count
/// and the run's sender as they were.
pub proof fn browser_comes_and_goes(server: WebServerView, run: WebServerState)
    requires
        in_step(server, run),
        run.active_sender.active is None,
        run.active_sender.generation < u64::MAX,
    ensures
        ({
            let connected = connection_of(server, run);
            let (during, during_run) = after_connect(server, run);
            let end = disconnection_of(during, during_run, connected.generation);
            let (after, after_run) = after_disconnect(during, during_run, connected.generation);
            &&& connected.device_connected && connected.count == 1
            &&& end == Some(Disconnected { remaining: 0, device_disconnected: true })
            &&& after.client_count == server.client_count
            &&& after.telemetry == server.telemetry.cleared()
            &&& after_run.active_sender.active is None
            &&& in_step(after, after_run)
        }),
{
}

/// Whether a connection goes on after handing over a packet: a full pipeline
/// only costs the packet.
pub fn keeps_receiving(sent: SendOutcome) -> (yes: bool)
    ensures
        yes == (sent != SendOutcome::Closed),
{
    match sent {
        SendOutcome::Sent => true,
        SendOutcome::Full => true,
        SendOutcome::Closed => false,
    }
}

/// Browsers that come and go leave the server itself alone: it goes on running or
/// not, on the same port and with the same token, and so does the run.
pub proof fn connections_leave_the_server_alone(
    server: WebServerView,
    run: WebServerState,
    generation: u64,
)
    ensures
        after_connect(server, run).0.running == server.running,
        after_connect(server, run).0.port == server.port,
        after_connect(server, run).0.pairing_token == server.pairing_token,
        after_connect(server, run).0.telemetry == server.telemetry,
        after_connect(server, run).1.pairing_token == run.pairing_token,
        after_connect(server, run).1.port == run.port,
        after_disconnect(server, run, generation).0.running == server.running,
        after_disconnect(server, run, generation).0.port == server.port,
        after_disconnect(server, run, generation).0.pairing_token == server.pairing_token,
        after_disconnect(server, run, generation).1.pairing_token == run.pairing_token,
        after_disconnect(server, run, generation).1.port == run.port,
{
}

/// A new connection gets the number after the newest one and is the sender; it
/// counts unless it takes over, and what is reported is what then holds.
pub proof fn new_connection_is_the_sender(server: WebServerView, run: WebServerState)
    requires
        run.active_sender.generation < u64::MAX,
        server.client_count < usize::MAX,
    ensures
        ({
            let (later, later_run) = after_connect(server, run);
            let connected = connection_of(server, run);
            &&& connected.generation == run.active_sender.generation + 1
            &&& later_run.active_sender.active == Some(connected.generation)
            &&& later_run.active_sender.generation == connected.generation
            &&& connected.superseded == run.active_sender.active
            &&& connected.count == later.client_count
            &&& later.client_count - server.client_count == if run.active_sender.active is Some {
                0int
            } else {
                1
            }
            &&& connected.device_connected <==> run.active_sender.active is None
                && server.client_count == 0
        }),
{
}

/// Only the end of the sender is one: it takes one from the count, frees the place
/// of the sender and, with the last browser, clears the live figures. Any other
/// end changes nothing and is not reported.
pub proof fn only_the_sender_can_end(server: WebServerView, run: WebServerState, generation: u64)
    requires
        server.client_count <= usize::MAX,
    ensures
        ({
            let (later, later_run) = after_disconnect(server, run, generation);
            let end = disconnection_of(server, run, generation);
            &&& end is Some <==> run.active_sender.active == Some(generation)
            &&& end is None ==> later == server && later_run == run
            &&& later_run.active_sender.generation == run.active_sender.generation
            &&& end matches Some(report) ==> {
                &&& later_run.active_sender.active is None
                &&& server.client_count > 0 ==> later.client_count == server.client_count - 1
                &&& server.client_count == 0 ==> later.client_count == 0
                &&& report.remaining == later.client_count
                &&& report.device_disconnected <==> later.client_count == 0
                &&& later.client_count == 0 ==> later.telemetry == server.telemetry.cleared()
                &&& later.client_count > 0 ==> later.telemetry == server.telemetry
            }
        }),
{
}

/// Beginning a run changes the port only; ending one stops the server, forgets its
/// clients and clears the live figures, and changes nothing else.
pub proof fn runs_begin_and_end(server: WebServerView, port: u16)
    ensures
        server.begun(port).port == port,
        server.begun(port).running == server.running,
        server.begun(port).client_count == server.client_count,
        server.begun(port).pairing_token == server.pairing_token,
        server.begun(port).telemetry == server.telemetry,
        !server.stopped().running,
        server.stopped().client_count == 0,
        server.stopped().port == server.port,
        server.stopped().pairing_token == server.pairing_token,
        server.stopped().telemetry == server.telemetry.cleared(),
{
}

/// The frames that are passed on are those of the newest connection that hold whole
/// floats and at most 64 KiB.
pub proof fn passed_on_frames_are_whole_and_current(
    sender: ActiveWebSender,
    generation: u64,
    floats: nat,
    extra: nat,
)
    requires
        extra < 4,
    ensures
        frame_accepted(sender, generation, 4 * floats + extra) <==> {
            &&& generation == sender.generation
            &&& extra == 0
            &&& floats <= 16384
        },
{
}

/// Whether each usable address of a listing has its pairing address in `urls`, and
/// every one of `urls` is the pairing address on one of them.
pub open spec fn pairs_listing(
    urls: Seq<Seq<char>>,
    listing: Option<Vec<InterfaceAddress>>,
    port: u16,
    token: Seq<char>,
) -> bool {
    &&& listing is None ==> urls.len() == 0
    &&& listing is Some ==> forall|i: int|
        0 <= i < listing->0@.len() && usable(#[trigger] listing->0@[i]) ==> urls.contains(
            pairing_url_text(listing->0@[i].address@, port, token),
        )
    &&& listing is Some ==> forall|k: int|
        0 <= k < urls.len() ==> is_on_listed_address(#[trigger] urls[k], listing->0@, port, token)
}

/// Whether `url` is the pairing address on a usable address of a listing.
pub open spec fn is_on_listed_address(
    url: Seq<char>,
    found: Seq<InterfaceAddress>,
    port: u16,
    token: Seq<char>,
) -> bool {
    exists|i: int|
        0 <= i < found.len() && usable(#[trigger] found[i]) && url == pairing_url_text(
            found[i].address@,
            port,
            token,
        )
}

/// Each usable address of a listing that the machine gave has its pairing address,
/// and every pairing address is on one of them.
pub proof fn every_listed_address_has_pairing_address(
    urls: Seq<Seq<char>>,
    port: u16,
    token: Seq<char>,
)
    requires
        pairs_lan_addresses(urls, port, token),
    ensures
        exists|listing: Option<Vec<InterfaceAddress>>| #[trigger]
            machine_gave(listing) && pairs_listing(urls, listing, port, token),
{
    let ips = choose|ips: Seq<Seq<char>>| #[trigger]
        are_machine_addresses(ips) && are_lan_addresses(ips) && urls == ips.map_values(
            |ip: Seq<char>| pairing_url_text(ip, port, token),
        );
    crate::lan::machine_addresses_come_from_listing(ips);
    let listing = choose|listing: Option<Vec<InterfaceAddress>>| #[trigger]
        machine_gave(listing) && selects(ips, listing);
    if listing is Some {
        let found = listing->0@;
        assert forall|i: int| 0 <= i < found.len() && usable(#[trigger] found[i]) implies urls.contains(
            pairing_url_text(found[i].address@, port, token),
        ) by {
            crate::lan::usable_addresses_are_selected(ips, listing, i);
            let k = choose|k: int| 0 <= k < ips.len() && #[trigger] ips[k] == found[i].address@;
            assert(urls[k] == pairing_url_text(ips[k], port, token));
        }
        assert forall|k: int| 0 <= k < urls.len() implies is_on_listed_address(
            #[trigger] urls[k],
            found,
            port,
            token,
        ) by {
            crate::lan::selected_addresses_are_usable(ips, listing, k);
            let i = choose|i: int|
                0 <= i < found.len() && usable(#[trigger] found[i]) && found[i].address@ == ips[k];
            assert(urls[k] == pairing_url_text(found[i].address@, port, token));
        }
    } else {
        crate::lan::selected_addresses_are_in_order(ips, listing, 0, 0);
    }
    assert(pairs_listing(urls, listing, port, token));
}

} // verus!
