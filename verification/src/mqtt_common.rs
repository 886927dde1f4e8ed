//! What the two MQTT bridges share: the events that the connection's event
//! loop reports, the notices sent to the front end, the requests made of a
//! connected client, and the settings a new session is started with.
use vstd::prelude::*;
use vstd::utf8::*;

verus! {

// ---------------------------------------------------------------------------
// Outside types carried through
// ---------------------------------------------------------------------------

/// `rumqttc::AsyncClient`: the handle through which requests reach a session.
#[verifier::external_type_specification]
#[verifier::external_body]
pub struct ExAsyncClient(rumqttc::AsyncClient);

/// `rumqttc::EventLoop`: the session's connection, polled by the application.
#[verifier::external_type_specification]
#[verifier::external_body]
pub struct ExEventLoop(rumqttc::EventLoop);

/// `rumqttc::MqttOptions`: the options a session is created with.
#[verifier::external_type_specification]
#[verifier::external_body]
pub struct ExMqttOptions(rumqttc::MqttOptions);

// ---------------------------------------------------------------------------
// Events from the event loop, notices to the front end
// ---------------------------------------------------------------------------

/// The return code of a CONNACK packet.
#[derive(Clone, Copy, PartialEq, Eq, Structural, Debug)]
pub enum ConnAckCode {
    Success,
    RefusedProtocolVersion,
    BadClientId,
    ServiceUnavailable,
    BadUserNamePassword,
    NotAuthorized,
}

/// What one poll of the event loop produced.
pub enum MqttEvent {
    /// An incoming CONNACK.
    ConnAck(ConnAckCode),
    /// An incoming PUBLISH.
    Publish { topic: String, payload: Vec<u8> },
    /// An incoming DISCONNECT.
    Disconnect,
    /// Any other incoming or outgoing packet.
    Other,
    /// The poll failed; the text is the error's message.
    Error(String),
}

/// A notice for the front end.
pub enum UiEvent {
    /// Whether the broker accepted the connection.
    Connected(bool),
    /// A message arrived; `data` is its payload read as UTF-8.
    MessageReceived { topic: String, data: String },
    /// The broker closed the connection.
    Disconnected,
    /// The connection failed; the text is the error's message.
    ConnectionLost(String),
}

/// The front end's name for each kind of notice.
pub open spec fn ui_event_name(e: UiEvent) -> Seq<char> {
    match e {
        UiEvent::Connected(_) => "tauri_mqtt_connected"@,
        UiEvent::MessageReceived { .. } => "tauri_mqtt_message_received"@,
        UiEvent::Disconnected => "tauri_mqtt_disconnect"@,
        UiEvent::ConnectionLost(_) => "tauri_mqtt_disconnect"@,
    }
}

impl UiEvent {
    /// The event name under which the notice is emitted.
    pub fn event_name(&self) -> (r: String)
        ensures
            r@ == ui_event_name(*self),
    {
        match self {
            UiEvent::Connected(_) => String::from_str("tauri_mqtt_connected"),
            UiEvent::MessageReceived { .. } => String::from_str("tauri_mqtt_message_received"),
            UiEvent::Disconnected => String::from_str("tauri_mqtt_disconnect"),
            UiEvent::ConnectionLost(_) => String::from_str("tauri_mqtt_disconnect"),
        }
    }
}

/// What `String::from_utf8_lossy` gives for bytes that are not valid UTF-8
/// (each invalid sequence replaced by U+FFFD).
pub uninterp spec fn utf8_lossy(bytes: Seq<u8>) -> Seq<char>;

/// The text of a payload: its UTF-8 decoding when it is valid UTF-8,
/// the lossy decoding otherwise.
pub open spec fn payload_text(bytes: Seq<u8>) -> Seq<char> {
    if valid_utf8(bytes) {
        decode_utf8(bytes)
    } else {
        utf8_lossy(bytes)
    }
}

/// Calls std's `String::from_utf8_lossy` and takes the text. Claimed: valid
/// UTF-8 is decoded as it stands (the documentation: the input is returned
/// borrowed when it is valid UTF-8); other input gives a text that is a
/// function of the bytes alone, named `utf8_lossy`.
#[verifier::external_body]
fn decode_payload(bytes: &[u8]) -> (r: String)
    ensures
        valid_utf8(bytes@) ==> r@ == decode_utf8(bytes@),
        !valid_utf8(bytes@) ==> r@ == utf8_lossy(bytes@),
{
    String::from_utf8_lossy(bytes).into_owned()
}

/// `notice` is what the front end is told about `ev`: the CONNACK's outcome,
/// the message with its payload as text, that the broker disconnected, or the
/// error; nothing for other packets.
pub open spec fn notice_for(ev: MqttEvent, notice: Option<UiEvent>) -> bool {
    match ev {
        MqttEvent::ConnAck(code) => notice == Some(UiEvent::Connected(code == ConnAckCode::Success)),
        MqttEvent::Publish { topic, payload } => notice matches Some(
            UiEvent::MessageReceived { topic: t, data },
        ) && t == topic && data@ == payload_text(payload@),
        MqttEvent::Disconnect => notice == Some(UiEvent::Disconnected),
        MqttEvent::Other => notice is None,
        MqttEvent::Error(m) => notice == Some(UiEvent::ConnectionLost(m)),
    }
}

/// A CONNACK's notice reports success exactly when its return code is
/// `Success`: every refused code is reported as not connected.
pub proof fn lemma_connack_notice_reports_success(c: ConnAckCode, notice: Option<UiEvent>)
    requires
        notice_for(MqttEvent::ConnAck(c), notice),
    ensures
        notice is Some,
        notice matches Some(n) && n is Connected,
        notice == Some(UiEvent::Connected(true)) <==> c == ConnAckCode::Success,
        notice == Some(UiEvent::Connected(false)) <==> c != ConnAckCode::Success,
{
}

/// The notice for an event of the event loop.
pub fn event_notice(ev: MqttEvent) -> (r: Option<UiEvent>)
    ensures
        notice_for(ev, r),
        ev matches MqttEvent::ConnAck(c) ==> r == Some(UiEvent::Connected(c == ConnAckCode::Success)),
{
    match ev {
        MqttEvent::ConnAck(code) => Some(UiEvent::Connected(code == ConnAckCode::Success)),
        MqttEvent::Publish { topic, payload } => {
            let data = decode_payload(payload.as_slice());
            Some(UiEvent::MessageReceived { topic, data })
        },
        MqttEvent::Disconnect => Some(UiEvent::Disconnected),
        MqttEvent::Other => None,
        MqttEvent::Error(m) => Some(UiEvent::ConnectionLost(m)),
    }
}

/// What handling one event asks of the application: a notice to emit, and
/// whether to stop polling.
pub struct EventReaction {
    pub notice: Option<UiEvent>,
    pub stop: bool,
}

// ---------------------------------------------------------------------------
// Requests made of a connected client
// ---------------------------------------------------------------------------

/// MQTT quality of service.
#[derive(Clone, Copy, PartialEq, Eq, Structural, Debug)]
pub enum QosLevel {
    AtMostOnce,
    AtLeastOnce,
    ExactlyOnce,
}

/// A subscription request.
pub struct Subscription {
    pub topic: String,
    pub qos: QosLevel,
}

/// A publish request.
pub struct Publication {
    pub topic: String,
    pub qos: QosLevel,
    pub retain: bool,
    pub payload: String,
}

/// The error of a request made while no session is held.
pub open spec fn not_connected_message() -> Seq<char> {
    "MQTT client is not connected"@
}

pub fn not_connected_error() -> (r: String)
    ensures
        r@ == not_connected_message(),
{
    String::from_str("MQTT client is not connected")
}

/// What a connect call decided.
pub enum ConnectStep {
    /// A session is already held: nothing new is started, and the front end
    /// is told that it is connected.
    AlreadyConnected { notice: UiEvent },
    /// A new session is to be started with these settings (`start_session`),
    /// its client installed in the slot and its event loop polled.
    Start { settings: ConnectionSettings },
}

// ---------------------------------------------------------------------------
// Session settings
// ---------------------------------------------------------------------------

/// Certificates read for a TLS connection with client authentication.
pub struct TlsFiles {
    pub ca: Vec<u8>,
    pub client_cert: Vec<u8>,
    pub client_key: Vec<u8>,
}

/// A TLS transport: the CA certificate, the client's certificate and key
/// (when it authenticates), and the ALPN protocols (when any are offered).
pub struct TlsSettings {
    pub ca: Vec<u8>,
    pub client_auth: Option<(Vec<u8>, Vec<u8>)>,
    pub alpn: Option<Vec<Vec<u8>>>,
}

/// Everything a session is created with.
pub struct ConnectionSettings {
    pub client_id: String,
    pub host: String,
    pub port: u16,
    pub request_channel_capacity: usize,
    pub max_incoming_packet_size: usize,
    pub max_outgoing_packet_size: usize,
    pub keep_alive_secs: u64,
    pub clean_session: bool,
    pub inflight: u16,
    pub credentials: Option<(String, String)>,
    pub tls: Option<TlsSettings>,
    pub client_channel_capacity: usize,
}

/// The settings both bridges use, before credentials and transport.
pub open spec fn has_standard_limits(s: ConnectionSettings) -> bool {
    &&& s.request_channel_capacity == 50
    &&& s.max_incoming_packet_size == 157286400
    &&& s.max_outgoing_packet_size == 1048576
    &&& s.keep_alive_secs == 15
    &&& s.clean_session
    &&& s.inflight == 50
    &&& s.client_channel_capacity == 50
}

/// Settings with the standard limits meet what `start_session` requires.
pub proof fn lemma_standard_limits_can_start(s: ConnectionSettings)
    requires
        has_standard_limits(s),
    ensures
        s.clean_session,
        s.inflight != 0,
{
}

/// Settings with the standard limits for the given broker and client id.
pub fn standard_settings(client_id: String, host: String, port: u16) -> (s: ConnectionSettings)
    ensures
        s.client_id == client_id,
        s.host == host,
        s.port == port,
        has_standard_limits(s),
        s.credentials is None,
        s.tls is None,
{
    ConnectionSettings {
        client_id,
        host,
        port,
        request_channel_capacity: 50,
        max_incoming_packet_size: 157286400,
        max_outgoing_packet_size: 1048576,
        keep_alive_secs: 15,
        clean_session: true,
        inflight: 50,
        credentials: None,
        tls: None,
        client_channel_capacity: 50,
    }
}

// ---------------------------------------------------------------------------
// Creating a session
// ---------------------------------------------------------------------------

/// What a `rumqttc::MqttOptions` holds of the settings the bridges set:
/// client id, broker address, request channel capacity, packet size limits,
/// keep-alive (whole seconds), clean session, in-flight limit, credentials and
/// transport (`None` for plain TCP, the TLS configuration otherwise).
pub struct OptionsHeld {
    pub client_id: String,
    pub host: String,
    pub port: u16,
    pub request_channel_capacity: usize,
    pub max_incoming_packet_size: usize,
    pub max_outgoing_packet_size: usize,
    pub keep_alive_secs: u64,
    pub clean_session: bool,
    pub inflight: u16,
    pub credentials: Option<(String, String)>,
    pub tls: Option<TlsSettings>,
}

/// The settings an `MqttOptions` value holds.
pub uninterp spec fn options_held(o: rumqttc::MqttOptions) -> OptionsHeld;

/// The options an `EventLoop` connects with (its public `mqtt_options`).
pub uninterp spec fn event_loop_options(l: rumqttc::EventLoop) -> rumqttc::MqttOptions;

/// The capacity of an `EventLoop`'s request channel.
pub uninterp spec fn event_loop_capacity(l: rumqttc::EventLoop) -> usize;

/// The options a session made from `s` holds.
pub open spec fn options_for(s: ConnectionSettings) -> OptionsHeld {
    OptionsHeld {
        client_id: s.client_id,
        host: s.host,
        port: s.port,
        request_channel_capacity: s.request_channel_capacity,
        max_incoming_packet_size: s.max_incoming_packet_size,
        max_outgoing_packet_size: s.max_outgoing_packet_size,
        keep_alive_secs: s.keep_alive_secs,
        clean_session: s.clean_session,
        inflight: s.inflight,
        credentials: s.credentials,
        tls: s.tls,
    }
}

/// The options made from settings hold every one of the settings' values,
/// field for field.
pub proof fn lemma_options_for_keeps_every_setting(s: ConnectionSettings)
    ensures
        options_for(s).client_id == s.client_id,
        options_for(s).host == s.host,
        options_for(s).port == s.port,
        options_for(s).request_channel_capacity == s.request_channel_capacity,
        options_for(s).max_incoming_packet_size == s.max_incoming_packet_size,
        options_for(s).max_outgoing_packet_size == s.max_outgoing_packet_size,
        options_for(s).keep_alive_secs == s.keep_alive_secs,
        options_for(s).clean_session == s.clean_session,
        options_for(s).inflight == s.inflight,
        options_for(s).credentials == s.credentials,
        options_for(s).tls == s.tls,
{
}

/// Calls `MqttOptions::new`. Its source sets the id and address given, plain
/// TCP, keep-alive 60 s, a clean session, no credentials, packet limits of
/// 10 KiB each way, a request channel capacity of 10 and an in-flight limit
/// of 100.
#[verifier::external_body]
fn options_new(client_id: String, host: String, port: u16) -> (r: rumqttc::MqttOptions)
    ensures
        options_held(r) == (OptionsHeld {
            client_id,
            host,
            port,
            request_channel_capacity: 10,
            max_incoming_packet_size: 10240,
            max_outgoing_packet_size: 10240,
            keep_alive_secs: 60,
            clean_session: true,
            inflight: 100,
            credentials: None,
            tls: None,
        }),
{
    rumqttc::MqttOptions::new(client_id, host, port)
}

/// Calls `MqttOptions::set_request_channel_capacity`, which sets only that
/// field.
#[verifier::external_body]
fn options_set_request_channel_capacity(o: &mut rumqttc::MqttOptions, capacity: usize)
    ensures
        options_held(*final(o)) == (OptionsHeld {
            request_channel_capacity: capacity,
            ..options_held(*old(o))
        }),
{
    o.set_request_channel_capacity(capacity);
}

/// Calls `MqttOptions::set_max_packet_size`, which sets only the two limits.
#[verifier::external_body]
fn options_set_max_packet_size(o: &mut rumqttc::MqttOptions, incoming: usize, outgoing: usize)
    ensures
        options_held(*final(o)) == (OptionsHeld {
            max_incoming_packet_size: incoming,
            max_outgoing_packet_size: outgoing,
            ..options_held(*old(o))
        }),
{
    o.set_max_packet_size(incoming, outgoing);
}

/// Calls `MqttOptions::set_keep_alive` with whole seconds, which sets only the
/// keep-alive (it panics only for a duration strictly between zero and one
/// second, which whole seconds never are).
#[verifier::external_body]
fn options_set_keep_alive(o: &mut rumqttc::MqttOptions, secs: u64)
    ensures
        options_held(*final(o)) == (OptionsHeld { keep_alive_secs: secs, ..options_held(*old(o)) }),
{
    o.set_keep_alive(std::time::Duration::from_secs(secs));
}

/// Calls `MqttOptions::set_clean_session`, which sets only that flag. It
/// panics when asked to unset the clean session of an empty client id; only
/// `true` is passed.
#[verifier::external_body]
fn options_set_clean_session(o: &mut rumqttc::MqttOptions, clean: bool)
    requires
        clean,
    ensures
        options_held(*final(o)) == (OptionsHeld { clean_session: clean, ..options_held(*old(o)) }),
{
    o.set_clean_session(clean);
}

/// Calls `MqttOptions::set_inflight`, which sets only that limit and panics
/// on zero.
#[verifier::external_body]
fn options_set_inflight(o: &mut rumqttc::MqttOptions, inflight: u16)
    requires
        inflight != 0,
    ensures
        options_held(*final(o)) == (OptionsHeld { inflight, ..options_held(*old(o)) }),
{
    o.set_inflight(inflight);
}

/// Calls `MqttOptions::set_credentials`, which sets only the credentials.
#[verifier::external_body]
fn options_set_credentials(o: &mut rumqttc::MqttOptions, username: String, password: String)
    ensures
        options_held(*final(o)) == (OptionsHeld {
            credentials: Some((username, password)),
            ..options_held(*old(o))
        }),
{
    o.set_credentials(username, password);
}

/// Calls `MqttOptions::set_transport` with `Transport::Tls` of the
/// `TlsConfiguration::Simple` that holds the given certificates, client
/// authentication and ALPN field for field; it sets only the transport.
#[verifier::external_body]
fn options_set_tls(o: &mut rumqttc::MqttOptions, tls: TlsSettings)
    ensures
        options_held(*final(o)) == (OptionsHeld { tls: Some(tls), ..options_held(*old(o)) }),
{
    o.set_transport(rumqttc::Transport::Tls(rumqttc::TlsConfiguration::Simple {
        ca: tls.ca,
        alpn: tls.alpn,
        client_auth: tls.client_auth,
    }));
}

/// Calls `AsyncClient::new`, which creates the request channel with the given
/// capacity and an event loop that keeps the options unchanged, without
/// touching the network. Nothing is stated of the client handle, which is
/// opaque here.
#[verifier::external_body]
fn async_client_new(o: rumqttc::MqttOptions, capacity: usize) -> (r: (
    rumqttc::AsyncClient,
    rumqttc::EventLoop,
))
    ensures
        event_loop_options(r.1) == o,
        event_loop_capacity(r.1) == capacity,
{
    rumqttc::AsyncClient::new(o, capacity)
}

/// Creates a session (client handle and event loop) from the settings: the
/// event loop connects with options that hold exactly these settings, and
/// its request channel has the settings' client channel capacity.
pub fn start_session(s: ConnectionSettings) -> (r: (rumqttc::AsyncClient, rumqttc::EventLoop))
    requires
        s.clean_session,
        s.inflight != 0,
    ensures
        options_held(event_loop_options(r.1)) == options_for(s),
        event_loop_capacity(r.1) == s.client_channel_capacity,
        ({
            let held = options_held(event_loop_options(r.1));
            &&& held.client_id == s.client_id
            &&& held.host == s.host
            &&& held.port == s.port
            &&& held.request_channel_capacity == s.request_channel_capacity
            &&& held.max_incoming_packet_size == s.max_incoming_packet_size
            &&& held.max_outgoing_packet_size == s.max_outgoing_packet_size
            &&& held.keep_alive_secs == s.keep_alive_secs
            &&& held.clean_session == s.clean_session
            &&& held.inflight == s.inflight
            &&& held.credentials == s.credentials
            &&& held.tls == s.tls
        }),
{
    let ConnectionSettings {
        client_id,
        host,
        port,
        request_channel_capacity,
        max_incoming_packet_size,
        max_outgoing_packet_size,
        keep_alive_secs,
        clean_session,
        inflight,
        credentials,
        tls,
        client_channel_capacity,
    } = s;
    let mut o = options_new(client_id, host, port);
    options_set_request_channel_capacity(&mut o, request_channel_capacity);
    options_set_max_packet_size(&mut o, max_incoming_packet_size, max_outgoing_packet_size);
    options_set_keep_alive(&mut o, keep_alive_secs);
    options_set_clean_session(&mut o, clean_session);
    options_set_inflight(&mut o, inflight);
    match tls {
        Some(t) => options_set_tls(&mut o, t),
        None => {},
    }
    match credentials {
        Some((u, p)) => options_set_credentials(&mut o, u, p),
        None => {},
    }
    async_client_new(o, client_channel_capacity)
}

} // verus!
