//! The MQTT bridge over plain TCP: one session at a time, held between the
//! front end's commands and the event loop that the application polls.
use vstd::prelude::*;
use crate::mqtt_common::{
    has_standard_limits, not_connected_error, not_connected_message, notice_for,
    standard_settings, ConnAckCode, ConnectStep, ConnectionSettings, EventReaction, MqttEvent,
    Publication, QosLevel, Subscription, UiEvent, event_notice,
};

verus! {

/// The session slot shared by the commands and the event loop.
pub struct MqttClient {
    client: Option<rumqttc::AsyncClient>,
}

impl View for MqttClient {
    type V = bool;

    /// Whether a session is held.
    open spec fn view(&self) -> bool {
        self.session() is Some
    }
}

impl MqttClient {
    /// The held session's client handle, if any.
    pub closed spec fn session(&self) -> Option<rumqttc::AsyncClient> {
        self.client
    }
}

impl Default for MqttClient {
    fn default() -> (r: Self)
        ensures
            r.session() is None,
            !r@,
    {
        MqttClient { client: None }
    }
}

/// A broker closing the connection or a failed poll stops the event loop.
pub open spec fn ends_loop(ev: MqttEvent) -> bool {
    ev is Disconnect || ev is Error
}

/// Whether the held session is kept after an event: a refused CONNACK,
/// a broker disconnect and a failed poll release it.
pub open spec fn session_survives(ev: MqttEvent) -> bool {
    match ev {
        MqttEvent::ConnAck(code) => code == ConnAckCode::Success,
        MqttEvent::Disconnect => false,
        MqttEvent::Error(_) => false,
        _ => true,
    }
}

/// The settings of a new session: the standard limits, and credentials only
/// when a user name is given.
pub open spec fn settings_for(
    s: ConnectionSettings,
    client_id: String,
    host: String,
    port: u16,
    username: String,
    password: String,
) -> bool {
    &&& s.client_id == client_id
    &&& s.host == host
    &&& s.port == port
    &&& has_standard_limits(s)
    &&& s.tls is None
    &&& s.credentials == if username@.len() > 0 {
        Some((username, password))
    } else {
        None
    }
}

impl MqttClient {
    /// An empty slot.
    pub fn new() -> (r: Self)
        ensures
            r.session() is None,
            !r@,
    {
        MqttClient { client: None }
    }

    /// Whether a session is held.
    pub fn is_connected(&self) -> (r: bool)
        ensures
            r == self@,
    {
        self.client.is_some()
    }

    /// The settings a connect call uses.
    pub fn connection_settings(
        client_id: String,
        host: String,
        port: u16,
        username: String,
        password: String,
    ) -> (s: ConnectionSettings)
        ensures
            settings_for(s, client_id, host, port, username, password),
            username@.len() > 0 ==> s.credentials == Some((username, password)),
            username@.len() == 0 ==> s.credentials is None,
    {
        let has_user = !username.as_str().is_empty();
        let mut s = standard_settings(client_id, host, port);
        if has_user {
            s.credentials = Some((username, password));
        }
        s
    }

    /// Decides a connect call: when a session is held nothing changes and the
    /// front end is told it is connected; otherwise a new session is to be
    /// started with the settings for these arguments.
    pub fn mqtt_connect(
        &self,
        client_id: String,
        host: String,
        port: u16,
        username: String,
        password: String,
    ) -> (r: ConnectStep)
        ensures
            self@ <==> r is AlreadyConnected,
            r matches ConnectStep::AlreadyConnected { notice } ==> notice == UiEvent::Connected(
                true,
            ),
            r matches ConnectStep::Start { settings } ==> settings_for(
                settings,
                client_id,
                host,
                port,
                username,
                password,
            ),
    {
        if self.client.is_some() {
            return ConnectStep::AlreadyConnected { notice: UiEvent::Connected(true) };
        }
        let settings = Self::connection_settings(client_id, host, port, username, password);
        ConnectStep::Start { settings }
    }

    /// Holds a newly started session's client.
    pub fn install(&mut self, client: rumqttc::AsyncClient)
        ensures
            final(self).session() == Some(client),
            final(self)@,
    {
        self.client = Some(client);
    }

    /// A subscription at most once to `topic`, through the held session;
    /// refused with "MQTT client is not connected" when none is held.
    pub fn mqtt_subscribe_topic(&self, topic: String) -> (r: Result<
        (&rumqttc::AsyncClient, Subscription),
        String,
    >)
        ensures
            r is Ok <==> self@,
            r matches Ok((c, sub)) ==> self.session() == Some(*c) && sub.topic == topic && sub.qos
                == QosLevel::AtMostOnce,
            r matches Err(e) ==> e@ == not_connected_message(),
    {
        match &self.client {
            Some(c) => Ok((c, Subscription { topic, qos: QosLevel::AtMostOnce })),
            None => Err(not_connected_error()),
        }
    }

    /// A publication of `message` to `topic`, at most once and not retained,
    /// through the held session; refused with "MQTT client is not connected"
    /// when none is held.
    pub fn mqtt_publish_message(&self, topic: String, message: String) -> (r: Result<
        (&rumqttc::AsyncClient, Publication),
        String,
    >)
        ensures
            r is Ok <==> self@,
            r matches Ok((c, p)) ==> {
                &&& self.session() == Some(*c)
                &&& p.topic == topic
                &&& p.payload == message
                &&& p.qos == QosLevel::AtMostOnce
                &&& !p.retain
            },
            r matches Err(e) ==> e@ == not_connected_message(),
    {
        match &self.client {
            Some(c) => Ok(
                (c, Publication { topic, qos: QosLevel::AtMostOnce, retain: false, payload: message }),
            ),
            None => Err(not_connected_error()),
        }
    }

    /// The held session and the topic to unsubscribe from; without a session
    /// there is nothing to do and the command succeeds.
    pub fn mqtt_unsubscribe_topic(&self, topic: String) -> (r: Option<
        (&rumqttc::AsyncClient, String),
    >)
        ensures
            r is Some <==> self@,
            r matches Some((c, t)) ==> self.session() == Some(*c) && t == topic,
    {
        match &self.client {
            Some(c) => Some((c, topic)),
            None => None,
        }
    }

    /// Releases the session before disconnecting it: the slot is empty
    /// afterwards whatever the disconnect's outcome; the released client, if
    /// any, is handed back to be disconnected.
    pub fn mqtt_disconnect(&mut self) -> (r: Option<rumqttc::AsyncClient>)
        ensures
            !final(self)@,
            final(self).session() is None,
            r == old(self).session(),
    {
        self.client.take()
    }

    /// Handles one event of the event loop: the notice for the front end,
    /// whether polling stops, and whether the session is kept.
    pub fn handle_event(&mut self, ev: MqttEvent) -> (r: EventReaction)
        ensures
            notice_for(ev, r.notice),
            r.stop == ends_loop(ev),
            final(self).session() == if session_survives(ev) {
                old(self).session()
            } else {
                None
            },
            ev matches MqttEvent::ConnAck(c) ==> {
                &&& r.notice == Some(UiEvent::Connected(c == ConnAckCode::Success))
                &&& r.stop == (false)
                &&& final(self).session() == if c == ConnAckCode::Success {
                    old(self).session()
                } else {
                    None
                }
            },
            ev is Disconnect ==> r.stop && final(self).session() is None,
            ev is Error ==> r.stop && final(self).session() is None,
            (ev is Publish || ev is Other) ==> !r.stop && final(self).session() == old(self).session(),
    {
        let survives = match &ev {
            MqttEvent::ConnAck(code) => *code == ConnAckCode::Success,
            MqttEvent::Disconnect => false,
            MqttEvent::Error(_) => false,
            _ => true,
        };
        let stop = match &ev {
            MqttEvent::Disconnect => true,
            MqttEvent::Error(_) => true,
            _ => false,
        };
        if !survives {
            self.client = None;
        }
        EventReaction { notice: event_notice(ev), stop }
    }
}

// ---------------------------------------------------------------------------
// Laws
// ---------------------------------------------------------------------------

/// Whenever the event loop stops, the session has been released, so the
/// next connect starts a new session.
pub proof fn lemma_loop_end_releases_session(ev: MqttEvent)
    requires
        ends_loop(ev),
    ensures
        !session_survives(ev),
{
}

/// Incoming messages and other packets neither release the session nor stop
/// the event loop.
pub proof fn lemma_traffic_keeps_session(ev: MqttEvent)
    requires
        ev is Publish || ev is Other,
    ensures
        session_survives(ev),
        !ends_loop(ev),
{
}

/// For every CONNACK return code: the session is kept exactly when the code
/// is `Success` and released for every refused code, and polling goes on
/// either way.
pub proof fn lemma_connack_decides_session(c: ConnAckCode)
    ensures
        session_survives(MqttEvent::ConnAck(c)) <==> c == ConnAckCode::Success,
        !ends_loop(MqttEvent::ConnAck(c)),
{
}

/// The event loop stops exactly on a broker disconnect or a failed poll.
pub proof fn lemma_loop_ends_only_on_disconnect_or_error(ev: MqttEvent)
    ensures
        ends_loop(ev) <==> (ev is Disconnect || ev is Error),
{
}

/// Credentials are sent exactly when a user name is given, whatever the
/// password (an empty password included).
pub proof fn lemma_credentials_follow_user_name(
    s: ConnectionSettings,
    client_id: String,
    host: String,
    port: u16,
    username: String,
    password: String,
)
    requires
        settings_for(s, client_id, host, port, username, password),
    ensures
        s.credentials is Some <==> username@.len() > 0,
        s.credentials matches Some((u, p)) ==> u == username && p == password,
{
}

} // verus!
