use ness::mqtt_common::{
    event_notice, standard_settings, start_session, ConnAckCode, ConnectStep, MqttEvent, QosLevel,
    TlsFiles, UiEvent,
};
use ness::mqtt_service::MqttClient;
use ness::mqtt_service_xctls::MqttClient as TlsMqttClient;

fn s(t: &str) -> String {
    t.to_string()
}

/// Runs a connect call as the application does; true when a new session
/// was started.
fn connect(c: &mut MqttClient) -> bool {
    match c.mqtt_connect(s("client-1"), s("localhost"), 1883, s("user"), s("pw")) {
        ConnectStep::AlreadyConnected { notice } => {
            assert!(matches!(notice, UiEvent::Connected(true)));
            false
        }
        ConnectStep::Start { settings } => {
            let (client, _event_loop) = start_session(settings);
            c.install(client);
            true
        }
    }
}

fn tls_files() -> TlsFiles {
    TlsFiles { ca: b"ca".to_vec(), client_cert: b"cert".to_vec(), client_key: b"key".to_vec() }
}

fn connect_tls(c: &mut TlsMqttClient) -> bool {
    match c.mqtt_connect(s("client-2"), s("broker"), 8883, s("user"), s("pw"), tls_files()) {
        ConnectStep::AlreadyConnected { notice } => {
            assert!(matches!(notice, UiEvent::Connected(true)));
            false
        }
        ConnectStep::Start { settings } => {
            let (client, _event_loop) = start_session(settings);
            c.install(client);
            true
        }
    }
}

fn notice_name(n: &Option<UiEvent>) -> Option<String> {
    n.as_ref().map(|e| e.event_name())
}

#[test]
fn event_names() {
    assert_eq!(UiEvent::Connected(true).event_name(), "tauri_mqtt_connected");
    assert_eq!(
        UiEvent::MessageReceived { topic: s("t"), data: s("d") }.event_name(),
        "tauri_mqtt_message_received"
    );
    assert_eq!(UiEvent::Disconnected.event_name(), "tauri_mqtt_disconnect");
    assert_eq!(UiEvent::ConnectionLost(s("e")).event_name(), "tauri_mqtt_disconnect");
}

#[test]
fn publish_event_payload_is_text() {
    match event_notice(MqttEvent::Publish { topic: s("a/b"), payload: "héllo".as_bytes().to_vec() }) {
        Some(UiEvent::MessageReceived { topic, data }) => {
            assert_eq!(topic, "a/b");
            assert_eq!(data, "héllo");
        },
        _ => panic!("expected a message notice"),
    }
}

#[test]
fn invalid_utf8_payload_is_replaced() {
    match event_notice(MqttEvent::Publish { topic: s("t"), payload: vec![b'o', 0xff, b'k'] }) {
        Some(UiEvent::MessageReceived { data, .. }) => assert_eq!(data, "o\u{fffd}k"),
        _ => panic!("expected a message notice"),
    }
}

#[test]
fn connack_and_error_notices() {
    assert!(matches!(event_notice(MqttEvent::ConnAck(ConnAckCode::Success)), Some(UiEvent::Connected(true))));
    assert!(matches!(
        event_notice(MqttEvent::ConnAck(ConnAckCode::NotAuthorized)),
        Some(UiEvent::Connected(false))
    ));
    assert!(matches!(event_notice(MqttEvent::Disconnect), Some(UiEvent::Disconnected)));
    assert!(event_notice(MqttEvent::Other).is_none());
    match event_notice(MqttEvent::Error(s("refused"))) {
        Some(UiEvent::ConnectionLost(m)) => assert_eq!(m, "refused"),
        _ => panic!("expected a connection-lost notice"),
    }
}

#[test]
fn standard_limits() {
    let st = standard_settings(s("id"), s("h"), 1);
    assert_eq!(st.request_channel_capacity, 50);
    assert_eq!(st.max_incoming_packet_size, 157_286_400);
    assert_eq!(st.max_outgoing_packet_size, 1_048_576);
    assert_eq!(st.keep_alive_secs, 15);
    assert!(st.clean_session);
    assert_eq!(st.inflight, 50);
    assert_eq!(st.client_channel_capacity, 50);
}

#[test]
fn credentials_only_with_user_name() {
    let with = MqttClient::connection_settings(s("id"), s("h"), 1, s("u"), s("p"));
    assert_eq!(with.credentials, Some((s("u"), s("p"))));
    assert!(with.tls.is_none());
    let without = MqttClient::connection_settings(s("id"), s("h"), 1, s(""), s("p"));
    assert!(without.credentials.is_none());
}

#[test]
fn tls_settings_always_carry_credentials() {
    let st = TlsMqttClient::connection_settings(s("id"), s("h"), 8883, s(""), s(""), tls_files());
    assert_eq!(st.credentials, Some((s(""), s(""))));
    let tls = st.tls.unwrap();
    assert_eq!(tls.ca, b"ca".to_vec());
    assert_eq!(tls.client_auth, Some((b"cert".to_vec(), b"key".to_vec())));
    assert!(tls.alpn.is_none());
}

#[test]
fn requests_need_a_session() {
    let c = MqttClient::new();
    assert!(!c.is_connected());
    assert_eq!(c.mqtt_subscribe_topic(s("t")).err(), Some(s("MQTT client is not connected")));
    assert_eq!(
        c.mqtt_publish_message(s("t"), s("m")).err(),
        Some(s("MQTT client is not connected"))
    );
    assert!(c.mqtt_unsubscribe_topic(s("t")).is_none());
}

#[test]
fn connect_then_requests() {
    let mut c = MqttClient::default();
    assert!(connect(&mut c));
    assert!(c.is_connected());
    let (_, sub) = c.mqtt_subscribe_topic(s("a/#")).unwrap();
    assert_eq!(sub.topic, "a/#");
    assert_eq!(sub.qos, QosLevel::AtMostOnce);
    let (_, p) = c.mqtt_publish_message(s("a/b"), s("hi")).unwrap();
    assert_eq!(p.topic, "a/b");
    assert_eq!(p.payload, "hi");
    assert_eq!(p.qos, QosLevel::AtMostOnce);
    assert!(!p.retain);
    let (_, t) = c.mqtt_unsubscribe_topic(s("a/#")).unwrap();
    assert_eq!(t, "a/#");
}

#[test]
fn second_connect_reuses_session() {
    let mut c = MqttClient::new();
    let _ = connect(&mut c);
    assert!(!connect(&mut c));
    assert!(c.is_connected());
}

#[test]
fn disconnect_releases_session() {
    let mut c = MqttClient::new();
    assert!(c.mqtt_disconnect().is_none());
    let _ = connect(&mut c);
    assert!(c.mqtt_disconnect().is_some());
    assert!(!c.is_connected());
    assert!(c.mqtt_subscribe_topic(s("t")).is_err());
}

#[test]
fn loop_events_plain() {
    let mut c = MqttClient::new();
    let _ = connect(&mut c);
    let r = c.handle_event(MqttEvent::ConnAck(ConnAckCode::Success));
    assert!(!r.stop && c.is_connected());
    let r = c.handle_event(MqttEvent::Publish { topic: s("t"), payload: b"x".to_vec() });
    assert!(!r.stop && c.is_connected());
    assert_eq!(notice_name(&r.notice), Some(s("tauri_mqtt_message_received")));
    let r = c.handle_event(MqttEvent::Other);
    assert!(!r.stop && r.notice.is_none() && c.is_connected());
    // A refused CONNACK releases the session but polling goes on.
    let r = c.handle_event(MqttEvent::ConnAck(ConnAckCode::BadUserNamePassword));
    assert!(!r.stop && !c.is_connected());
    assert!(matches!(r.notice, Some(UiEvent::Connected(false))));
}

#[test]
fn broker_disconnect_ends_plain_loop() {
    let mut c = MqttClient::new();
    let _ = connect(&mut c);
    let r = c.handle_event(MqttEvent::Disconnect);
    assert!(r.stop && !c.is_connected());
    assert!(matches!(r.notice, Some(UiEvent::Disconnected)));
    assert!(connect(&mut c));
}

#[test]
fn poll_error_ends_loop_and_allows_reconnect() {
    let mut c = MqttClient::new();
    let _ = connect(&mut c);
    let r = c.handle_event(MqttEvent::Error(s("io error")));
    assert!(r.stop && !c.is_connected());
    assert_eq!(notice_name(&r.notice), Some(s("tauri_mqtt_disconnect")));
    assert!(connect(&mut c));
}

#[test]
fn tls_precheck_and_connect() {
    let mut c = TlsMqttClient::new();
    assert!(c.connect_precheck().is_none());
    assert!(connect_tls(&mut c));
    assert!(matches!(c.connect_precheck(), Some(UiEvent::Connected(true))));
    assert!(!connect_tls(&mut c));
}

#[test]
fn tls_loop_events() {
    let mut c = TlsMqttClient::new();
    let _ = connect_tls(&mut c);
    let r = c.handle_event(MqttEvent::Disconnect);
    assert!(!r.stop && c.is_connected());
    assert!(matches!(r.notice, Some(UiEvent::Disconnected)));
    let r = c.handle_event(MqttEvent::ConnAck(ConnAckCode::NotAuthorized));
    assert!(r.stop && !c.is_connected());
    assert!(matches!(r.notice, Some(UiEvent::Connected(false))));
}

#[test]
fn tls_disconnect_failure_keeps_session() {
    let mut c = TlsMqttClient::new();
    let _ = connect_tls(&mut c);
    assert!(c.disconnect_target().is_some());
    assert_eq!(c.mqtt_disconnect(Err(s("channel closed"))), Err(s("channel closed")));
    assert!(c.is_connected());
    assert_eq!(c.mqtt_disconnect(Ok(())), Ok(()));
    assert!(!c.is_connected());
    assert!(c.disconnect_target().is_none());
    assert_eq!(c.mqtt_subscribe_topic(s("t")).err(), Some(s("MQTT client is not connected")));
}

#[test]
fn connect_decides_settings() {
    let c = MqttClient::new();
    match c.mqtt_connect(s("id"), s("h"), 1883, s(""), s("pw")) {
        ConnectStep::Start { settings } => {
            assert_eq!(settings.client_id, "id");
            assert_eq!(settings.host, "h");
            assert_eq!(settings.port, 1883);
            assert!(settings.credentials.is_none());
            assert!(settings.tls.is_none());
            assert_eq!(settings.keep_alive_secs, 15);
        }
        _ => panic!("expected a new session"),
    }
    let t = TlsMqttClient::new();
    match t.mqtt_connect(s("id"), s("h"), 8883, s("u"), s("p"), tls_files()) {
        ConnectStep::Start { settings } => {
            assert_eq!(settings.credentials, Some((s("u"), s("p"))));
            assert_eq!(settings.tls.unwrap().ca, b"ca".to_vec());
        }
        _ => panic!("expected a new session"),
    }
}

#[test]
fn started_session_holds_plain_settings() {
    let c = MqttClient::new();
    match c.mqtt_connect(s("c1"), s("localhost"), 1883, s(""), s("pw")) {
        ConnectStep::Start { settings } => {
            let (_client, event_loop) = start_session(settings);
            let o = &event_loop.mqtt_options;
            assert_eq!(o.client_id(), "c1");
            assert_eq!(o.broker_address(), (s("localhost"), 1883));
            assert_eq!(o.keep_alive(), std::time::Duration::from_secs(15));
            assert!(o.clean_session());
            assert_eq!(o.inflight(), 50);
            assert_eq!(o.request_channel_capacity(), 50);
            assert_eq!(o.max_packet_size(), 157_286_400);
            assert!(o.credentials().is_none());
            assert!(matches!(o.transport(), rumqttc::Transport::Tcp));
        }
        _ => panic!("expected a new session"),
    }
}

#[test]
fn started_session_holds_tls_settings() {
    let c = TlsMqttClient::new();
    match c.mqtt_connect(s("c2"), s("broker"), 8883, s(""), s("pw"), tls_files()) {
        ConnectStep::Start { settings } => {
            let (_client, event_loop) = start_session(settings);
            let o = &event_loop.mqtt_options;
            assert_eq!(o.client_id(), "c2");
            assert_eq!(o.broker_address(), (s("broker"), 8883));
            assert_eq!(o.credentials(), Some((s(""), s("pw"))));
            match o.transport() {
                rumqttc::Transport::Tls(rumqttc::TlsConfiguration::Simple { ca, alpn, client_auth }) => {
                    assert_eq!(ca, b"ca".to_vec());
                    assert!(alpn.is_none());
                    assert_eq!(client_auth, Some((b"cert".to_vec(), b"key".to_vec())));
                }
                _ => panic!("expected a TLS transport"),
            }
        }
        _ => panic!("expected a new session"),
    }
}
