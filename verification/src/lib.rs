//! Request preparation for a desktop front end's HTTP bridge, and session
//! bookkeeping for its two MQTT bridges (plain TCP, and TLS with client
//! certificates).
pub mod http_service;
pub mod mqtt_common;
pub mod mqtt_service;
pub mod mqtt_service_xctls;
