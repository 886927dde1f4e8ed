# ness

The logic behind a desktop front end's HTTP and MQTT bridges, verified with
Verus.

- `src/http_service.rs`: checks and normalises a request description
  (method, headers, query, body, timeout) and maps the transport's outcome to
  the answer returned to the front end.
- `src/mqtt_common.rs`: events of the MQTT event loop, notices for the front
  end, request descriptions, session settings, and the creation of a session.
- `src/mqtt_service.rs`: the session slot of the plain-TCP bridge.
- `src/mqtt_service_xctls.rs`: the session slot of the TLS bridge with client
  certificates.
- `app/`: the Tauri commands that await the network and poll the event loop.
