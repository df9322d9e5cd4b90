use feather_core::initial_handling::{
    handle, handle_ping, handle_status, send_status, Action, Event, HandlingError,
    InitialHandling, Next, ServerConfig, State, Step,
};
use feather_core::encryption::ServerKey;
use feather_core::packets::{
    ClientHandshakePacket, ClientLoginPacket, ClientStatusPacket, Handshake, HandshakeState,
    LoginStart, Ping, Pong, Request, Response, ServerStatusPacket,
};
use feather_core::status::{
    write_status_object, Players, StatusResponse, Text, Version, PROTOCOL_VERSION, SERVER_NAME,
};

fn status_key() -> ServerKey {
    ServerKey::generate().unwrap()
}

fn config(online_mode: bool) -> ServerConfig {
    ServerConfig { online_mode, max_players: 20, motd: Text { text: String::from("A Server") } }
}

fn handshake(next_state: HandshakeState) -> Event {
    Event::Handshake(ClientHandshakePacket::Handshake(Handshake {
        protocol_version: 751,
        server_address: String::from("localhost"),
        server_port: 25565,
        next_state,
    }))
}

const EXPECTED: &str = "{\"version\":{\"name\":\"Feather 1.16.2\",\"protocol\":751},\"players\":{\"max\":20,\"online\":3},\"description\":{\"text\":\"A Server\"}}";

#[test]
fn status_constants() {
    assert_eq!(SERVER_NAME, "Feather 1.16.2");
    assert_eq!(PROTOCOL_VERSION, 751);
}

#[test]
fn status_json_shape() {
    let status = StatusResponse::new(20, 3, &Text { text: String::from("A Server") });
    assert_eq!(
        status,
        StatusResponse {
            version: Version { name: String::from("Feather 1.16.2"), protocol: 751 },
            players: Players { max: 20, online: 3 },
            description: Text { text: String::from("A Server") },
        }
    );
    assert_eq!(status.to_json().unwrap(), EXPECTED);
}

#[test]
fn status_json_escapes_strings() {
    let status = StatusResponse::new(-1, 0, &Text { text: String::from("a \"b\"\n\\c") });
    let json = status.to_json().unwrap();
    assert_eq!(
        json,
        "{\"version\":{\"name\":\"Feather 1.16.2\",\"protocol\":751},\"players\":{\"max\":-1,\"online\":0},\"description\":{\"text\":\"a \\\"b\\\"\\n\\\\c\"}}"
    );
    let parsed: serde_json::Value = serde_json::from_str(&json).unwrap();
    assert_eq!(parsed["description"]["text"].as_str(), Some("a \"b\"\n\\c"));
    assert_eq!(parsed["players"]["max"].as_i64(), Some(-1));
}

#[test]
fn status_json_numbers_are_decimal() {
    let status = StatusResponse {
        version: Version { name: String::from("x"), protocol: i32::MIN },
        players: Players { max: i32::MAX, online: usize::MAX },
        description: Text { text: String::new() },
    };
    let expected = format!(
        "{{\"version\":{{\"name\":\"x\",\"protocol\":-2147483648}},\"players\":{{\"max\":2147483647,\"online\":{}}},\"description\":{{\"text\":\"\"}}}}",
        usize::MAX
    );
    assert_eq!(status.to_json().unwrap(), expected);
}

#[test]
fn status_object_is_written_around_its_values() {
    assert_eq!(
        write_status_object("N", "P", "M", "O", "D"),
        "{\"version\":{\"name\":N,\"protocol\":P},\"players\":{\"max\":M,\"online\":O},\"description\":{\"text\":D}}"
    );
}

#[test]
fn status_ping() {
    let key = status_key();
    let config = config(true);

    let step = handle(State::Handshake, handshake(HandshakeState::Status), &config, 3, &key);
    assert_eq!(step, Step { actions: vec![], next: Next::Await(State::StatusRequest) });

    let step = handle(
        State::StatusRequest,
        Event::Status(ClientStatusPacket::Request(Request {})),
        &config,
        3,
        &key,
    );
    assert_eq!(step.next, Next::Await(State::StatusPing));
    assert_eq!(step.actions.len(), 1);
    let json = match &step.actions[0] {
        Action::SendStatus(ServerStatusPacket::Response(response)) => response.response.clone(),
        other => panic!("unexpected action {:?}", other),
    };
    assert!(json.contains("\"protocol\":751"));
    assert!(json.contains("\"max\":20"));
    assert!(json.contains("\"online\":3"));
    assert_eq!(json, EXPECTED);

    let step = handle(
        State::StatusPing,
        Event::Status(ClientStatusPacket::Ping(Ping { payload: 0x1122334455667788 })),
        &config,
        3,
        &key,
    );
    assert_eq!(
        step,
        Step {
            actions: vec![Action::SendStatus(ServerStatusPacket::Pong(Pong {
                payload: 0x1122334455667788
            }))],
            next: Next::Done(InitialHandling::Disconnect),
        }
    );
}

#[test]
fn status_without_ping_disconnects() {
    let key = status_key();
    let config = config(false);
    let quiet = Step { actions: vec![], next: Next::Done(InitialHandling::Disconnect) };
    let gone = Event::Failed(HandlingError::Io);
    assert_eq!(handle_ping(&gone), quiet);
    assert_eq!(handle(State::StatusPing, gone, &config, 0, &key), quiet);
}

#[test]
fn malformed_frame_after_status_is_fatal() {
    let key = status_key();
    let config = config(true);
    let step = handle(
        State::StatusRequest,
        Event::Status(ClientStatusPacket::Request(Request {})),
        &config,
        3,
        &key,
    );
    assert_eq!(step.next, Next::Await(State::StatusPing));
    assert_eq!(step.actions.len(), 1);

    let fatal = Step { actions: vec![], next: Next::Failed(HandlingError::Decode) };
    let malformed = Event::Failed(HandlingError::Decode);
    assert_eq!(handle_ping(&malformed), fatal);
    assert_eq!(handle(State::StatusPing, malformed, &config, 3, &key), fatal);
}

#[test]
fn unexpected_packet_after_status_is_fatal() {
    let key = status_key();
    let config = config(false);
    let fatal = Step { actions: vec![], next: Next::Failed(HandlingError::ProtocolViolation) };
    for event in [
        Event::Status(ClientStatusPacket::Request(Request {})),
        Event::Login(ClientLoginPacket::LoginStart(LoginStart { name: String::from("alice") })),
        Event::Handshake(ClientHandshakePacket::Handshake(Handshake {
            protocol_version: 751,
            server_address: String::from("localhost"),
            server_port: 25565,
            next_state: HandshakeState::Status,
        })),
    ] {
        assert_eq!(handle_ping(&event), fatal);
        assert_eq!(handle(State::StatusPing, event, &config, 0, &key), fatal);
    }
    for error in [HandlingError::Auth, HandlingError::ProtocolViolation] {
        let passed_on = Step { actions: vec![], next: Next::Failed(error) };
        assert_eq!(handle(State::StatusPing, Event::Failed(error), &config, 0, &key), passed_on);
    }
}

#[test]
fn status_reads_the_player_count() {
    let config = ServerConfig {
        online_mode: true,
        max_players: 100,
        motd: Text { text: String::from("hi") },
    };
    let step = handle_status(&config, 17);
    assert_eq!(
        step.actions,
        vec![Action::SendStatus(ServerStatusPacket::Response(Response {
            response: String::from(
                "{\"version\":{\"name\":\"Feather 1.16.2\",\"protocol\":751},\"players\":{\"max\":100,\"online\":17},\"description\":{\"text\":\"hi\"}}"
            )
        }))]
    );
}

#[test]
fn status_request_must_come_first() {
    let key = status_key();
    let config = config(false);
    let step = handle(
        State::StatusRequest,
        Event::Status(ClientStatusPacket::Ping(Ping { payload: 1 })),
        &config,
        0,
        &key,
    );
    assert_eq!(step, Step { actions: vec![], next: Next::Failed(HandlingError::ProtocolViolation) });
    let step = handle(State::StatusRequest, Event::Failed(HandlingError::Io), &config, 0, &key);
    assert_eq!(step, Step { actions: vec![], next: Next::Failed(HandlingError::Io) });
}

#[test]
fn status_that_was_not_written_fails() {
    assert_eq!(
        send_status(None),
        Step { actions: vec![], next: Next::Failed(HandlingError::Decode) }
    );
    assert_eq!(
        send_status(Some(String::from("{}"))),
        Step {
            actions: vec![Action::SendStatus(ServerStatusPacket::Response(Response {
                response: String::from("{}")
            }))],
            next: Next::Await(State::StatusPing),
        }
    );
}
