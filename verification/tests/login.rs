use feather_core::encryption::{
    do_encryption_handshake, encryption_request, verify_encryption_response, CryptoError,
    ServerKey, RSA_BITS, SHARED_SECRET_LENGTH, VERIFY_TOKEN_LENGTH,
};
use feather_core::initial_handling::{
    authenticate, compute_offline_mode_profile, enable_encryption, finish_login, handle,
    handle_login, request_encryption as open_exchange, session_answer, Action, AuthResponse, Event, HandlingError, InitialHandling, NewPlayer, Next,
    ProfileProperty, ServerConfig, State, Step,
};
use feather_core::packets::{
    ClientHandshakePacket, ClientLoginPacket, ClientStatusPacket, EncryptionRequest,
    EncryptionResponse, Handshake, HandshakeState, LoginPluginResponse, LoginStart, LoginSuccess,
    Request, ServerLoginPacket,
};
use feather_core::server_hash::compute_server_hash;
use feather_core::status::Text;
use rand::rngs::OsRng;
use rsa::{BigUint, PaddingScheme, PublicKey, RSAPublicKey};

fn server_key() -> ServerKey {
    ServerKey::generate().unwrap()
}

fn encrypt(key: &ServerKey, plain: &[u8]) -> Vec<u8> {
    let public = RSAPublicKey::new(
        BigUint::from_bytes_be(key.modulus_be()),
        BigUint::from_bytes_be(key.exponent_be()),
    )
    .unwrap();
    public.encrypt(&mut OsRng, PaddingScheme::PKCS1v15Encrypt, plain).unwrap()
}

fn config(online_mode: bool) -> ServerConfig {
    ServerConfig { online_mode, max_players: 20, motd: Text { text: String::from("A Server") } }
}

fn login_start(name: &str) -> Event {
    Event::Login(ClientLoginPacket::LoginStart(LoginStart { name: String::from(name) }))
}

fn failed(error: HandlingError) -> Step {
    Step { actions: vec![], next: Next::Failed(error) }
}

fn is_random_uuid(id: u128) -> bool {
    (id >> 76) & 0xf == 4 && (id >> 62) & 0x3 == 2
}

/// Runs the login of `name` in online mode up to the encryption request.
fn request_encryption(key: &ServerKey, name: &str) -> (EncryptionRequest, State) {
    let step = handle(State::LoginStart, login_start(name), &config(true), 0, key);
    assert_eq!(step.actions.len(), 1);
    let request = match &step.actions[0] {
        Action::SendLogin(ServerLoginPacket::EncryptionRequest(request)) => request.clone(),
        other => panic!("unexpected action {:?}", other),
    };
    match step.next {
        Next::Await(state) => (request, state),
        other => panic!("unexpected end {:?}", other),
    }
}

#[test]
fn encryption_constants() {
    assert_eq!(RSA_BITS, 1024);
    assert_eq!(VERIFY_TOKEN_LENGTH, 16);
    assert_eq!(SHARED_SECRET_LENGTH, 16);
}

#[test]
fn handshake_routes_by_next_state() {
    let key = server_key();
    let handshake = |next_state| {
        Event::Handshake(ClientHandshakePacket::Handshake(Handshake {
            protocol_version: 751,
            server_address: String::from("localhost"),
            server_port: 25565,
            next_state,
        }))
    };
    assert_eq!(
        handle(State::Handshake, handshake(HandshakeState::Login), &config(true), 0, &key),
        Step { actions: vec![], next: Next::Await(State::LoginStart) }
    );
    assert_eq!(
        handle(State::Handshake, handshake(HandshakeState::Status), &config(true), 0, &key),
        Step { actions: vec![], next: Next::Await(State::StatusRequest) }
    );
    assert_eq!(
        handle(State::Handshake, Event::Failed(HandlingError::Decode), &config(true), 0, &key),
        failed(HandlingError::Decode)
    );
    assert_eq!(
        handle(State::Handshake, Event::Failed(HandlingError::Io), &config(true), 0, &key),
        failed(HandlingError::Io)
    );
    assert_eq!(
        handle(State::Handshake, login_start("alice"), &config(true), 0, &key),
        failed(HandlingError::ProtocolViolation)
    );
}

#[test]
fn offline_mode_login() {
    let key = server_key();
    let step = handle(State::LoginStart, login_start("alice"), &config(false), 0, &key);
    let player = match &step.next {
        Next::Done(InitialHandling::Join(player)) => player.clone(),
        other => panic!("unexpected end {:?}", other),
    };
    assert_eq!(player.username, "alice");
    assert!(is_random_uuid(player.uuid));
    assert_eq!(
        step.actions,
        vec![Action::SendLogin(ServerLoginPacket::LoginSuccess(LoginSuccess {
            uuid: player.uuid,
            username: String::from("alice"),
        }))]
    );
    assert_eq!(uuid::Uuid::from_u128(player.uuid).get_version_num(), 4);
}

#[test]
fn offline_profiles_are_fresh() {
    let first = compute_offline_mode_profile(String::from("alice"));
    let second = compute_offline_mode_profile(String::from("alice"));
    assert_eq!(first.name, "alice");
    assert!(first.properties.is_empty());
    assert!(is_random_uuid(first.id));
    assert!(is_random_uuid(second.id));
    assert_ne!(first.id, second.id);
}

#[test]
fn login_start_must_come_first() {
    let key = server_key();
    for online in [false, true] {
        let response = Event::Login(ClientLoginPacket::EncryptionResponse(EncryptionResponse {
            shared_secret: vec![0; 128],
            verify_token: vec![0; 128],
        }));
        assert_eq!(
            handle(State::LoginStart, response, &config(online), 0, &key),
            failed(HandlingError::ProtocolViolation)
        );
        let plugin = Event::Login(ClientLoginPacket::LoginPluginResponse(LoginPluginResponse {
            message_id: 0,
            successful: false,
            data: vec![],
        }));
        assert_eq!(
            handle(State::LoginStart, plugin, &config(online), 0, &key),
            failed(HandlingError::ProtocolViolation)
        );
        let request = Event::Status(ClientStatusPacket::Request(Request {}));
        assert_eq!(
            handle(State::LoginStart, request, &config(online), 0, &key),
            failed(HandlingError::ProtocolViolation)
        );
    }
}

#[test]
fn finish_login_uses_the_profile() {
    let profile = AuthResponse {
        id: 0x069a79f4_44e9_4726_a5be_fca90e38aaf5,
        name: String::from("Notch"),
        properties: vec![ProfileProperty {
            name: String::from("textures"),
            value: String::from("e30="),
            signature: None,
        }],
    };
    let expected = Step {
        actions: vec![Action::SendLogin(ServerLoginPacket::LoginSuccess(LoginSuccess {
            uuid: 0x069a79f4_44e9_4726_a5be_fca90e38aaf5,
            username: String::from("Notch"),
        }))],
        next: Next::Done(InitialHandling::Join(NewPlayer {
            username: String::from("Notch"),
            uuid: 0x069a79f4_44e9_4726_a5be_fca90e38aaf5,
        })),
    };
    assert_eq!(finish_login(profile.clone()), expected);
    let key = server_key();
    assert_eq!(
        handle(State::Authentication, Event::Authenticated(profile), &config(true), 0, &key),
        expected
    );
}

#[test]
fn session_failure_drops_the_connection() {
    let key = server_key();
    assert_eq!(
        handle(State::Authentication, Event::Failed(HandlingError::Auth), &config(true), 0, &key),
        failed(HandlingError::Auth)
    );
    assert_eq!(
        handle(State::Authentication, login_start("alice"), &config(true), 0, &key),
        failed(HandlingError::ProtocolViolation)
    );
}

#[test]
fn encryption_request_carries_key_and_token() {
    let key = server_key();
    let (request, state) = request_encryption(&key, "alice");
    assert_eq!(request.server_id, "");
    assert_eq!(request.public_key, key.encoded());
    assert_eq!(request.verify_token.len(), 16);
    match state {
        State::EncryptionResponse { username, verify_token } => {
            assert_eq!(username, "alice");
            assert_eq!(verify_token.to_vec(), request.verify_token);
        }
        other => panic!("unexpected state {:?}", other),
    }
    let (again, _) = request_encryption(&key, "alice");
    assert_ne!(again.verify_token, request.verify_token);
    assert_eq!(again.public_key, request.public_key);

    let token = [7u8; 16];
    assert_eq!(
        encryption_request(&key, &token),
        EncryptionRequest {
            server_id: String::new(),
            public_key: key.encoded().to_vec(),
            verify_token: vec![7; 16],
        }
    );
    assert_eq!(
        handle_login(LoginStart { name: String::from("bob") }, &config(true), &key).actions.len(),
        1
    );
}

#[test]
fn server_key_encodes_its_public_half() {
    let key = server_key();
    let modulus = key.modulus_be().to_vec();
    assert_eq!(modulus.len(), 128);
    assert!(modulus[0] >= 0x80);
    assert_eq!(key.exponent_be(), &[1u8, 0, 1][..]);
    let encoded = key.encoded();
    assert_eq!(encoded, rsa_der::public_key_to_der(&modulus, &[1, 0, 1]).as_slice());
    assert_eq!(encoded[0], 0x30);
    assert!(encoded.windows(128).any(|window| window == modulus.as_slice()));
    // rsaEncryption, 1.2.840.113549.1.1.1
    let oid = [0x06, 0x09, 0x2a, 0x86, 0x48, 0x86, 0xf7, 0x0d, 0x01, 0x01, 0x01];
    assert!(encoded.windows(oid.len()).any(|window| window == oid));
    // the same value gives the same encoding every time it is asked
    assert_eq!(key.encoded(), encoded);
}

#[test]
fn encryption_handshake_happy_path() {
    let key = server_key();
    let (request, state) = request_encryption(&key, "alice");
    let shared_secret: [u8; 16] = *b"0123456789abcdef";
    let response = Event::Login(ClientLoginPacket::EncryptionResponse(EncryptionResponse {
        shared_secret: encrypt(&key, &shared_secret),
        verify_token: encrypt(&key, &request.verify_token),
    }));
    let step = handle(state, response, &config(true), 0, &key);
    let hash = compute_server_hash(&shared_secret, key.encoded());
    assert_eq!(
        step,
        Step {
            actions: vec![
                Action::EnableEncryption(shared_secret),
                Action::Authenticate {
                    url: format!(
                        "https://sessionserver.mojang.com/session/minecraft/hasJoined?username=alice&serverId={}",
                        hash
                    )
                },
            ],
            next: Next::Await(State::Authentication),
        }
    );
}

#[test]
fn verify_token_mismatch() {
    let key = server_key();
    let (request, state) = request_encryption(&key, "alice");
    let mut token = request.verify_token.clone();
    token[5] ^= 1;
    let response = Event::Login(ClientLoginPacket::EncryptionResponse(EncryptionResponse {
        shared_secret: encrypt(&key, b"0123456789abcdef"),
        verify_token: encrypt(&key, &token),
    }));
    let step = handle(state, response, &config(true), 0, &key);
    assert_eq!(step, failed(HandlingError::Crypto(CryptoError::VerifyTokenMismatch)));
}

#[test]
fn shared_secret_must_have_sixteen_bytes() {
    let key = server_key();
    for secret in [&b"0123456789abcde"[..], &b"0123456789abcdefg"[..], &b""[..]] {
        let (request, state) = request_encryption(&key, "alice");
        let response = Event::Login(ClientLoginPacket::EncryptionResponse(EncryptionResponse {
            shared_secret: encrypt(&key, secret),
            verify_token: encrypt(&key, &request.verify_token),
        }));
        let step = handle(state, response, &config(true), 0, &key);
        assert_eq!(step, failed(HandlingError::Crypto(CryptoError::BadKeyLength)));
    }
}

#[test]
fn undecryptable_response_fails() {
    let key = server_key();
    let (request, state) = request_encryption(&key, "alice");
    // plaintext where ciphertext is expected
    let response = Event::Login(ClientLoginPacket::EncryptionResponse(EncryptionResponse {
        shared_secret: b"0123456789abcdef".to_vec(),
        verify_token: request.verify_token.clone(),
    }));
    let step = handle(state.clone(), response, &config(true), 0, &key);
    assert_eq!(step, failed(HandlingError::Crypto(CryptoError::Decryption)));

    let response = Event::Login(ClientLoginPacket::EncryptionResponse(EncryptionResponse {
        shared_secret: encrypt(&key, b"0123456789abcdef"),
        verify_token: vec![0xff; 128],
    }));
    let step = handle(state.clone(), response, &config(true), 0, &key);
    assert_eq!(step, failed(HandlingError::Crypto(CryptoError::Decryption)));

    assert_eq!(
        handle(state.clone(), login_start("alice"), &config(true), 0, &key),
        failed(HandlingError::ProtocolViolation)
    );
    assert_eq!(
        handle(state, Event::Failed(HandlingError::Io), &config(true), 0, &key),
        failed(HandlingError::Io)
    );
}

#[test]
fn do_encryption_handshake_decrypts_both_fields() {
    let key = server_key();
    let token = [9u8; 16];
    let response = EncryptionResponse {
        shared_secret: encrypt(&key, &[3u8; 16]),
        verify_token: encrypt(&key, &token),
    };
    assert_eq!(do_encryption_handshake(&key, &token, &response), Ok([3u8; 16]));
    assert_eq!(
        do_encryption_handshake(&key, &[8u8; 16], &response),
        Err(CryptoError::VerifyTokenMismatch)
    );
    let swapped = EncryptionResponse {
        shared_secret: response.verify_token.clone(),
        verify_token: response.shared_secret.clone(),
    };
    assert_eq!(
        do_encryption_handshake(&key, &token, &swapped),
        Err(CryptoError::VerifyTokenMismatch)
    );
}

#[test]
fn decrypted_fields_are_judged_token_first() {
    let token = [1u8, 2, 3, 4, 5, 6, 7, 8, 9, 10, 11, 12, 13, 14, 15, 16];
    let secret = [0xabu8; 16];
    assert_eq!(verify_encryption_response(&token, &secret, &token), Ok(secret));
    let mut other = token;
    other[15] = 0;
    assert_eq!(
        verify_encryption_response(&token, &secret, &other),
        Err(CryptoError::VerifyTokenMismatch)
    );
    assert_eq!(
        verify_encryption_response(&token, &secret, &token[..15]),
        Err(CryptoError::VerifyTokenMismatch)
    );
    assert_eq!(
        verify_encryption_response(&token, &secret[..15], &token),
        Err(CryptoError::BadKeyLength)
    );
    assert_eq!(
        verify_encryption_response(&token, &[0u8; 17], &token),
        Err(CryptoError::BadKeyLength)
    );
    // a wrong token and a wrong length: the token decides
    assert_eq!(
        verify_encryption_response(&token, &[0u8; 17], &other),
        Err(CryptoError::VerifyTokenMismatch)
    );
}

#[test]
fn enable_encryption_follows_the_outcome() {
    let secret = [0u8; 16];
    let step = enable_encryption(Ok(secret), "alice", &[0x30, 0x00]);
    assert_eq!(
        step,
        Step {
            actions: vec![
                Action::EnableEncryption(secret),
                Action::Authenticate {
                    url: String::from(
                        "https://sessionserver.mojang.com/session/minecraft/hasJoined?username=alice&serverId=-67fbfe14d2f8cfb0dd44b12d24503e240b55749e"
                    )
                },
            ],
            next: Next::Await(State::Authentication),
        }
    );
    for error in [
        CryptoError::Decryption,
        CryptoError::VerifyTokenMismatch,
        CryptoError::BadKeyLength,
    ] {
        assert_eq!(
            enable_encryption(Err(error), "alice", &[0x30, 0x00]),
            failed(HandlingError::Crypto(error))
        );
    }
}

#[test]
fn session_address() {
    assert_eq!(
        authenticate(&[1; 16], "Notch", &[]),
        "https://sessionserver.mojang.com/session/minecraft/hasJoined?username=Notch&serverId=345c0e97987b1f4e1be38ee1678a5f1061c2c301"
    );
}

#[test]
fn generated_key_has_the_fixed_size() {
    let key = ServerKey::generate().unwrap();
    assert_eq!(key.modulus_be().len(), 128);
    assert!(key.modulus_be()[0] >= 0x80);
    assert_eq!(key.exponent_be(), &[1u8, 0, 1][..]);
    assert_eq!(
        key.encoded(),
        rsa_der::public_key_to_der(key.modulus_be(), key.exponent_be()).as_slice()
    );
    let token = [5u8; 16];
    let response = EncryptionResponse {
        shared_secret: encrypt(&key, &[6u8; 16]),
        verify_token: encrypt(&key, &token),
    };
    assert_eq!(do_encryption_handshake(&key, &token, &response), Ok([6u8; 16]));
}

#[test]
fn encryption_request_for_a_given_token() {
    let key = server_key();
    let token = *b"fedcba9876543210";
    assert_eq!(
        open_exchange(String::from("alice"), token, &key),
        Step {
            actions: vec![Action::SendLogin(ServerLoginPacket::EncryptionRequest(
                EncryptionRequest {
                    server_id: String::new(),
                    public_key: key.encoded().to_vec(),
                    verify_token: token.to_vec(),
                }
            ))],
            next: Next::Await(State::EncryptionResponse {
                username: String::from("alice"),
                verify_token: token,
            }),
        }
    );
}

#[test]
fn session_answer_needs_success_and_a_profile() {
    let profile = AuthResponse {
        id: 0x069a79f4_44e9_4726_a5be_fca90e38aaf5,
        name: String::from("Notch"),
        properties: vec![],
    };
    for status in [200u16, 201, 204, 299] {
        assert_eq!(session_answer(status, Some(profile.clone())), Ok(profile.clone()));
        assert_eq!(session_answer(status, None), Err(HandlingError::Auth));
    }
    for status in [0u16, 100, 199, 300, 301, 403, 404, 429, 500, 503, u16::MAX] {
        assert_eq!(session_answer(status, Some(profile.clone())), Err(HandlingError::Auth));
        assert_eq!(session_answer(status, None), Err(HandlingError::Auth));
    }
}

#[test]
fn generated_key_pairs_fit_together() {
    let key = rsa::RSAPrivateKey::new(&mut OsRng, RSA_BITS).unwrap();
    assert!(key.validate().is_ok());
    assert_eq!(rsa::PublicKeyParts::n(&key).bits(), 1024);
    assert_eq!(rsa::PublicKeyParts::e(&key).to_bytes_be(), vec![1, 0, 1]);
}
