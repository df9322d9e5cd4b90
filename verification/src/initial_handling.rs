//! The first steps of a connection, from the handshake to the end of a
//! status ping or to a player who has logged in.
//!
//! The steps are a state machine. [`handle`] takes the state that the
//! connection is in and what has happened, and gives what has to be done
//! and the state that follows. Reading and writing packets, switching the
//! cipher on and asking the session service are the caller's part.
//!
//! ```text
//! Handshake --Status--> StatusRequest --Request--> StatusPing --Ping or leave--> Disconnect
//!           --Login---> LoginStart --offline--> Join
//!                                  --online---> EncryptionResponse --> Authentication --> Join
//! ```

use crate::encryption::{
    do_encryption_handshake,
    encryption_request,
    handshake_outcome,
    random_token,
    CryptKey,
    CryptoError,
    ServerKey,
    VERIFY_TOKEN_LENGTH,
};
use crate::packets::{
    ClientHandshakePacket,
    ClientLoginPacket,
    ClientStatusPacket,
    EncryptionResponse,
    HandshakeState,
    LoginStart,
    LoginSuccess,
    Pong,
    Response,
    ServerLoginPacket,
    ServerStatusPacket,
};
use crate::server_hash::{compute_server_hash, server_hash};
use crate::status::{StatusResponse, Text};
use vstd::prelude::*;

verus! {

/// One property of a profile, as the session service gives it.
#[derive(Debug, Clone, PartialEq, Eq)]
pub struct ProfileProperty {
    pub name: String,
    pub value: String,
    pub signature: Option<String>,
}

/// The identity of a player: what the session service answers for a player
/// who has joined, or what stands in for it in offline mode.
#[derive(Debug, Clone, PartialEq, Eq)]
pub struct AuthResponse {
    pub id: u128,
    pub name: String,
    pub properties: Vec<ProfileProperty>,
}

/// A player who has logged in.
#[derive(Debug, Clone, PartialEq, Eq)]
pub struct NewPlayer {
    pub username: String,
    pub uuid: u128,
}

/// How the first steps of a connection ended.
#[derive(Debug, Clone, PartialEq, Eq)]
pub enum InitialHandling {
    /// The connection was a status ping and is over.
    Disconnect,
    /// A player has logged in.
    Join(NewPlayer),
}

/// Why a connection is dropped.
#[derive(Debug, Clone, Copy, PartialEq, Eq)]
pub enum HandlingError {
    /// A packet came that the state does not allow.
    ProtocolViolation,
    /// A frame or a JSON text was malformed.
    Decode,
    /// The encryption exchange failed.
    Crypto(CryptoError),
    /// The session service did not confirm the player.
    Auth,
    /// The connection failed, or the client closed it.
    Io,
}

/// The part of the configuration that the first steps read.
#[derive(Debug, Clone, PartialEq, Eq)]
pub struct ServerConfig {
    pub online_mode: bool,
    pub max_players: i32,
    pub motd: Text,
}

/// Where a connection stands: what it waits for.
#[derive(Debug, Clone, PartialEq, Eq)]
pub enum State {
    /// The handshake packet.
    Handshake,
    /// The status request.
    StatusRequest,
    /// The ping that may follow the status response, or the client's leave.
    StatusPing,
    /// The login start packet.
    LoginStart,
    /// The answer to the encryption request that carried `verify_token`.
    EncryptionResponse { username: String, verify_token: CryptKey },
    /// The answer of the session service.
    Authentication,
}

/// What has happened on a connection.
#[derive(Debug, Clone, PartialEq, Eq)]
pub enum Event {
    /// A packet of the handshake state was read.
    Handshake(ClientHandshakePacket),
    /// A packet of the status state was read.
    Status(ClientStatusPacket),
    /// A packet of the login state was read.
    Login(ClientLoginPacket),
    /// The session service confirmed the player with this profile.
    Authenticated(AuthResponse),
    /// Reading a packet or asking the session service failed.
    Failed(HandlingError),
}

/// What the caller has to do, in the order given.
#[derive(Debug, Clone, PartialEq, Eq)]
pub enum Action {
    /// Send a packet of the status state.
    SendStatus(ServerStatusPacket),
    /// Send a packet of the login state.
    SendLogin(ServerLoginPacket),
    /// Encrypt every later frame, in both directions, with this key.
    EnableEncryption(CryptKey),
    /// Ask the session service with a GET request for this address.
    Authenticate { url: String },
}

/// How a connection goes on.
#[derive(Debug, Clone, PartialEq, Eq)]
pub enum Next {
    /// Wait for the next event in this state.
    Await(State),
    /// The first steps are over.
    Done(InitialHandling),
    /// Drop the connection.
    Failed(HandlingError),
}

/// The result of one step.
#[derive(Debug, Clone, PartialEq, Eq)]
pub struct Step {
    pub actions: Vec<Action>,
    pub next: Next,
}

/// Whether `id` is a version 4 UUID of the RFC 4122 variant.
pub open spec fn is_random_uuid(id: u128) -> bool {
    (id >> 76u128) & 0xf == 4 && (id >> 62u128) & 0x3 == 2
}

/// The address at which the session service tells whether `username` has
/// joined the server with the given hash.
pub open spec fn session_url(username: Seq<char>, hash: Seq<char>) -> Seq<char> {
    "https://sessionserver.mojang.com/session/minecraft/hasJoined?username="@ + username
        + "&serverId="@ + hash
}

/// The step does nothing and drops the connection with `error`.
pub open spec fn fails_with(step: Step, error: HandlingError) -> bool {
    step.actions@.len() == 0 && step.next == Next::Failed(error)
}

/// The step sends login success for the given identity and ends with that
/// player joining.
pub open spec fn logs_in(step: Step, uuid: u128, username: Seq<char>) -> bool {
    &&& step.actions@.len() == 1
    &&& step.actions@[0] matches Action::SendLogin(ServerLoginPacket::LoginSuccess(success))
    &&& success.uuid == uuid
    &&& success.username@ == username
    &&& step.next matches Next::Done(InitialHandling::Join(player))
    &&& player.uuid == uuid
    &&& player.username@ == username
}

/// The step answers a status request: it sends the status as JSON and
/// waits for what follows.
pub open spec fn answers_status(config: ServerConfig, player_count: usize, step: Step) -> bool {
    &&& step.actions@.len() == 1
    &&& step.actions@[0] matches Action::SendStatus(ServerStatusPacket::Response(response))
    &&& response.response@ == StatusResponse::json_of(
        config.max_players,
        player_count,
        config.motd.text@,
    )
    &&& step.next == Next::Await(State::StatusPing)
}

/// The step answers what follows the status response. A ping is echoed and
/// ends the connection; so does, in silence, a client that has gone. A
/// frame that is malformed and a packet that is no ping are fatal, as
/// everywhere.
pub open spec fn answers_ping(event: Event, step: Step) -> bool {
    match event {
        Event::Status(ClientStatusPacket::Ping(ping)) => {
            &&& step.actions@.len() == 1
            &&& step.actions@[0] == Action::SendStatus(
                ServerStatusPacket::Pong(Pong { payload: ping.payload }),
            )
            &&& step.next == Next::Done(InitialHandling::Disconnect)
        },
        Event::Failed(HandlingError::Io) => {
            &&& step.actions@.len() == 0
            &&& step.next == Next::Done(InitialHandling::Disconnect)
        },
        Event::Failed(error) => fails_with(step, error),
        _ => fails_with(step, HandlingError::ProtocolViolation),
    }
}

/// The step opens the encryption exchange for `username`: it sends the
/// encoded public key with an empty server id and a token of sixteen bytes,
/// and waits for the answer to that token.
pub open spec fn requests_encryption(username: Seq<char>, public_key: Seq<u8>, step: Step) -> bool {
    &&& step.actions@.len() == 1
    &&& step.actions@[0] matches Action::SendLogin(ServerLoginPacket::EncryptionRequest(request))
    &&& request.server_id@ == Seq::<char>::empty()
    &&& request.public_key@ == public_key
    &&& request.verify_token@.len() == VERIFY_TOKEN_LENGTH
    &&& step.next matches Next::Await(State::EncryptionResponse { username: kept, verify_token })
    &&& kept@ == username
    &&& verify_token@ == request.verify_token@
}

/// The step logs `username` in under a random identity.
pub open spec fn joins_offline(username: Seq<char>, step: Step) -> bool {
    &&& step.next matches Next::Done(InitialHandling::Join(player))
    &&& is_random_uuid(player.uuid)
    &&& logs_in(step, player.uuid, username)
}

/// The step that follows an encryption exchange with the given outcome: a
/// failure drops the connection; a shared secret is made the key of the
/// connection and the session service is asked about `username`.
pub open spec fn starts_authentication(
    accepted: Result<CryptKey, CryptoError>,
    username: Seq<char>,
    public_key: Seq<u8>,
    step: Step,
) -> bool {
    match accepted {
        Err(error) => fails_with(step, HandlingError::Crypto(error)),
        Ok(shared_secret) => {
            &&& step.actions@.len() == 2
            &&& step.actions@[0] == Action::EnableEncryption(shared_secret)
            &&& step.actions@[1] matches Action::Authenticate { url }
            &&& url@ == session_url(username, server_hash(shared_secret@, public_key))
            &&& step.next == Next::Await(State::Authentication)
        },
    }
}

/// The step settles an encryption exchange for `username` that ended with
/// `outcome`: a failure drops the connection; a shared secret is made the
/// key of the connection and the session service is asked about `username`.
pub open spec fn settles_encryption(
    outcome: Result<Seq<u8>, CryptoError>,
    username: Seq<char>,
    public_key: Seq<u8>,
    step: Step,
) -> bool {
    match outcome {
        Err(error) => fails_with(step, HandlingError::Crypto(error)),
        Ok(shared_secret) => {
            &&& step.actions@.len() == 2
            &&& step.actions@[0] matches Action::EnableEncryption(key)
            &&& key@ == shared_secret
            &&& step.actions@[1] matches Action::Authenticate { url }
            &&& url@ == session_url(username, server_hash(shared_secret, public_key))
            &&& step.next == Next::Await(State::Authentication)
        },
    }
}

/// What [`handle`] does in each state for each event.
pub open spec fn handles(
    state: State,
    event: Event,
    config: ServerConfig,
    player_count: usize,
    key: ServerKey,
    step: Step,
) -> bool {
    match state {
        State::StatusPing => answers_ping(event, step),
        _ => match event {
            Event::Failed(error) => fails_with(step, error),
            _ => match (state, event) {
                (State::Handshake, Event::Handshake(ClientHandshakePacket::Handshake(handshake))) => {
                    &&& step.actions@.len() == 0
                    &&& step.next == Next::Await(
                        match handshake.next_state {
                            HandshakeState::Status => State::StatusRequest,
                            HandshakeState::Login => State::LoginStart,
                        },
                    )
                },
                (State::StatusRequest, Event::Status(ClientStatusPacket::Request(_))) => {
                    answers_status(config, player_count, step)
                },
                (State::LoginStart, Event::Login(ClientLoginPacket::LoginStart(login_start))) => {
                    if config.online_mode {
                        requests_encryption(login_start.name@, key.public_key(), step)
                    } else {
                        joins_offline(login_start.name@, step)
                    }
                },
                (
                    State::EncryptionResponse { username, verify_token },
                    Event::Login(ClientLoginPacket::EncryptionResponse(response)),
                ) => settles_encryption(
                    handshake_outcome(key, verify_token@, response),
                    username@,
                    key.public_key(),
                    step,
                ),
                (State::Authentication, Event::Authenticated(profile)) => {
                    logs_in(step, profile.id, profile.name@)
                },
                _ => fails_with(step, HandlingError::ProtocolViolation),
            },
        },
    }
}

/// How many steps a connection in `state` can still take at most.
pub open spec fn steps_left(state: State) -> nat {
    match state {
        State::Handshake => 4,
        State::LoginStart => 3,
        State::StatusRequest => 2,
        State::EncryptionResponse { .. } => 2,
        State::StatusPing => 1,
        State::Authentication => 1,
    }
}

/// The first steps always end: every step that does not end them leads to a
/// state with fewer steps left.
pub proof fn lemma_steps_run_out(
    state: State,
    event: Event,
    config: ServerConfig,
    player_count: usize,
    key: ServerKey,
    step: Step,
)
    requires
        handles(state, event, config, player_count, key, step),
    ensures
        step.next matches Next::Await(following) ==> steps_left(following) < steps_left(state),
{
}

/// A connection that fails is dropped in silence: a step that fails asks
/// for nothing to be sent or done.
pub proof fn lemma_failure_is_silent(
    state: State,
    event: Event,
    config: ServerConfig,
    player_count: usize,
    key: ServerKey,
    step: Step,
)
    requires
        handles(state, event, config, player_count, key, step),
        step.next is Failed,
    ensures
        step.actions@.len() == 0,
{
}

/// No player joins half way: the step that lets a player join is the step
/// that sends login success, and nothing else, with the name and identity
/// under which the player joins.
pub proof fn lemma_join_sends_login_success(
    state: State,
    event: Event,
    config: ServerConfig,
    player_count: usize,
    key: ServerKey,
    step: Step,
)
    requires
        handles(state, event, config, player_count, key, step),
        step.next matches Next::Done(InitialHandling::Join(_)),
    ensures
        step.next matches Next::Done(InitialHandling::Join(player)) && logs_in(
            step,
            player.uuid,
            player.username@,
        ),
        state is LoginStart || state is Authentication,
        state is LoginStart ==> !config.online_mode,
{
}

/// In online mode only the session service names the player: the name and
/// identity under which a player joins are those of the profile that the
/// service confirmed, whatever name the client gave at login start.
pub proof fn lemma_online_join_is_authenticated(
    state: State,
    event: Event,
    config: ServerConfig,
    player_count: usize,
    key: ServerKey,
    step: Step,
)
    requires
        config.online_mode,
        handles(state, event, config, player_count, key, step),
        step.next matches Next::Done(InitialHandling::Join(_)),
    ensures
        event matches Event::Authenticated(profile) && logs_in(step, profile.id, profile.name@),
{
}

/// A status ping ends with a disconnect or a failure, never with a player.
pub proof fn lemma_status_never_joins(
    state: State,
    event: Event,
    config: ServerConfig,
    player_count: usize,
    key: ServerKey,
    step: Step,
)
    requires
        handles(state, event, config, player_count, key, step),
        state is StatusRequest || state is StatusPing,
    ensures
        !(step.next matches Next::Done(InitialHandling::Join(_))),
        step.next matches Next::Await(following) ==> following is StatusPing,
{
}

/// `uuid::Uuid::new_v4` as a number, most significant byte first. Trusted:
/// the version is 4 and the variant is that of RFC 4122.
#[verifier::external_body]
fn random_uuid() -> (id: u128)
    ensures
        is_random_uuid(id),
{
    uuid::Uuid::new_v4().as_u128()
}

/// A step that does nothing and drops the connection.
fn fail(error: HandlingError) -> (step: Step)
    ensures
        fails_with(step, error),
{
    Step { actions: Vec::new(), next: Next::Failed(error) }
}

/// What [`send_status`] returns.
pub open spec fn sends_status(json: Option<String>, step: Step) -> bool {
    match json {
        Some(text) => {
            &&& step.actions@.len() == 1
            &&& step.actions@[0] matches Action::SendStatus(ServerStatusPacket::Response(response))
            &&& response.response@ == text@
            &&& step.next == Next::Await(State::StatusPing)
        },
        None => fails_with(step, HandlingError::Decode),
    }
}

/// The step that follows the writing of the status: the text is sent and a
/// ping awaited; without a text the connection is dropped.
pub fn send_status(json: Option<String>) -> (step: Step)
    ensures
        sends_status(json, step),
{
    match json {
        Some(response) => {
            let mut actions: Vec<Action> = Vec::new();
            actions.push(Action::SendStatus(ServerStatusPacket::Response(Response { response })));
            Step { actions, next: Next::Await(State::StatusPing) }
        },
        None => fail(HandlingError::Decode),
    }
}

/// Answers a status request with the server's name and protocol version,
/// the configured limit and message of the day, and `player_count`.
pub fn handle_status(config: &ServerConfig, player_count: usize) -> (step: Step)
    ensures
        answers_status(*config, player_count, step),
{
    let payload = StatusResponse::new(config.max_players, player_count, &config.motd);
    send_status(payload.to_json())
}

/// Answers what follows the status response: a ping is echoed and ends the
/// connection, and a client that has gone ends it in silence. Anything else
/// is fatal.
pub fn handle_ping(event: &Event) -> (step: Step)
    ensures
        answers_ping(*event, step),
{
    match event {
        Event::Status(ClientStatusPacket::Ping(ping)) => {
            let mut actions: Vec<Action> = Vec::new();
            actions.push(
                Action::SendStatus(ServerStatusPacket::Pong(Pong { payload: ping.payload })),
            );
            Step { actions, next: Next::Done(InitialHandling::Disconnect) }
        },
        Event::Failed(HandlingError::Io) => {
            Step { actions: Vec::new(), next: Next::Done(InitialHandling::Disconnect) }
        },
        Event::Failed(error) => fail(*error),
        _ => fail(HandlingError::ProtocolViolation),
    }
}

/// The profile of a player in offline mode: the name as given, a random
/// identity and no properties.
pub fn compute_offline_mode_profile(username: String) -> (profile: AuthResponse)
    ensures
        profile.name == username,
        is_random_uuid(profile.id),
        profile.properties@.len() == 0,
{
    AuthResponse { name: username, id: random_uuid(), properties: Vec::new() }
}

/// Sends login success for `response` and lets the player join, under the
/// name and identity of the profile.
pub fn finish_login(response: AuthResponse) -> (step: Step)
    ensures
        logs_in(step, response.id, response.name@),
{
    let success = LoginSuccess { uuid: response.id, username: response.name.clone() };
    let mut actions: Vec<Action> = Vec::new();
    actions.push(Action::SendLogin(ServerLoginPacket::LoginSuccess(success)));
    let player = NewPlayer { username: response.name, uuid: response.id };
    Step { actions, next: Next::Done(InitialHandling::Join(player)) }
}

/// Opens the encryption exchange for `username` with the given token.
pub fn request_encryption(username: String, verify_token: CryptKey, key: &ServerKey) -> (step: Step)
    ensures
        requests_encryption(username@, key.public_key(), step),
        step.next matches Next::Await(State::EncryptionResponse { username: kept, verify_token: sent })
            && kept == username && sent == verify_token,
{
    let request = encryption_request(key, &verify_token);
    let mut actions: Vec<Action> = Vec::new();
    actions.push(Action::SendLogin(ServerLoginPacket::EncryptionRequest(request)));
    Step { actions, next: Next::Await(State::EncryptionResponse { username, verify_token }) }
}

/// Answers a login start: in online mode with an encryption request that
/// carries a fresh token, in offline mode with login success.
pub fn handle_login(login_start: LoginStart, config: &ServerConfig, key: &ServerKey) -> (step: Step)
    ensures
        config.online_mode ==> requests_encryption(login_start.name@, key.public_key(), step),
        !config.online_mode ==> joins_offline(login_start.name@, step),
{
    if config.online_mode {
        request_encryption(login_start.name, random_token(), key)
    } else {
        let profile = compute_offline_mode_profile(login_start.name);
        finish_login(profile)
    }
}

/// The address at which the session service answers for `username` and a
/// connection with the given shared secret.
pub fn authenticate(shared_secret: &CryptKey, username: &str, public_key: &[u8]) -> (url: String)
    ensures
        url@ == session_url(username@, server_hash(shared_secret@, public_key@)),
{
    let server_hash = compute_server_hash(shared_secret, public_key);
    let mut url =
        "https://sessionserver.mojang.com/session/minecraft/hasJoined?username=".to_owned();
    url.append(username);
    url.append("&serverId=");
    url.append(server_hash.as_str());
    url
}

/// The step that follows an encryption exchange with the outcome
/// `accepted`.
pub fn enable_encryption(
    accepted: Result<CryptKey, CryptoError>,
    username: &str,
    public_key: &[u8],
) -> (step: Step)
    ensures
        starts_authentication(accepted, username@, public_key@, step),
{
    match accepted {
        Ok(shared_secret) => {
            let url = authenticate(&shared_secret, username, public_key);
            let mut actions: Vec<Action> = Vec::new();
            actions.push(Action::EnableEncryption(shared_secret));
            actions.push(Action::Authenticate { url });
            Step { actions, next: Next::Await(State::Authentication) }
        },
        Err(error) => fail(HandlingError::Crypto(error)),
    }
}

/// What an answer of the session service means: the profile, where the
/// status is one of success (200 to 299) and the body held a profile; in
/// every other case the player is not confirmed.
pub open spec fn session_verdict(status: u16, profile: Option<AuthResponse>) -> Result<
    AuthResponse,
    HandlingError,
> {
    match profile {
        Some(confirmed) if 200 <= status < 300 => Ok(confirmed),
        _ => Err(HandlingError::Auth),
    }
}

/// Judges an answer of the session service, given its status and the
/// profile that its body held, if it held one.
pub fn session_answer(status: u16, profile: Option<AuthResponse>) -> (answer: Result<
    AuthResponse,
    HandlingError,
>)
    ensures
        answer == session_verdict(status, profile),
{
    match profile {
        Some(confirmed) => {
            if 200 <= status && status < 300 {
                Ok(confirmed)
            } else {
                Err(HandlingError::Auth)
            }
        },
        None => Err(HandlingError::Auth),
    }
}

/// Takes one step: what has to be done in `state` now that `event` has
/// happened, and how the connection goes on.
pub fn handle(
    state: State,
    event: Event,
    config: &ServerConfig,
    player_count: usize,
    key: &ServerKey,
) -> (step: Step)
    ensures
        handles(state, event, *config, player_count, *key, step),
{
    match state {
        State::StatusPing => handle_ping(&event),
        State::Handshake => match event {
            Event::Failed(error) => fail(error),
            Event::Handshake(ClientHandshakePacket::Handshake(handshake)) => {
                let next = match handshake.next_state {
                    HandshakeState::Status => State::StatusRequest,
                    HandshakeState::Login => State::LoginStart,
                };
                Step { actions: Vec::new(), next: Next::Await(next) }
            },
            _ => fail(HandlingError::ProtocolViolation),
        },
        State::StatusRequest => match event {
            Event::Failed(error) => fail(error),
            Event::Status(ClientStatusPacket::Request(_)) => handle_status(config, player_count),
            _ => fail(HandlingError::ProtocolViolation),
        },
        State::LoginStart => match event {
            Event::Failed(error) => fail(error),
            Event::Login(ClientLoginPacket::LoginStart(login_start)) => handle_login(
                login_start,
                config,
                key,
            ),
            _ => fail(HandlingError::ProtocolViolation),
        },
        State::EncryptionResponse { username, verify_token } => match event {
            Event::Failed(error) => fail(error),
            Event::Login(ClientLoginPacket::EncryptionResponse(response)) => {
                let accepted = do_encryption_handshake(key, verify_token.as_slice(), &response);
                enable_encryption(accepted, username.as_str(), key.encoded())
            },
            _ => fail(HandlingError::ProtocolViolation),
        },
        State::Authentication => match event {
            Event::Failed(error) => fail(error),
            Event::Authenticated(profile) => finish_login(profile),
            _ => fail(HandlingError::ProtocolViolation),
        },
    }
}

} // verus!
