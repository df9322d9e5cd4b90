//! The packets of the handshake, status and login states, as values.
//!
//! Each direction of each state is one enum with one variant per packet;
//! the framing that carries them is not part of this library.

use vstd::prelude::*;

verus! {

/// The state that a client asks for in its handshake.
#[derive(Debug, Clone, Copy, PartialEq, Eq)]
pub enum HandshakeState {
    Status,
    Login,
}

/// The first packet of a connection.
#[derive(Debug, Clone, PartialEq, Eq)]
pub struct Handshake {
    pub protocol_version: i32,
    pub server_address: String,
    pub server_port: u16,
    pub next_state: HandshakeState,
}

#[derive(Debug, Clone, PartialEq, Eq)]
pub enum ClientHandshakePacket {
    Handshake(Handshake),
}

/// The request for the server's status. It carries nothing.
#[derive(Debug, Clone, Copy, PartialEq, Eq)]
pub struct Request {}

#[derive(Debug, Clone, Copy, PartialEq, Eq)]
pub struct Ping {
    pub payload: i64,
}

#[derive(Debug, Clone, Copy, PartialEq, Eq)]
pub enum ClientStatusPacket {
    Request(Request),
    Ping(Ping),
}

#[derive(Debug, Clone, PartialEq, Eq)]
pub struct LoginStart {
    pub name: String,
}

/// The client's answer to an encryption request. Both fields are encrypted
/// with the server's public key.
#[derive(Debug, Clone, PartialEq, Eq)]
pub struct EncryptionResponse {
    pub shared_secret: Vec<u8>,
    pub verify_token: Vec<u8>,
}

#[derive(Debug, Clone, PartialEq, Eq)]
pub struct LoginPluginResponse {
    pub message_id: i32,
    pub successful: bool,
    pub data: Vec<u8>,
}

#[derive(Debug, Clone, PartialEq, Eq)]
pub enum ClientLoginPacket {
    LoginStart(LoginStart),
    EncryptionResponse(EncryptionResponse),
    LoginPluginResponse(LoginPluginResponse),
}

/// The server's status, as JSON text.
#[derive(Debug, Clone, PartialEq, Eq)]
pub struct Response {
    pub response: String,
}

#[derive(Debug, Clone, Copy, PartialEq, Eq)]
pub struct Pong {
    pub payload: i64,
}

#[derive(Debug, Clone, PartialEq, Eq)]
pub enum ServerStatusPacket {
    Response(Response),
    Pong(Pong),
}

#[derive(Debug, Clone, PartialEq, Eq)]
pub struct EncryptionRequest {
    pub server_id: String,
    pub public_key: Vec<u8>,
    pub verify_token: Vec<u8>,
}

#[derive(Debug, Clone, PartialEq, Eq)]
pub struct LoginSuccess {
    pub uuid: u128,
    pub username: String,
}

#[derive(Debug, Clone, PartialEq, Eq)]
pub enum ServerLoginPacket {
    EncryptionRequest(EncryptionRequest),
    LoginSuccess(LoginSuccess),
}

} // verus!
