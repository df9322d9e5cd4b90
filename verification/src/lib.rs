//! The first steps of a connection to a Minecraft-compatible server that
//! speaks protocol 751, and the record that the server keeps of a player.
//!
//! * [`initial_handling`]: the state machine that takes a connection from
//!   its handshake to the end of a status ping or to a player who has
//!   logged in.
//! * [`status`]: the answer to a server list ping.
//! * [`encryption`]: the RSA exchange that gives a connection its shared
//!   secret.
//! * [`server_hash`]: the hash that names a login to the session service.
//! * [`packets`]: the packets of the handshake, status and login states.
//! * [`inventory`]: stored and sent inventory positions, and the bijection
//!   between them.
//! * [`player`]: the stored record of a player.
//!
//! The library computes; it neither reads nor writes. Calls into other
//! crates stand behind small functions whose contracts are assumed, each
//! with a comment that says what is assumed of it.

pub mod encryption;
pub mod initial_handling;
pub mod inventory;
pub mod packets;
pub mod player;
pub mod server_hash;
pub mod status;
