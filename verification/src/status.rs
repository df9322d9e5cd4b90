//! The answer to a server list ping.
//!
//! The answer is one JSON object:
//!
//! ```text
//! {"version":{"name":NAME,"protocol":PROTOCOL},
//!  "players":{"max":MAX,"online":ONLINE},
//!  "description":{"text":MOTD}}
//! ```
//!
//! written without the line breaks. The description is a chat component,
//! not a bare string.

use vstd::prelude::*;

verus! {

/// The name that the server gives itself.
pub const SERVER_NAME: &'static str = "Feather 1.16.2";

/// The protocol version that the server speaks.
pub const PROTOCOL_VERSION: i32 = 751;

/// A chat component of plain text.
#[derive(Debug, Clone, PartialEq, Eq)]
pub struct Text {
    pub text: String,
}

#[derive(Debug, Clone, PartialEq, Eq)]
pub struct Version {
    pub name: String,
    pub protocol: i32,
}

#[derive(Debug, Clone, Copy, PartialEq, Eq)]
pub struct Players {
    pub max: i32,
    pub online: usize,
}

/// What a server tells of itself in the server list.
#[derive(Debug, Clone, PartialEq, Eq)]
pub struct StatusResponse {
    pub version: Version,
    pub players: Players,
    pub description: Text,
}

/// The JSON string literal that `serde_json::to_string` gives for the
/// string `text`: the text between quotes, with its characters escaped.
pub uninterp spec fn json_string(text: Seq<char>) -> Seq<char>;

/// The decimal digit of `d`.
pub open spec fn decimal_digit(d: nat) -> char
    recommends
        d < 10,
{
    seq!['0', '1', '2', '3', '4', '5', '6', '7', '8', '9'][d as int]
}

/// `n` in decimal, without leading zeros.
pub open spec fn decimal_magnitude(n: nat) -> Seq<char>
    decreases n,
{
    if n < 10 {
        seq![decimal_digit(n)]
    } else {
        decimal_magnitude(n / 10).push(decimal_digit(n % 10))
    }
}

/// `value` in decimal, with `-` before the magnitude of a negative value.
pub open spec fn signed_decimal(value: int) -> Seq<char> {
    if value < 0 {
        seq!['-'] + decimal_magnitude((-value) as nat)
    } else {
        decimal_magnitude(value as nat)
    }
}

/// The status object, given the text of each of its five values.
pub open spec fn status_object(
    name: Seq<char>,
    protocol: Seq<char>,
    max: Seq<char>,
    online: Seq<char>,
    motd: Seq<char>,
) -> Seq<char> {
    "{\"version\":{\"name\":"@ + name + ",\"protocol\":"@ + protocol + "},\"players\":{\"max\":"@
        + max + ",\"online\":"@ + online + "},\"description\":{\"text\":"@ + motd + "}}"@
}

/// `serde_json::to_string` of a string. Trusted: it writes into a vector,
/// which cannot fail, so there always is a literal, and the literal is a
/// function of `text` alone.
#[verifier::external_body]
fn json_string_of(text: &str) -> (literal: Option<String>)
    ensures
        literal is Some,
        literal matches Some(l) ==> l@ == json_string(text@),
{
    serde_json::to_string(text).ok()
}

/// `i128::to_string`. Trusted: the text is the number in decimal, with `-`
/// before a negative one.
#[verifier::external_body]
fn decimal_of(value: i128) -> (text: String)
    ensures
        text@ == signed_decimal(value as int),
{
    value.to_string()
}

/// Writes the status object around the text of its five values.
pub fn write_status_object(name: &str, protocol: &str, max: &str, online: &str, motd: &str) -> (json:
    String)
    ensures
        json@ == status_object(name@, protocol@, max@, online@, motd@),
{
    let mut json = "{\"version\":{\"name\":".to_owned();
    json.append(name);
    json.append(",\"protocol\":");
    json.append(protocol);
    json.append("},\"players\":{\"max\":");
    json.append(max);
    json.append(",\"online\":");
    json.append(online);
    json.append("},\"description\":{\"text\":");
    json.append(motd);
    json.append("}}");
    json
}

impl StatusResponse {
    /// The status of a server with the given limit, number of players and
    /// message of the day.
    pub fn new(max_players: i32, online: usize, motd: &Text) -> (status: StatusResponse)
        ensures
            status.version.name@ == SERVER_NAME@,
            status.version.protocol == PROTOCOL_VERSION,
            status.players.max == max_players,
            status.players.online == online,
            status.description.text@ == motd.text@,
            status.json() == StatusResponse::json_of(max_players, online, motd.text@),
    {
        StatusResponse {
            version: Version { name: SERVER_NAME.to_owned(), protocol: PROTOCOL_VERSION },
            players: Players { max: max_players, online },
            description: Text { text: motd.text.clone() },
        }
    }

    /// The JSON text of this status: the status object around the literals
    /// of its two strings and the decimal text of its three numbers.
    pub open spec fn json(&self) -> Seq<char> {
        status_object(
            json_string(self.version.name@),
            signed_decimal(self.version.protocol as int),
            signed_decimal(self.players.max as int),
            signed_decimal(self.players.online as int),
            json_string(self.description.text@),
        )
    }

    /// Writes this status as JSON. There always is a text.
    pub fn to_json(&self) -> (json: Option<String>)
        ensures
            json matches Some(text) && text@ == self.json(),
    {
        let name = match json_string_of(self.version.name.as_str()) {
            Some(literal) => literal,
            None => {
                return None;
            },
        };
        let motd = match json_string_of(self.description.text.as_str()) {
            Some(literal) => literal,
            None => {
                return None;
            },
        };
        let protocol = decimal_of(self.version.protocol as i128);
        let max = decimal_of(self.players.max as i128);
        let online = decimal_of(self.players.online as i128);
        Some(
            write_status_object(
                name.as_str(),
                protocol.as_str(),
                max.as_str(),
                online.as_str(),
                motd.as_str(),
            ),
        )
    }

    /// The JSON text of the status that [`StatusResponse::new`] makes.
    pub open spec fn json_of(max_players: i32, online: usize, motd: Seq<char>) -> Seq<char> {
        status_object(
            json_string(SERVER_NAME@),
            signed_decimal(PROTOCOL_VERSION as int),
            signed_decimal(max_players as int),
            signed_decimal(online as int),
            json_string(motd),
        )
    }
}

} // verus!
