//! The records that the servers exchange with game servers, HTTP clients
//! and the database, and the start-up configuration.
use vstd::prelude::*;

verus! {

/// Start-up configuration: where the database is and which ports the
/// servers listen on.
#[derive(Debug, Clone, PartialEq, Eq)]
pub struct Config {
    pub database_host: String,
    pub database_port: u32,
    pub database_username: String,
    pub database_password: String,
    pub database_dataname: String,
    pub ws_port: u32,
    pub ws_key: String,
    pub http_port: u32,
}

/// One player as stored in the database, with the name of the permission
/// group that the player belongs to.
#[derive(Debug, Clone, PartialEq, Eq)]
pub struct Player {
    pub pl_xuid: String,
    pub pl_name: String,
    pub pl_llmoney: i32,
    pub pl_ip: String,
    pub pl_online: u8,
    pub pl_server_name: String,
    pub pl_device: String,
    pub permission_name: String,
    pub online_time: i32,
}

/// A message from a game server: the shared key, the kind of message and
/// its payload (itself a JSON document, kept as text).
#[derive(Debug, Clone, PartialEq, Eq)]
pub struct WsData {
    pub key: String,
    pub typestr: String,
    pub data: String,
}

/// A chat line together with the sender and the sender's permission group.
#[derive(Debug, Clone, PartialEq, Eq)]
pub struct SerToData {
    pub player_name: String,
    pub perm: String,
    pub data: String,
}

/// A message forwarded to the game servers, tagged with the server name;
/// its payload is a JSON document kept as text.
#[derive(Debug, Clone, PartialEq, Eq)]
pub struct SerToChatData {
    pub typestr: String,
    pub serverver_name: String,
    pub data: String,
}

/// A code and a message.
#[derive(Debug, Clone, PartialEq, Eq)]
pub struct DataResponse {
    pub code: String,
    pub msg: String,
}

/// A [`DataResponse`] under the key `data`.
#[derive(Debug, Clone, PartialEq, Eq)]
pub struct JsonResponse {
    pub data: DataResponse,
}

/// All players, as the answer to a request for the full list.
#[derive(Debug, Clone, PartialEq, Eq)]
pub struct Players {
    pub players: Vec<Player>,
}

/// A change of permission groups: the kind of change and the group's name.
#[derive(Debug, Clone, PartialEq, Eq)]
pub struct PermissionMg {
    pub typestr: String,
    pub perm_name: String,
}

/// The credentials that an HTTP request carries: the player's name, the
/// client's timestamp in milliseconds (as text) and the token.
#[derive(Debug, Clone, PartialEq, Eq)]
pub struct UserData {
    pub name: String,
    pub t: String,
    pub token: String,
}

/// Credentials together with a change of permission levels: the kind of
/// change (`add`, `remove` or `updata`), the level and the group's name.
#[derive(Debug, Clone, PartialEq, Eq)]
pub struct UserDataPerm {
    pub name: String,
    pub t: String,
    pub token: String,
    pub typestr: String,
    pub perm_int: u128,
    pub perm_str: String,
}

} // verus!
