//! The game-server side: database results and the WebSocket protocol.
pub mod mysql_util;
pub mod ws_server;
