//! Synchronises players, permission groups and chat between game servers:
//! a WebSocket server that the game servers connect to, an HTTP interface
//! for clients, and a MySQL database behind both.
pub mod http_server;
pub mod ser_config;
pub mod server;
pub mod startup;
pub mod text;
pub mod yml_util;
