//! Session-oriented command server core for a QUIC-based multiplexed transport.

pub mod connection;
pub mod html_content;
pub mod http_server;
pub mod identity;
pub mod init;
pub mod protocol;
pub mod text;
pub mod theorems;
pub mod tls;
