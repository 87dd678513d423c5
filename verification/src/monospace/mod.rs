//! Monospace relay-board line protocol, connection correlation and the
//! decisions of its command client and reader.

pub mod client;
pub mod connection;
pub mod console;
pub mod protocol;
