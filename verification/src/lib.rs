//! A host-side serial-port backend without the I/O: the registry of open
//! ports, a simulator of three virtual ports, and the rules by which both
//! answer the operations list, open, close, write and read.

mod clock;
pub mod config;
pub mod error;
pub mod hex;
pub mod listing;
pub mod messages;
pub mod names;
pub mod path;
pub mod payload;
pub mod registry;
pub mod text;
pub mod virtual_port;
