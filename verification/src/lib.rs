//! Codec for a fixed-header, variable-payload binary packet format used to
//! record and replay traffic between a game client and two kinds of servers
//! (a login server and a game server), in both directions.
//!
//! A buffer holds a 9-byte header (direction code, port, IPv4 address,
//! payload length, all multi-byte integers big-endian) followed by the
//! payload bytes. Encoding and decoding are verified against a mathematical
//! model of that layout.

pub mod direction;
pub mod packet;
pub mod text;

pub use direction::Direction;
pub use packet::Error;
pub use packet::Ipv4Addr;
pub use packet::PoePacket;
