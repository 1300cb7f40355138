//! Layer-by-layer decoding of captured link-layer frames: Ethernet, IPv4,
//! IPv6, TCP and UDP headers, with the address formatting and per-packet
//! summaries built on top of them.

pub mod error;
pub mod ethernet;
pub mod format;
pub mod header;
pub mod ip;
pub mod packet;
pub mod transport;

pub use error::{DecodeError, DecodeErrorKind};
pub use ethernet::{EtherType, EthernetHeader};
pub use format::{ipv4_address_to_string, ipv6_address_to_string, mac_address_to_string};
pub use header::Header;
pub use ip::{get_direction_from_ipv4, get_direction_from_ipv6, Direction, Ipv4Header, Ipv6Header, Protocol};
pub use packet::{PacketInfo, TimeVal};
pub use transport::{TCPHeader, UDPHeader};
