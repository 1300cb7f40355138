//! The network layer: IPv4 and IPv6 headers, and which way a packet went.

use vstd::prelude::*;
use vstd::slice::slice_subrange;
use crate::error::{error_message, DecodeError, DecodeErrorKind};
use crate::format::{dotted_decimal, hex_of_bytes, ipv4_address_to_string, ipv6_address_to_string};
use crate::header::Header;

verus! {

/// The transport layer that an IP header names.
#[derive(Clone, Copy, Debug, PartialEq, Eq, Structural)]
pub enum Protocol {
    TCP,
    UDP,
    Unknown,
}

/// The name of a protocol as text.
pub open spec fn protocol_name(p: Protocol) -> Seq<char> {
    match p {
        Protocol::TCP => "TCP"@,
        Protocol::UDP => "UDP"@,
        Protocol::Unknown => "Unknown"@,
    }
}

impl Protocol {
    /// The name of the protocol: `TCP`, `UDP` or `Unknown`.
    pub fn to_string(&self) -> (r: String)
        ensures
            r@ == protocol_name(*self),
    {
        match self {
            Protocol::TCP => String::from_str("TCP"),
            Protocol::UDP => String::from_str("UDP"),
            Protocol::Unknown => String::from_str("Unknown"),
        }
    }
}

/// The transport protocol that an IP protocol number names, if it is one
/// decoded here.
pub open spec fn transport_of(number: u8) -> Option<Protocol> {
    if number == 6 {
        Some(Protocol::TCP)
    } else if number == 17 {
        Some(Protocol::UDP)
    } else {
        None
    }
}

/// Reads a protocol number: `None` where it names no protocol decoded here.
fn read_protocol(number: u8) -> (r: Option<Protocol>)
    ensures
        r == transport_of(number),
{
    match number {
        6 => Some(Protocol::TCP),
        17 => Some(Protocol::UDP),
        _ => None,
    }
}

/// What an IP header holds: addresses as text and the transport protocol.
pub struct IpHeaderView {
    pub dest: Seq<char>,
    pub src: Seq<char>,
    pub protocol: Protocol,
}

/// The smallest IPv4 header.
pub const IPV4_MIN_HEADER_LEN: usize = 20;

/// The size of an IPv6 header, extension headers left out.
pub const IPV6_HEADER_LEN: usize = 40;

/// The IPv4 header length in bytes: the low four bits of the first byte,
/// counted in 32-bit words.
pub open spec fn ipv4_header_len(data: Seq<u8>) -> nat
    recommends
        data.len() > 0,
{
    ((data[0] % 16) * 4) as nat
}

/// The IPv4 header at the front of `data`, or why there is none. A buffer
/// shorter than 20 bytes is too short; otherwise a protocol number decoded
/// nowhere here fails whatever the header length says; past that, a buffer
/// shorter than the header length it states is too short.
pub open spec fn ipv4_of(data: Seq<u8>) -> Result<IpHeaderView, DecodeErrorKind> {
    if data.len() < IPV4_MIN_HEADER_LEN {
        Err(DecodeErrorKind::TooShort)
    } else {
        match transport_of(data[9]) {
            None => Err(DecodeErrorKind::UnrecognizedTag(data[9] as u16)),
            Some(p) => if ipv4_header_len(data) > data.len() {
                Err(DecodeErrorKind::TooShort)
            } else {
                Ok(
                    IpHeaderView {
                        dest: dotted_decimal(data.subrange(16, 20)),
                        src: dotted_decimal(data.subrange(12, 16)),
                        protocol: p,
                    },
                )
            },
        }
    }
}

/// The IPv6 header at the front of `data`, or why there is none. The
/// protocol comes from byte 9; a number decoded nowhere here gives
/// `Unknown`, not an error.
pub open spec fn ipv6_of(data: Seq<u8>) -> Result<IpHeaderView, DecodeErrorKind> {
    if data.len() < IPV6_HEADER_LEN {
        Err(DecodeErrorKind::TooShort)
    } else {
        Ok(
            IpHeaderView {
                dest: hex_of_bytes(data.subrange(20, 36)),
                src: hex_of_bytes(data.subrange(8, 20)),
                protocol: match transport_of(data[9]) {
                    Some(p) => p,
                    None => Protocol::Unknown,
                },
            },
        )
    }
}

/// An IPv4 header: source and destination in dotted decimal, and the
/// transport protocol.
#[derive(Clone, Debug)]
pub struct Ipv4Header {
    dest: String,
    src: String,
    protocol: Protocol,
}

impl View for Ipv4Header {
    type V = IpHeaderView;

    closed spec fn view(&self) -> IpHeaderView {
        IpHeaderView { dest: self.dest@, src: self.src@, protocol: self.protocol }
    }
}

impl Header for Ipv4Header {
    open spec fn accepts(data: Seq<u8>) -> bool {
        ipv4_of(data) is Ok
    }

    open spec fn header_len(data: Seq<u8>) -> nat {
        ipv4_header_len(data)
    }

    fn decode(data: Vec<u8>) -> (r: (Result<Self, DecodeError>, Vec<u8>))
        ensures
            match r.0 {
                Ok(h) => ipv4_of(data@) == Ok::<_, DecodeErrorKind>(h@),
                Err(e) => ipv4_of(data@) == Err::<IpHeaderView, _>(e.kind)
                    && e.msg@ == error_message("ipv4"@, "protocol"@, e.kind),
            },
    {
        if data.len() < IPV4_MIN_HEADER_LEN {
            let e = DecodeError::new("ipv4", "protocol", DecodeErrorKind::TooShort);
            return (Err(e), data);
        }
        let protocol = match read_protocol(data[9]) {
            Some(p) => p,
            None => {
                let kind = DecodeErrorKind::UnrecognizedTag(data[9] as u16);
                let e = DecodeError::new("ipv4", "protocol", kind);
                return (Err(e), data);
            },
        };
        let header_len = ((data[0] % 16) as usize) * 4;
        if header_len > data.len() {
            let e = DecodeError::new("ipv4", "protocol", DecodeErrorKind::TooShort);
            return (Err(e), data);
        }
        let src = ipv4_address_to_string(slice_subrange(data.as_slice(), 12, 16));
        let dest = ipv4_address_to_string(slice_subrange(data.as_slice(), 16, 20));
        let mut data = data;
        let payload = data.split_off(header_len);
        (Ok(Ipv4Header { dest, src, protocol }), payload)
    }
}

impl Ipv4Header {
    pub fn get_protocol(&self) -> (r: Protocol)
        ensures
            r == self@.protocol,
    {
        self.protocol
    }

    pub fn get_src_address(&self) -> (r: String)
        ensures
            r@ == self@.src,
    {
        self.src.clone()
    }

    pub fn get_dest_address(&self) -> (r: String)
        ensures
            r@ == self@.dest,
    {
        self.dest.clone()
    }
}

/// An IPv6 header: source and destination as hexadecimal text, and the
/// transport protocol.
#[derive(Clone, Debug)]
pub struct Ipv6Header {
    dest: String,
    src: String,
    protocol: Protocol,
}

impl View for Ipv6Header {
    type V = IpHeaderView;

    closed spec fn view(&self) -> IpHeaderView {
        IpHeaderView { dest: self.dest@, src: self.src@, protocol: self.protocol }
    }
}

impl Header for Ipv6Header {
    open spec fn accepts(data: Seq<u8>) -> bool {
        ipv6_of(data) is Ok
    }

    open spec fn header_len(data: Seq<u8>) -> nat {
        IPV6_HEADER_LEN as nat
    }

    fn decode(data: Vec<u8>) -> (r: (Result<Self, DecodeError>, Vec<u8>))
        ensures
            match r.0 {
                Ok(h) => ipv6_of(data@) == Ok::<_, DecodeErrorKind>(h@),
                Err(e) => ipv6_of(data@) == Err::<IpHeaderView, _>(e.kind)
                    && e.msg@ == error_message("ipv6"@, "protocol"@, e.kind),
            },
    {
        if data.len() < IPV6_HEADER_LEN {
            let e = DecodeError::new("ipv6", "protocol", DecodeErrorKind::TooShort);
            return (Err(e), data);
        }
        let protocol = match read_protocol(data[9]) {
            Some(p) => p,
            None => Protocol::Unknown,
        };
        let src = ipv6_address_to_string(slice_subrange(data.as_slice(), 8, 20));
        let dest = ipv6_address_to_string(slice_subrange(data.as_slice(), 20, 36));
        let mut data = data;
        let payload = data.split_off(IPV6_HEADER_LEN);
        (Ok(Ipv6Header { dest, src, protocol }), payload)
    }
}

impl Ipv6Header {
    pub fn get_protocol(&self) -> (r: Protocol)
        ensures
            r == self@.protocol,
    {
        self.protocol
    }

    pub fn get_src_address(&self) -> (r: String)
        ensures
            r@ == self@.src,
    {
        self.src.clone()
    }

    pub fn get_dest_address(&self) -> (r: String)
        ensures
            r@ == self@.dest,
    {
        self.dest.clone()
    }
}

/// IPv4 decodes a protocol number of 6 as TCP and 17 as UDP (where the
/// header length it states fits the buffer) and fails on any other with that
/// number, whatever the header length says; IPv6 decodes 6 and 17 the same way and takes any other as
/// `Unknown` without failing.
pub proof fn lemma_protocol_numbers(data: Seq<u8>)
    ensures
        data.len() >= IPV4_MIN_HEADER_LEN ==> {
            &&& data[9] != 6 && data[9] != 17 ==> ipv4_of(data) == Err::<IpHeaderView, _>(
                DecodeErrorKind::UnrecognizedTag(data[9] as u16),
            )
            &&& ipv4_header_len(data) <= data.len() && data[9] == 6 ==> (ipv4_of(data) matches Ok(h)
                && h.protocol == Protocol::TCP)
            &&& ipv4_header_len(data) <= data.len() && data[9] == 17 ==> (ipv4_of(data) matches Ok(h)
                && h.protocol == Protocol::UDP)
        },
        data.len() >= IPV6_HEADER_LEN ==> {
            &&& data[9] == 6 ==> (ipv6_of(data) matches Ok(h) && h.protocol == Protocol::TCP)
            &&& data[9] == 17 ==> (ipv6_of(data) matches Ok(h) && h.protocol == Protocol::UDP)
            &&& data[9] != 6 && data[9] != 17 ==> (ipv6_of(data) matches Ok(h) && h.protocol
                == Protocol::Unknown)
        },
{
}

/// Which way a packet went, seen from the capturing interface.
#[derive(Clone, Copy, Debug, PartialEq, Eq, Structural)]
pub enum Direction {
    Received,
    Transmitted,
}

/// Whether `src` is one of the interface's `addresses`, compared as text.
pub open spec fn is_local(src: Seq<char>, addresses: Seq<String>) -> bool {
    exists|i: int| 0 <= i < addresses.len() && #[trigger] addresses[i]@ == src
}

/// `Transmitted` where the source address is one of the interface's own,
/// else `Received`.
pub open spec fn direction_of(src: Seq<char>, addresses: Seq<String>) -> Direction {
    if is_local(src, addresses) {
        Direction::Transmitted
    } else {
        Direction::Received
    }
}

fn classify(src: &String, addresses: &Vec<String>) -> (r: Direction)
    ensures
        r == direction_of(src@, addresses@),
{
    let mut i: usize = 0;
    while i < addresses.len()
        invariant
            i <= addresses@.len(),
            forall|j: int| 0 <= j < i ==> #[trigger] addresses@[j]@ != src@,
        decreases addresses@.len() - i,
    {
        if addresses[i].eq(src) {
            return Direction::Transmitted;
        }
        i = i + 1;
    }
    Direction::Received
}

/// The direction of a packet with this IPv4 header, given the textual
/// addresses (dotted decimal) of the capturing interface.
pub fn get_direction_from_ipv4(header: Ipv4Header, addresses: Vec<String>) -> (r: Direction)
    ensures
        r == direction_of(header@.src, addresses@),
{
    classify(&header.src, &addresses)
}

/// The direction of a packet with this IPv6 header, given the textual
/// addresses (unseparated lowercase hexadecimal) of the capturing interface.
pub fn get_direction_from_ipv6(header: Ipv6Header, addresses: Vec<String>) -> (r: Direction)
    ensures
        r == direction_of(header@.src, addresses@),
{
    classify(&header.src, &addresses)
}

} // verus!
