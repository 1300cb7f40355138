//! The transport layer: TCP and UDP headers, read for their ports.

use vstd::prelude::*;
use crate::error::{error_message, DecodeError, DecodeErrorKind};
use crate::header::{be_u16, read_be_u16, Header};

verus! {

/// What a transport header holds: the two ports.
pub struct PortsView {
    pub src: u16,
    pub dest: u16,
}

/// The size that a TCP header is taken to have (options are not skipped).
pub const TCP_HEADER_LEN: usize = 20;

/// The size of a UDP header.
pub const UDP_HEADER_LEN: usize = 8;

/// The ports of a transport header of `header_len` bytes at the front of
/// `data`, or why there is none.
pub open spec fn ports_of(data: Seq<u8>, header_len: nat) -> Result<PortsView, DecodeErrorKind> {
    if data.len() < header_len {
        Err(DecodeErrorKind::TooShort)
    } else {
        Ok(PortsView { src: be_u16(data[0], data[1]), dest: be_u16(data[2], data[3]) })
    }
}

/// Reads both ports, as big-endian 16-bit values from the first four bytes.
fn read_ports(data: &Vec<u8>) -> (r: (u16, u16))
    requires
        data@.len() >= 4,
    ensures
        r.0 == be_u16(data@[0], data@[1]),
        r.1 == be_u16(data@[2], data@[3]),
{
    (read_be_u16(data, 0), read_be_u16(data, 2))
}

/// A UDP header: source and destination ports.
#[derive(Clone, Debug)]
pub struct UDPHeader {
    dest: u16,
    src: u16,
}

impl View for UDPHeader {
    type V = PortsView;

    closed spec fn view(&self) -> PortsView {
        PortsView { src: self.src, dest: self.dest }
    }
}

impl UDPHeader {
    pub fn get_src_port(&self) -> (r: u16)
        ensures
            r == self@.src,
    {
        self.src
    }

    pub fn get_dest_port(&self) -> (r: u16)
        ensures
            r == self@.dest,
    {
        self.dest
    }
}

impl Header for UDPHeader {
    open spec fn accepts(data: Seq<u8>) -> bool {
        ports_of(data, UDP_HEADER_LEN as nat) is Ok
    }

    open spec fn header_len(data: Seq<u8>) -> nat {
        UDP_HEADER_LEN as nat
    }

    fn decode(data: Vec<u8>) -> (r: (Result<Self, DecodeError>, Vec<u8>))
        ensures
            match r.0 {
                Ok(h) => ports_of(data@, UDP_HEADER_LEN as nat) == Ok::<_, DecodeErrorKind>(h@),
                Err(e) => ports_of(data@, UDP_HEADER_LEN as nat) == Err::<PortsView, _>(e.kind)
                    && e.msg@ == error_message("udp"@, "port"@, e.kind),
            },
    {
        if data.len() < UDP_HEADER_LEN {
            let e = DecodeError::new("udp", "port", DecodeErrorKind::TooShort);
            return (Err(e), data);
        }
        let (src, dest) = read_ports(&data);
        let mut data = data;
        let payload = data.split_off(UDP_HEADER_LEN);
        (Ok(UDPHeader { dest, src }), payload)
    }
}

/// A TCP header: source and destination ports.
#[derive(Clone, Debug)]
pub struct TCPHeader {
    dest: u16,
    src: u16,
}

impl View for TCPHeader {
    type V = PortsView;

    closed spec fn view(&self) -> PortsView {
        PortsView { src: self.src, dest: self.dest }
    }
}

impl Header for TCPHeader {
    open spec fn accepts(data: Seq<u8>) -> bool {
        ports_of(data, TCP_HEADER_LEN as nat) is Ok
    }

    open spec fn header_len(data: Seq<u8>) -> nat {
        TCP_HEADER_LEN as nat
    }

    fn decode(data: Vec<u8>) -> (r: (Result<Self, DecodeError>, Vec<u8>))
        ensures
            match r.0 {
                Ok(h) => ports_of(data@, TCP_HEADER_LEN as nat) == Ok::<_, DecodeErrorKind>(h@),
                Err(e) => ports_of(data@, TCP_HEADER_LEN as nat) == Err::<PortsView, _>(e.kind)
                    && e.msg@ == error_message("tcp"@, "port"@, e.kind),
            },
    {
        if data.len() < TCP_HEADER_LEN {
            let e = DecodeError::new("tcp", "port", DecodeErrorKind::TooShort);
            return (Err(e), data);
        }
        let (src, dest) = read_ports(&data);
        let mut data = data;
        let payload = data.split_off(TCP_HEADER_LEN);
        (Ok(TCPHeader { dest, src }), payload)
    }
}

impl TCPHeader {
    pub fn get_src_port(&self) -> (r: u16)
        ensures
            r == self@.src,
    {
        self.src
    }

    pub fn get_dest_port(&self) -> (r: u16)
        ensures
            r == self@.dest,
    {
        self.dest
    }
}

} // verus!
