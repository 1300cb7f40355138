//! The link layer: Ethernet II frames.

use vstd::prelude::*;
use vstd::slice::slice_subrange;
use crate::error::{error_message, DecodeError, DecodeErrorKind};
use crate::format::{hex_of_bytes, mac_address_to_string};
use crate::header::{be_u16, read_be_u16, Header};

verus! {

/// The network layers that an Ethernet frame can carry and that are
/// recognized here. ARP is recognized but not decoded further.
#[derive(Clone, Copy, Debug, PartialEq, Eq, Structural)]
pub enum EtherType {
    Ipv4,
    Ipv6,
    ARP,
}

/// The size of an Ethernet header.
pub const ETHERNET_HEADER_LEN: usize = 14;

/// The layer that an ether type value names, if it is one recognized here.
pub open spec fn ether_type_of(tag: u16) -> Option<EtherType> {
    if tag == 0x0800 {
        Some(EtherType::Ipv4)
    } else if tag == 0x0806 {
        Some(EtherType::ARP)
    } else if tag == 0x86DD {
        Some(EtherType::Ipv6)
    } else {
        None
    }
}

/// What an Ethernet header holds: addresses as hexadecimal text.
pub struct EthernetHeaderView {
    pub dest: Seq<char>,
    pub src: Seq<char>,
    pub ether_type: EtherType,
}

/// The Ethernet header at the front of `data`, or why there is none.
pub open spec fn ethernet_of(data: Seq<u8>) -> Result<EthernetHeaderView, DecodeErrorKind> {
    if data.len() < ETHERNET_HEADER_LEN {
        Err(DecodeErrorKind::TooShort)
    } else {
        let tag = be_u16(data[12], data[13]);
        match ether_type_of(tag) {
            Some(t) => Ok(
                EthernetHeaderView {
                    dest: hex_of_bytes(data.subrange(0, 6)),
                    src: hex_of_bytes(data.subrange(6, 12)),
                    ether_type: t,
                },
            ),
            None => Err(DecodeErrorKind::UnrecognizedTag(tag)),
        }
    }
}

/// An Ethernet header: destination and source MAC addresses and the type of
/// the network layer that follows.
#[derive(Clone, Debug)]
pub struct EthernetHeader {
    _dest: String,
    _src: String,
    ether_type: EtherType,
}

impl View for EthernetHeader {
    type V = EthernetHeaderView;

    closed spec fn view(&self) -> EthernetHeaderView {
        EthernetHeaderView { dest: self._dest@, src: self._src@, ether_type: self.ether_type }
    }
}

impl Header for EthernetHeader {
    open spec fn accepts(data: Seq<u8>) -> bool {
        ethernet_of(data) is Ok
    }

    open spec fn header_len(data: Seq<u8>) -> nat {
        ETHERNET_HEADER_LEN as nat
    }

    fn decode(data: Vec<u8>) -> (r: (Result<Self, DecodeError>, Vec<u8>))
        ensures
            match r.0 {
                Ok(h) => ethernet_of(data@) == Ok::<_, DecodeErrorKind>(h@),
                Err(e) => ethernet_of(data@) == Err::<EthernetHeaderView, _>(e.kind)
                    && e.msg@ == error_message("ethernet"@, "ether type"@, e.kind),
            },
    {
        if data.len() < ETHERNET_HEADER_LEN {
            let e = DecodeError::new("ethernet", "ether type", DecodeErrorKind::TooShort);
            return (Err(e), data);
        }
        let tag = read_be_u16(&data, 12);
        let ether_type = match tag {
            0x0800 => EtherType::Ipv4,
            0x0806 => EtherType::ARP,
            0x86DD => EtherType::Ipv6,
            _ => {
                let e = DecodeError::new("ethernet", "ether type", DecodeErrorKind::UnrecognizedTag(tag));
                return (Err(e), data);
            },
        };
        let _dest = mac_address_to_string(slice_subrange(data.as_slice(), 0, 6));
        let _src = mac_address_to_string(slice_subrange(data.as_slice(), 6, 12));
        let mut data = data;
        let payload = data.split_off(ETHERNET_HEADER_LEN);
        (Ok(EthernetHeader { _dest, _src, ether_type }), payload)
    }
}

impl EthernetHeader {
    pub fn get_ether_type(&self) -> (r: EtherType)
        ensures
            r == self@.ether_type,
    {
        self.ether_type
    }

    pub fn get_src_address(&self) -> (r: String)
        ensures
            r@ == self@.src,
    {
        self._src.clone()
    }

    pub fn get_dest_address(&self) -> (r: String)
        ensures
            r@ == self@.dest,
    {
        self._dest.clone()
    }
}

/// A buffer shorter than an Ethernet header never decodes: the error is
/// `TooShort` (and `decode` hands the buffer back unchanged).
pub proof fn lemma_short_frame_rejected(data: Seq<u8>)
    requires
        data.len() < ETHERNET_HEADER_LEN,
    ensures
        ethernet_of(data) == Err::<EthernetHeaderView, _>(DecodeErrorKind::TooShort),
        !EthernetHeader::accepts(data),
{
}

/// The ether type bytes decide the network layer: `08 00` is IPv4, `08 06`
/// is ARP, `86 DD` is IPv6, and any other pair fails the decode with the
/// pair's value.
pub proof fn lemma_ether_type_bytes(data: Seq<u8>)
    requires
        data.len() >= ETHERNET_HEADER_LEN,
    ensures
        data[12] == 0x08 && data[13] == 0x00 ==> (ethernet_of(data) matches Ok(h) && h.ether_type
            == EtherType::Ipv4),
        data[12] == 0x08 && data[13] == 0x06 ==> (ethernet_of(data) matches Ok(h) && h.ether_type
            == EtherType::ARP),
        data[12] == 0x86 && data[13] == 0xDD ==> (ethernet_of(data) matches Ok(h) && h.ether_type
            == EtherType::Ipv6),
        !(data[12] == 0x08 && data[13] == 0x00) && !(data[12] == 0x08 && data[13] == 0x06) && !(
        data[12] == 0x86 && data[13] == 0xDD) ==> ethernet_of(data) == Err::<EthernetHeaderView, _>(
            DecodeErrorKind::UnrecognizedTag(be_u16(data[12], data[13])),
        ),
{
    let hi = data[12];
    let lo = data[13];
    assert(((hi * 256 + lo) as u16 == 0x0800) <==> (hi == 0x08 && lo == 0x00));
    assert(((hi * 256 + lo) as u16 == 0x0806) <==> (hi == 0x08 && lo == 0x06));
    assert(((hi * 256 + lo) as u16 == 0x86DD) <==> (hi == 0x86 && lo == 0xDD));
}

} // verus!
