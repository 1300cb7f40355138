//! Per-packet summaries and their timestamps.

use vstd::prelude::*;
use crate::format::{decimal, push_decimal};
use crate::ip::Protocol;

verus! {

/// A capture timestamp: whole seconds and microseconds.
#[derive(Clone, Copy, Debug, PartialEq, Eq, Structural)]
pub struct TimeVal {
    pub sec: u32,
    pub u_sec: u32,
}

/// Microseconds in a second.
pub const MICROS_PER_SEC: u64 = 1000000;

/// The timestamp as a count of microseconds.
pub open spec fn micros_of(t: TimeVal) -> int {
    t.sec * MICROS_PER_SEC + t.u_sec
}

/// The timestamp for a count of microseconds. Seconds that do not fit in
/// 32 bits keep their low 32 bits.
pub open spec fn time_val_of(v: u64) -> TimeVal {
    TimeVal { sec: (v / MICROS_PER_SEC) as u32, u_sec: (v % MICROS_PER_SEC) as u32 }
}

impl TimeVal {
    /// Seconds and microseconds separated by a space, both in decimal.
    pub fn to_string(&self) -> (r: String)
        ensures
            r@ == decimal(self.sec as nat) + " "@ + decimal(self.u_sec as nat),
    {
        let mut s = String::new();
        push_decimal(&mut s, self.sec as u64);
        s.append(" ");
        push_decimal(&mut s, self.u_sec as u64);
        s
    }
}

impl From<TimeVal> for u64 {
    fn from(t: TimeVal) -> (r: u64) {
        (t.sec as u64) * MICROS_PER_SEC + (t.u_sec as u64)
    }
}

impl vstd::std_specs::convert::FromSpecImpl<TimeVal> for u64 {
    open spec fn obeys_from_spec() -> bool {
        true
    }

    open spec fn from_spec(t: TimeVal) -> u64 {
        micros_of(t) as u64
    }
}

impl From<u64> for TimeVal {
    fn from(v: u64) -> (r: TimeVal) {
        TimeVal { sec: (v / MICROS_PER_SEC) as u32, u_sec: (v % MICROS_PER_SEC) as u32 }
    }
}

impl vstd::std_specs::convert::FromSpecImpl<u64> for TimeVal {
    open spec fn obeys_from_spec() -> bool {
        true
    }

    open spec fn from_spec(v: u64) -> TimeVal {
        time_val_of(v)
    }
}

/// What a packet summary holds.
pub struct PacketInfoView {
    pub address: Seq<char>,
    pub port: u16,
    pub protocol: Protocol,
    pub byte_transmitted: usize,
    pub ts: TimeVal,
}

/// The summary of one decoded packet: an address and a port taken from its
/// headers, its transport protocol, its size in bytes and when it was
/// captured.
#[derive(Clone, Debug)]
pub struct PacketInfo {
    address: String,
    port: u16,
    protocol: Protocol,
    byte_transmitted: usize,
    ts: TimeVal,
}

impl View for PacketInfo {
    type V = PacketInfoView;

    closed spec fn view(&self) -> PacketInfoView {
        PacketInfoView {
            address: self.address@,
            port: self.port,
            protocol: self.protocol,
            byte_transmitted: self.byte_transmitted,
            ts: self.ts,
        }
    }
}

impl PacketInfo {
    pub fn new(address: String, port: u16, protocol: Protocol, byte_transmitted: usize, ts: TimeVal) -> (r: Self)
        ensures
            r@ == (PacketInfoView { address: address@, port, protocol, byte_transmitted, ts }),
    {
        PacketInfo { address, port, protocol, byte_transmitted, ts }
    }

    pub fn get_address(&self) -> (r: String)
        ensures
            r@ == self@.address,
    {
        self.address.clone()
    }

    pub fn get_port(&self) -> (r: u16)
        ensures
            r == self@.port,
    {
        self.port
    }

    pub fn get_protocol(&self) -> (r: Protocol)
        ensures
            r == self@.protocol,
    {
        self.protocol
    }

    pub fn get_byte_transmitted(&self) -> (r: usize)
        ensures
            r == self@.byte_transmitted,
    {
        self.byte_transmitted
    }

    pub fn get_time_stamp(&self) -> (r: TimeVal)
        ensures
            r == self@.ts,
    {
        self.ts
    }
}

/// A timestamp with fewer than a million microseconds survives the trip to
/// a microsecond count and back: both conversions together give back the
/// seconds and microseconds it started with.
pub proof fn lemma_time_val_round_trip(sec: u32, u_sec: u32)
    requires
        u_sec < MICROS_PER_SEC,
    ensures
        0 <= micros_of(TimeVal { sec, u_sec }) <= u64::MAX,
        time_val_of(micros_of(TimeVal { sec, u_sec }) as u64) == (TimeVal { sec, u_sec }),
{
    let m = sec * MICROS_PER_SEC + u_sec;
    assert(0 <= m <= u64::MAX) by (nonlinear_arith)
        requires
            m == sec * MICROS_PER_SEC + u_sec,
            sec < 0x1_0000_0000,
            u_sec < MICROS_PER_SEC,
            MICROS_PER_SEC == 1000000,
    ;
    assert(m / (MICROS_PER_SEC as int) == sec && m % (MICROS_PER_SEC as int) == u_sec) by (nonlinear_arith)
        requires
            m == sec * MICROS_PER_SEC + u_sec,
            0 <= u_sec < MICROS_PER_SEC,
            MICROS_PER_SEC == 1000000,
    ;
}

/// A microsecond count whose seconds fit in 32 bits survives the trip to a
/// timestamp and back.
pub proof fn lemma_micros_round_trip(v: u64)
    requires
        v / MICROS_PER_SEC < 0x1_0000_0000,
    ensures
        micros_of(time_val_of(v)) == v,
{
    assert(v == (v / MICROS_PER_SEC) * MICROS_PER_SEC + v % MICROS_PER_SEC) by (nonlinear_arith)
        requires
            MICROS_PER_SEC == 1000000,
    ;
}

} // verus!
