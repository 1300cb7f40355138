//! Canonical text forms of addresses and numbers.

use vstd::prelude::*;

verus! {

/// The lowercase hexadecimal digit for `d` (which is below 16).
pub open spec fn hex_char(d: nat) -> char {
    if d < 10 {
        (d + 48) as char
    } else {
        (d + 87) as char
    }
}

/// Appends the lowercase hexadecimal digit for `d` to `s`.
fn push_digit(s: &mut String, d: u8)
    requires
        d < 16,
    ensures
        final(s)@ == old(s)@.push(hex_char(d as nat)),
{
    let t: &str = match d {
        0 => "0",
        1 => "1",
        2 => "2",
        3 => "3",
        4 => "4",
        5 => "5",
        6 => "6",
        7 => "7",
        8 => "8",
        9 => "9",
        10 => "a",
        11 => "b",
        12 => "c",
        13 => "d",
        14 => "e",
        _ => "f",
    };
    proof {
        reveal_strlit("0");
        reveal_strlit("1");
        reveal_strlit("2");
        reveal_strlit("3");
        reveal_strlit("4");
        reveal_strlit("5");
        reveal_strlit("6");
        reveal_strlit("7");
        reveal_strlit("8");
        reveal_strlit("9");
        reveal_strlit("a");
        reveal_strlit("b");
        reveal_strlit("c");
        reveal_strlit("d");
        reveal_strlit("e");
        reveal_strlit("f");
    }
    s.append(t);
}


/// The two lowercase hexadecimal digits of a byte, high digit first.
pub open spec fn byte_hex(b: u8) -> Seq<char> {
    seq![hex_char((b / 16) as nat), hex_char((b % 16) as nat)]
}

/// Each byte as two lowercase hexadecimal digits, with no separator.
pub open spec fn hex_of_bytes(bytes: Seq<u8>) -> Seq<char>
    decreases bytes.len(),
{
    if bytes.len() == 0 {
        Seq::empty()
    } else {
        hex_of_bytes(bytes.drop_last()) + byte_hex(bytes.last())
    }
}

/// `n` in decimal, without leading zeros ("0" for zero).
pub open spec fn decimal(n: nat) -> Seq<char>
    decreases n,
{
    if n < 10 {
        seq![hex_char(n)]
    } else {
        decimal(n / 10).push(hex_char(n % 10))
    }
}

/// `n` in lowercase hexadecimal, without leading zeros ("0" for zero).
pub open spec fn lower_hex(n: nat) -> Seq<char>
    decreases n,
{
    if n < 16 {
        seq![hex_char(n)]
    } else {
        lower_hex(n / 16).push(hex_char(n % 16))
    }
}

/// Each byte in decimal, joined by dots (empty for no bytes).
pub open spec fn dotted_decimal(bytes: Seq<u8>) -> Seq<char>
    decreases bytes.len(),
{
    if bytes.len() == 0 {
        Seq::empty()
    } else if bytes.len() == 1 {
        decimal(bytes[0] as nat)
    } else {
        dotted_decimal(bytes.drop_last()) + seq!['.'] + decimal(bytes.last() as nat)
    }
}

/// Appends `n` in decimal to `s`.
pub(crate) fn push_decimal(s: &mut String, n: u64)
    ensures
        final(s)@ == old(s)@ + decimal(n as nat),
    decreases n,
{
    if n >= 10 {
        push_decimal(s, n / 10);
    }
    push_digit(s, (n % 10) as u8);
    assert(final(s)@ =~= old(s)@ + decimal(n as nat));
}

/// Appends `n` in lowercase hexadecimal to `s`.
pub(crate) fn push_lower_hex(s: &mut String, n: u64)
    ensures
        final(s)@ == old(s)@ + lower_hex(n as nat),
    decreases n,
{
    if n >= 16 {
        push_lower_hex(s, n / 16);
    }
    push_digit(s, (n % 16) as u8);
    assert(final(s)@ =~= old(s)@ + lower_hex(n as nat));
}

/// Each byte of `data` as two lowercase hexadecimal digits, with no separator.
pub(crate) fn hex_string(data: &[u8]) -> (r: String)
    ensures
        r@ == hex_of_bytes(data@),
{
    let mut s = String::new();
    let mut i: usize = 0;
    while i < data.len()
        invariant
            i <= data@.len(),
            s@ == hex_of_bytes(data@.subrange(0, i as int)),
        decreases data@.len() - i,
    {
        let b = data[i];
        push_digit(&mut s, b / 16);
        push_digit(&mut s, b % 16);
        assert(data@.subrange(0, i + 1).drop_last() =~= data@.subrange(0, i as int));
        assert(s@ =~= hex_of_bytes(data@.subrange(0, i + 1)));
        i = i + 1;
    }
    assert(data@.subrange(0, data@.len() as int) =~= data@);
    s
}

/// A MAC address as lowercase hexadecimal digits with no separator
/// (`50eb71238e67`).
pub fn mac_address_to_string(address: &[u8]) -> (r: String)
    ensures
        r@ == hex_of_bytes(address@),
{
    hex_string(address)
}

/// An IPv4 address in dotted decimal (`192.168.1.21`).
pub fn ipv4_address_to_string(address: &[u8]) -> (r: String)
    ensures
        r@ == dotted_decimal(address@),
{
    let mut s = String::new();
    let mut i: usize = 0;
    while i < address.len()
        invariant
            i <= address@.len(),
            s@ == dotted_decimal(address@.subrange(0, i as int)),
        decreases address@.len() - i,
    {
        if i > 0 {
            proof {
                reveal_strlit(".");
            }
            s.append(".");
        }
        push_decimal(&mut s, address[i] as u64);
        assert(address@.subrange(0, i + 1).drop_last() =~= address@.subrange(0, i as int));
        assert(s@ =~= dotted_decimal(address@.subrange(0, i + 1)));
        i = i + 1;
    }
    assert(address@.subrange(0, address@.len() as int) =~= address@);
    s
}

/// An IPv6 address as lowercase hexadecimal digits with no separator: two
/// digits per byte, no colons and no shortening of zero groups.
pub fn ipv6_address_to_string(address: &[u8]) -> (r: String)
    ensures
        r@ == hex_of_bytes(address@),
{
    hex_string(address)
}

} // verus!
