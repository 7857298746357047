//! What the transport computes: the addresses it talks to and the
//! Wake-on-LAN packet.
use vstd::prelude::*;

use crate::text::{chars_of, concat_str, decimal, decimal_string, push_char};

verus! {

/// Marks a connection that is closed.
pub struct Disconnected;

/// Marks a connection that is open.
pub struct Connected;

/// The value of a hexadecimal digit, either case.
pub open spec fn hex_value(c: char) -> Option<u8> {
    if '0' <= c <= '9' {
        Some((c as u32 - 48) as u8)
    } else if 'a' <= c <= 'f' {
        Some((c as u32 - 87) as u8)
    } else if 'A' <= c <= 'F' {
        Some((c as u32 - 55) as u8)
    } else {
        None
    }
}

/// Six pairs of hexadecimal digits separated by colons, in either case
/// (`(?i)^([0-9a-f]{2}:){5}([0-9a-f]{2})$`).
pub open spec fn is_mac_address(s: Seq<char>) -> bool {
    &&& s.len() == 17
    &&& forall|i: int|
        0 <= i < 17 ==> if i % 3 == 2 {
            #[trigger] s[i] == ':'
        } else {
            hex_value(s[i]) is Some
        }
}

/// The six bytes that a MAC address spells.
pub open spec fn mac_bytes(s: Seq<char>) -> Seq<u8> {
    Seq::new(
        6,
        |k: int| (hex_value(s[3 * k])->0 * 16 + hex_value(s[3 * k + 1])->0) as u8,
    )
}

/// The Wake-on-LAN packet for a MAC address: six bytes `0xff`, then the
/// address sixteen times.
pub open spec fn magic_packet(mac: Seq<u8>) -> Seq<u8> {
    Seq::new(6, |i: int| 0xffu8) + Seq::new(96, |i: int| mac[i % 6])
}

fn hex_digit(c: char) -> (r: Option<u8>)
    ensures
        r == hex_value(c),
{
    if '0' <= c && c <= '9' {
        Some((c as u32 - 48) as u8)
    } else if 'a' <= c && c <= 'f' {
        Some((c as u32 - 87) as u8)
    } else if 'A' <= c && c <= 'F' {
        Some((c as u32 - 55) as u8)
    } else {
        None
    }
}

/// The Wake-on-LAN packet for `mac_address`, which must be six pairs of
/// hexadecimal digits separated by colons.
pub fn create_magic_packet(mac_address: &str) -> (r: Result<Vec<u8>, &'static str>)
    ensures
        r is Ok <==> is_mac_address(mac_address@),
        r matches Ok(p) ==> p@ == magic_packet(mac_bytes(mac_address@)),
        r matches Err(e) ==> e@ == "Invalid MAC address"@,
{
    let s = chars_of(mac_address);
    if s.len() != 17 {
        return Err("Invalid MAC address");
    }
    let mut i: usize = 0;
    while i < 17
        invariant
            i <= 17,
            s@ == mac_address@,
            s@.len() == 17,
            forall|j: int|
                0 <= j < i ==> if j % 3 == 2 {
                    #[trigger] s@[j] == ':'
                } else {
                    hex_value(s@[j]) is Some
                },
        decreases 17 - i,
    {
        let ok = if i % 3 == 2 {
            s[i] == ':'
        } else {
            hex_digit(s[i]).is_some()
        };
        if !ok {
            proof {
                assert(!is_mac_address(s@)) by {
                    let k = i as int;
                    if k % 3 == 2 {
                        assert(s@[k] != ':');
                    } else {
                        assert(hex_value(s@[k]) is None);
                    }
                }
            }
            return Err("Invalid MAC address");
        }
        i = i + 1;
    }
    assert(is_mac_address(s@));
    let mut mac: Vec<u8> = Vec::new();
    let mut k: usize = 0;
    while k < 6
        invariant
            k <= 6,
            s@.len() == 17,
            is_mac_address(s@),
            mac@ == mac_bytes(s@).take(k as int),
        decreases 6 - k,
    {
        assert(hex_value(s@[3 * k as int]) is Some);
        assert(hex_value(s@[3 * k + 1]) is Some);
        let hi = hex_digit(s[3 * k]).unwrap();
        let lo = hex_digit(s[3 * k + 1]).unwrap();
        mac.push(hi * 16 + lo);
        k = k + 1;
        assert(mac@ =~= mac_bytes(s@).take(k as int));
    }
    assert(mac@ =~= mac_bytes(s@));
    let mut packet: Vec<u8> = Vec::new();
    let mut j: usize = 0;
    while j < 6
        invariant
            j <= 6,
            packet@ == Seq::new(j as nat, |i: int| 0xffu8),
        decreases 6 - j,
    {
        packet.push(0xff);
        j = j + 1;
        assert(packet@ =~= Seq::new(j as nat, |i: int| 0xffu8));
    }
    let mut n: usize = 0;
    while n < 96
        invariant
            n <= 96,
            mac@.len() == 6,
            packet@ == Seq::new(6, |i: int| 0xffu8) + Seq::new(n as nat, |i: int| mac@[i % 6]),
        decreases 96 - n,
    {
        packet.push(mac[n % 6]);
        n = n + 1;
        assert(packet@ =~= Seq::new(6, |i: int| 0xffu8) + Seq::new(n as nat, |i: int| mac@[i % 6]));
    }
    Ok(packet)
}

/// `host:port`, the address of a TCP endpoint.
pub fn tcp_address(host: &str, port: u16) -> (s: String)
    ensures
        s@ == host@ + ":"@ + decimal(port as nat),
{
    let with_colon = concat_str(host, ":");
    let digits = decimal_string(port);
    concat_str(with_colon.as_str(), digits.as_str())
}

/// The local address to bind the Wake-on-LAN socket to: any IPv6 address or
/// any IPv4 address, on a port the system chooses.
pub fn wake_on_lan_bind_address(is_ipv6: bool) -> (s: &'static str)
    ensures
        s@ == (if is_ipv6 { "[::]:0"@ } else { "0.0.0.0:0"@ }),
{
    if is_ipv6 {
        "[::]:0"
    } else {
        "0.0.0.0:0"
    }
}

/// The address the Wake-on-LAN packet is sent to: `address:port`, with an
/// IPv6 address in brackets.
pub fn wake_on_lan_target(address: &str, port: u16, is_ipv6: bool) -> (s: String)
    ensures
        s@ == (if is_ipv6 { "["@ + address@ + "]"@ } else { address@ }) + ":"@ + decimal(
            port as nat,
        ),
{
    if is_ipv6 {
        let mut bracketed = String::from_str("[");
        bracketed.append(address);
        bracketed.append("]");
        tcp_address(bracketed.as_str(), port)
    } else {
        tcp_address(address, port)
    }
}

/// The hexadecimal digits, lower case, in the order of their values.
pub open spec fn lower_hex_digits() -> Seq<char> {
    "0123456789abcdef"@
}

/// The hexadecimal digits, upper case, in the order of their values.
pub open spec fn upper_hex_digits() -> Seq<char> {
    "0123456789ABCDEF"@
}

/// Every hexadecimal digit is read with its value, in either case, and no
/// other character is a hexadecimal digit.
pub proof fn lemma_hex_digits()
    ensures
        forall|i: int|
            0 <= i < 16 ==> hex_value(#[trigger] lower_hex_digits()[i]) == Some(i as u8)
                && hex_value(upper_hex_digits()[i]) == Some(i as u8),
        forall|c: char|
            #[trigger] hex_value(c) is Some ==> lower_hex_digits().contains(c)
                || upper_hex_digits().contains(c),
{
    reveal_strlit("0123456789abcdef");
    reveal_strlit("0123456789ABCDEF");
    assert forall|c: char| #[trigger] hex_value(c) is Some implies lower_hex_digits().contains(c)
        || upper_hex_digits().contains(c) by {
        if '0' <= c <= '9' {
            assert(lower_hex_digits()[c as int - 48] == c);
        } else if 'a' <= c <= 'f' {
            assert(lower_hex_digits()[c as int - 87] == c);
        } else {
            assert(upper_hex_digits()[c as int - 55] == c);
        }
    }
}

/// The usual spelling of a MAC address: each byte as two lower-case
/// hexadecimal digits, the bytes separated by colons.
pub open spec fn format_mac(mac: Seq<u8>) -> Seq<char> {
    Seq::new(
        17,
        |i: int|
            if i % 3 == 2 {
                ':'
            } else if i % 3 == 0 {
                lower_hex_digits()[mac[i / 3] as int / 16]
            } else {
                lower_hex_digits()[mac[i / 3] as int % 16]
            },
    )
}

/// Every six bytes, spelled as a MAC address, are accepted and read back:
/// the Wake-on-LAN packet for that address carries exactly those bytes.
pub proof fn lemma_mac_address_reads_back(mac: Seq<u8>)
    requires
        mac.len() == 6,
    ensures
        is_mac_address(format_mac(mac)),
        mac_bytes(format_mac(mac)) == mac,
        magic_packet(mac_bytes(format_mac(mac))) == magic_packet(mac),
{
    lemma_hex_digits();
    let s = format_mac(mac);
    assert forall|i: int| 0 <= i < 17 implies if i % 3 == 2 {
        #[trigger] s[i] == ':'
    } else {
        hex_value(s[i]) is Some
    } by {
        if i % 3 == 0 {
            assert(hex_value(lower_hex_digits()[mac[i / 3] as int / 16]) == Some((mac[i / 3] / 16) as u8));
        } else if i % 3 == 1 {
            assert(hex_value(lower_hex_digits()[mac[i / 3] as int % 16]) == Some((mac[i / 3] % 16) as u8));
        }
    }
    assert forall|k: int| 0 <= k < 6 implies #[trigger] mac_bytes(s)[k] == mac[k] by {
        assert((3 * k) % 3 == 0 && (3 * k) / 3 == k);
        assert((3 * k + 1) % 3 == 1 && (3 * k + 1) / 3 == k);
        assert(hex_value(lower_hex_digits()[mac[k] as int / 16]) == Some((mac[k] / 16) as u8));
        assert(hex_value(lower_hex_digits()[mac[k] as int % 16]) == Some((mac[k] % 16) as u8));
        assert(mac[k] == (mac[k] / 16) * 16 + mac[k] % 16);
    }
    assert(mac_bytes(s) =~= mac);
}

} // verus!
