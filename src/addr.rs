//! IPv4 and IPv6 addresses and fixed-width integers decoded from hexadecimal text.
use vstd::prelude::*;
use crate::hex::{hex_str_to_bytes, hex_text_decode, ConvertError, ConvertErrorView};
use vstd::utf8::encode_utf8;

verus! {

/// An IPv4 address, most significant octet first (`192.168.2.1` is `[192, 168, 2, 1]`).
#[derive(Clone, Copy, Debug, PartialEq, Eq)]
pub struct Ipv4Address {
    pub octets: [u8; 4],
}

/// An IPv6 address in network byte order.
#[derive(Clone, Copy, Debug, PartialEq, Eq)]
pub struct Ipv6Address {
    pub octets: [u8; 16],
}

/// The address that the kernel writes as the eight digits of `t`: the four
/// decoded bytes form a little-endian word, so they are reversed.
pub open spec fn ipv4_text_decode(t: Seq<char>) -> Result<Seq<u8>, ConvertErrorView> {
    if encode_utf8(t).len() != 8 {
        Err(ConvertErrorView::OddStringLength(t))
    } else {
        match hex_text_decode(t) {
            Ok(v) => Ok(seq![v[3], v[2], v[1], v[0]]),
            Err(e) => Err(e),
        }
    }
}

/// The address that the kernel writes as the thirty-two digits of `t`, in order.
pub open spec fn ipv6_text_decode(t: Seq<char>) -> Result<Seq<u8>, ConvertErrorView> {
    match hex_text_decode(t) {
        Ok(v) => if v.len() == 16 {
            Ok(v)
        } else {
            Err(ConvertErrorView::SliceToBytes)
        },
        Err(e) => Err(e),
    }
}

/// Decodes an IPv4 address from eight hexadecimal digits in the kernel's
/// byte order; any other length is refused.
pub fn hex_str_to_ipv4(text: &str) -> (r: Result<Ipv4Address, ConvertError>)
    ensures
        match r {
            Ok(a) => ipv4_text_decode(text@) == Ok::<Seq<u8>, ConvertErrorView>(a.octets@),
            Err(e) => ipv4_text_decode(text@) == Err::<Seq<u8>, ConvertErrorView>(e@),
        },
{
    if text.as_bytes().len() != 8 {
        return Err(ConvertError::OddStringLength(text.to_owned()));
    }
    let bytes = match hex_str_to_bytes(text) {
        Ok(b) => b,
        Err(e) => return Err(e),
    };
    assert(bytes@.len() == 4);
    let octets = [bytes[3], bytes[2], bytes[1], bytes[0]];
    assert(octets@ =~= seq![bytes@[3], bytes@[2], bytes@[1], bytes@[0]]);
    Ok(Ipv4Address { octets })
}

/// Decodes an IPv6 address from thirty-two hexadecimal digits in network order.
pub fn hex_str_to_ipv6(text: &str) -> (r: Result<Ipv6Address, ConvertError>)
    ensures
        match r {
            Ok(a) => ipv6_text_decode(text@) == Ok::<Seq<u8>, ConvertErrorView>(a.octets@),
            Err(e) => ipv6_text_decode(text@) == Err::<Seq<u8>, ConvertErrorView>(e@),
        },
{
    let b = match hex_str_to_bytes(text) {
        Ok(b) => b,
        Err(e) => return Err(e),
    };
    if b.len() != 16 {
        return Err(ConvertError::SliceToBytes);
    }
    let octets = [
        b[0], b[1], b[2], b[3], b[4], b[5], b[6], b[7],
        b[8], b[9], b[10], b[11], b[12], b[13], b[14], b[15],
    ];
    assert(octets@ =~= b@);
    Ok(Ipv6Address { octets })
}

/// The big-endian value of two bytes.
pub open spec fn be_u16_value(b: Seq<u8>) -> u16 {
    (b[0] * 256 + b[1]) as u16
}

/// The big-endian value of four bytes.
pub open spec fn be_u32_value(b: Seq<u8>) -> u32 {
    (b[0] * 16777216 + b[1] * 65536 + b[2] * 256 + b[3]) as u32
}

/// Reads two bytes as a big-endian integer.
pub fn u16_from_be(b: &[u8]) -> (r: u16)
    requires
        b@.len() == 2,
    ensures
        r == be_u16_value(b@),
{
    (b[0] as u16) * 256 + (b[1] as u16)
}

/// Reads four bytes as a big-endian integer.
pub fn u32_from_be(b: &[u8]) -> (r: u32)
    requires
        b@.len() == 4,
    ensures
        r == be_u32_value(b@),
{
    (b[0] as u32) * 16777216 + (b[1] as u32) * 65536 + (b[2] as u32) * 256 + (b[3] as u32)
}

} // verus!
