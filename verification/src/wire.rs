//! The discovery wire format: each datagram carries one JSON document with
//! camelCase keys describing the sending device.  The transport-derived
//! `ip` and `port` are never written to the wire.
//!
//! The encoder here produces the exact byte sequence the specification
//! functions describe; the receive side decodes foreign datagrams outside
//! the library and hands the decoded values to the discovery engine.

use crate::protos::{DeviceResponse, DeviceResponseView};
use vstd::prelude::*;
use vstd::string::StringSliceAdditionalSpecFns;

verus! {

/// The byte of the lowercase hex digit for `n`, for `n < 16`.
pub open spec fn hex_byte(n: u8) -> u8 {
    if n < 10 {
        (0x30 + n) as u8
    } else {
        (0x61 + n - 10) as u8
    }
}

/// How one byte of a string is written inside a JSON string literal: the
/// double quote and the backslash are escaped, control bytes become
/// `\u00XX`, and every other byte (including every byte of a multi-byte
/// UTF-8 sequence) stands as itself.
pub open spec fn escape_byte(b: u8) -> Seq<u8> {
    if b == 0x22 {
        seq![0x5cu8, 0x22u8]
    } else if b == 0x5c {
        seq![0x5cu8, 0x5cu8]
    } else if b < 0x20 {
        seq![0x5cu8, 0x75u8, 0x30u8, 0x30u8, hex_byte(b / 16), hex_byte(b % 16)]
    } else {
        seq![b]
    }
}

/// A byte sequence escaped for the inside of a JSON string literal.
pub open spec fn escaped(s: Seq<u8>) -> Seq<u8>
    decreases s.len(),
{
    if s.len() == 0 {
        Seq::empty()
    } else {
        escaped(s.drop_last()) + escape_byte(s.last())
    }
}

/// A JSON string literal: the escaped bytes between double quotes.
pub open spec fn quoted(s: Seq<u8>) -> Seq<u8> {
    seq![0x22u8] + escaped(s) + seq![0x22u8]
}

/// The UTF-8 bytes of a character sequence.
pub open spec fn utf8(s: Seq<char>) -> Seq<u8> {
    vstd::utf8::encode_utf8(s)
}

/// The discovery datagram for identity `d`, with the announcement flag
/// forced to `announce`: one JSON document, camelCase keys, no `ip`, no
/// `port`, and `deviceModel` written as `null` when absent.
pub open spec fn announcement_bytes(d: DeviceResponseView, announce: bool) -> Seq<u8> {
    "{\"alias\":".spec_bytes() + quoted(utf8(d.device_info.alias)) + ",\"deviceType\":".spec_bytes()
        + quoted(utf8(d.device_info.device_type)) + ",\"deviceModel\":".spec_bytes() + (match d
        .device_info
        .device_model {
        Some(m) => quoted(utf8(m)),
        None => "null".spec_bytes(),
    }) + ",\"announcement\":".spec_bytes() + (if announce {
        "true".spec_bytes()
    } else {
        "false".spec_bytes()
    }) + ",\"fingerprint\":".spec_bytes() + quoted(utf8(d.fingerprint)) + "}".spec_bytes()
}

/// Append `bytes` to `out`.
fn push_bytes(out: &mut Vec<u8>, bytes: &[u8])
    ensures
        final(out)@ == old(out)@ + bytes@,
{
    let mut i: usize = 0;
    while i < bytes.len()
        invariant
            i <= bytes@.len(),
            out@ == old(out)@ + bytes@.take(i as int),
        decreases bytes@.len() - i,
    {
        out.push(bytes[i]);
        proof {
            assert(out@ =~= old(out)@ + bytes@.take(i as int + 1));
        }
        i = i + 1;
    }
    proof {
        assert(bytes@.take(bytes@.len() as int) =~= bytes@);
    }
}

/// The lowercase hex digit for `n`, for `n < 16`.
fn hex_digit(n: u8) -> (r: u8)
    requires
        n < 16,
    ensures
        r == hex_byte(n),
{
    if n < 10 {
        0x30 + n
    } else {
        0x61 + (n - 10)
    }
}

/// Append the escaped form of `bytes`.
fn push_escaped(out: &mut Vec<u8>, bytes: &[u8])
    ensures
        final(out)@ == old(out)@ + escaped(bytes@),
{
    let mut i: usize = 0;
    while i < bytes.len()
        invariant
            i <= bytes@.len(),
            out@ == old(out)@ + escaped(bytes@.take(i as int)),
        decreases bytes@.len() - i,
    {
        let b = bytes[i];
        if b == 0x22 {
            out.push(0x5c);
            out.push(0x22);
        } else if b == 0x5c {
            out.push(0x5c);
            out.push(0x5c);
        } else if b < 0x20 {
            out.push(0x5c);
            out.push(0x75);
            out.push(0x30);
            out.push(0x30);
            out.push(hex_digit(b / 16));
            out.push(hex_digit(b % 16));
        } else {
            out.push(b);
        }
        proof {
            assert(bytes@.take(i as int + 1).drop_last() =~= bytes@.take(i as int));
            assert(bytes@.take(i as int + 1).last() == b);
            assert(out@ =~= old(out)@ + escaped(bytes@.take(i as int + 1)));
        }
        i = i + 1;
    }
    proof {
        assert(bytes@.take(bytes@.len() as int) =~= bytes@);
    }
}

/// Append a JSON string literal holding `s`.
fn push_quoted(out: &mut Vec<u8>, s: &str)
    ensures
        final(out)@ == old(out)@ + quoted(utf8(s@)),
{
    out.push(0x22);
    push_escaped(out, s.as_bytes());
    out.push(0x22);
    proof {
        assert(out@ =~= old(out)@ + quoted(utf8(s@)));
    }
}

/// Encode the discovery datagram for `d`, with the announcement flag
/// forced to `announce`.
pub fn encode_announcement(d: &DeviceResponse, announce: bool) -> (r: Vec<u8>)
    ensures
        r@ == announcement_bytes(d@, announce),
{
    let mut out: Vec<u8> = Vec::new();
    push_bytes(&mut out, "{\"alias\":".as_bytes());
    push_quoted(&mut out, d.device_info.alias.as_str());
    push_bytes(&mut out, ",\"deviceType\":".as_bytes());
    push_quoted(&mut out, d.device_info.device_type.as_str());
    push_bytes(&mut out, ",\"deviceModel\":".as_bytes());
    match &d.device_info.device_model {
        Some(m) => push_quoted(&mut out, m.as_str()),
        None => push_bytes(&mut out, "null".as_bytes()),
    }
    push_bytes(&mut out, ",\"announcement\":".as_bytes());
    if announce {
        push_bytes(&mut out, "true".as_bytes());
    } else {
        push_bytes(&mut out, "false".as_bytes());
    }
    push_bytes(&mut out, ",\"fingerprint\":".as_bytes());
    push_quoted(&mut out, d.fingerprint.as_str());
    push_bytes(&mut out, "}".as_bytes());
    proof {
        assert(out@ =~= announcement_bytes(d@, announce));
    }
    out
}

} // verus!
