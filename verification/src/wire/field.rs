//! Field keys, field writers and the skipping of fields nobody asked for.

use crate::wire::varint::{
    lemma_varint_encoding_len, lemma_varint_parse_bounds, put_varint, take_varint,
    varint_decoding, varint_encoding,
};
use vstd::prelude::*;
use vstd::slice::slice_subrange;

verus! {

/// How the value that follows a field key is laid out.
#[derive(Clone, Copy, Debug, PartialEq, Eq, Structural)]
pub enum WireType {
    Varint,
    SixtyFourBit,
    LengthDelimited,
    StartGroup,
    EndGroup,
    ThirtyTwoBit,
}

/// Smallest field number a key may carry.
pub const MIN_FIELD_NUMBER: u32 = 1;

/// Largest field number a key may carry: 2^29 - 1.
pub const MAX_FIELD_NUMBER: u32 = 0x1fff_ffff;

impl WireType {
    /// The three-bit code of the wire type inside a key.
    pub open spec fn code(self) -> nat {
        match self {
            WireType::Varint => 0,
            WireType::SixtyFourBit => 1,
            WireType::LengthDelimited => 2,
            WireType::StartGroup => 3,
            WireType::EndGroup => 4,
            WireType::ThirtyTwoBit => 5,
        }
    }

    /// The wire type with the given code, if there is one.
    pub open spec fn of_code(code: nat) -> Option<WireType> {
        if code == 0 {
            Some(WireType::Varint)
        } else if code == 1 {
            Some(WireType::SixtyFourBit)
        } else if code == 2 {
            Some(WireType::LengthDelimited)
        } else if code == 3 {
            Some(WireType::StartGroup)
        } else if code == 4 {
            Some(WireType::EndGroup)
        } else if code == 5 {
            Some(WireType::ThirtyTwoBit)
        } else {
            None
        }
    }

    pub fn to_code(self) -> (code: u32)
        ensures
            code == self.code(),
    {
        match self {
            WireType::Varint => 0,
            WireType::SixtyFourBit => 1,
            WireType::LengthDelimited => 2,
            WireType::StartGroup => 3,
            WireType::EndGroup => 4,
            WireType::ThirtyTwoBit => 5,
        }
    }

    pub fn from_code(code: u64) -> (wire: Option<WireType>)
        ensures
            wire == WireType::of_code(code as nat),
    {
        if code == 0 {
            Some(WireType::Varint)
        } else if code == 1 {
            Some(WireType::SixtyFourBit)
        } else if code == 2 {
            Some(WireType::LengthDelimited)
        } else if code == 3 {
            Some(WireType::StartGroup)
        } else if code == 4 {
            Some(WireType::EndGroup)
        } else if code == 5 {
            Some(WireType::ThirtyTwoBit)
        } else {
            None
        }
    }
}

/// The key that announces field `number` with the given wire type.
pub open spec fn field_key(number: u32, wire: WireType) -> u64 {
    (number * 8 + wire.code()) as u64
}

/// Bytes of a key.
pub open spec fn key_encoding(number: u32, wire: WireType) -> Seq<u8> {
    varint_encoding(field_key(number, wire))
}

/// The key at the front of `s`: field number, wire type and length in bytes.
/// A key must fit in 32 bits, name one of the six wire types and a field
/// number of at least one.
pub open spec fn key_decoding(s: Seq<u8>) -> Option<(u32, WireType, nat)> {
    match varint_decoding(s) {
        None => None,
        Some((key, used)) => {
            if key > u32::MAX {
                None
            } else {
                match WireType::of_code(key % 8) {
                    None => None,
                    Some(wire) => {
                        if key / 8 < 1 {
                            None
                        } else {
                            Some(((key / 8) as u32, wire, used))
                        }
                    },
                }
            }
        },
    }
}

/// A length-delimited value at the front of `s`: its content and the bytes
/// that the length prefix and the content take together.
pub open spec fn delimited_decoding(s: Seq<u8>) -> Option<(Seq<u8>, nat)> {
    match varint_decoding(s) {
        None => None,
        Some((len, used)) => {
            if len <= s.len() - used {
                Some((s.subrange(used as int, (used + len) as int), used + len))
            } else {
                None
            }
        },
    }
}

/// A varint field: key, then the value.
pub open spec fn varint_field(number: u32, value: u64) -> Seq<u8> {
    key_encoding(number, WireType::Varint) + varint_encoding(value)
}

/// A length-delimited field: key, length, content.
pub open spec fn delimited_field(number: u32, content: Seq<u8>) -> Seq<u8> {
    key_encoding(number, WireType::LengthDelimited) + varint_encoding(content.len() as u64)
        + content
}

/// Bytes that `prost::encoding::skip_field` passes over when it skips a group
/// opened by field `number` whose content starts at the front of `s`, or
/// `None` where it reports an error.
pub uninterp spec fn group_skip_len(number: u32, s: Seq<u8>) -> Option<nat>;

/// Number of bytes that the value of a field takes, given the key that was
/// just read. Groups are measured by `group_skip_len`; a closing key without
/// an opening one is an error.
pub open spec fn field_skip_len(wire: WireType, number: u32, s: Seq<u8>) -> Option<nat> {
    match wire {
        WireType::Varint => match varint_decoding(s) {
            Some((_, used)) => Some(used),
            None => None,
        },
        WireType::ThirtyTwoBit => if s.len() >= 4 {
            Some(4)
        } else {
            None
        },
        WireType::SixtyFourBit => if s.len() >= 8 {
            Some(8)
        } else {
            None
        },
        WireType::LengthDelimited => match delimited_decoding(s) {
            Some((_, used)) => Some(used),
            None => None,
        },
        WireType::StartGroup => group_skip_len(number, s),
        WireType::EndGroup => None,
    }
}

/// Whether `s` is a sequence of complete fields, whatever their numbers.
pub open spec fn fields_well_formed(s: Seq<u8>) -> bool
    decreases s.len(),
{
    if s.len() == 0 {
        true
    } else {
        match key_decoding(s) {
            None => false,
            Some((number, wire, used)) => match field_skip_len(
                wire,
                number,
                s.skip(used as int),
            ) {
                None => false,
                Some(len) => 0 < used + len <= s.len() && fields_well_formed(
                    s.skip((used + len) as int),
                ),
            },
        }
    }
}

/// Calls `prost::encoding::skip_field` on a byte slice, with a fresh decode
/// context. Trusted: the call succeeds exactly where `field_skip_len` is
/// defined and has then consumed that many bytes; the result is the number of
/// bytes left over. For a group the length is whatever the call consumed.
#[verifier::external_body]
pub(crate) fn skip_value(wire: WireType, number: u32, input: &[u8]) -> (r: Result<
    usize,
    prost::DecodeError,
>)
    ensures
        r is Ok <==> field_skip_len(wire, number, input@) is Some,
        r matches Ok(left) ==> left <= input@.len() && field_skip_len(wire, number, input@)
            == Some((input@.len() - left) as nat),
        wire is StartGroup ==> (r is Ok <==> group_skip_len(number, input@) is Some),
{
    let wire_type = match wire {
        WireType::Varint => prost::encoding::WireType::Varint,
        WireType::SixtyFourBit => prost::encoding::WireType::SixtyFourBit,
        WireType::LengthDelimited => prost::encoding::WireType::LengthDelimited,
        WireType::StartGroup => prost::encoding::WireType::StartGroup,
        WireType::EndGroup => prost::encoding::WireType::EndGroup,
        WireType::ThirtyTwoBit => prost::encoding::WireType::ThirtyTwoBit,
    };
    let mut rest: &[u8] = input;
    match prost::encoding::skip_field(wire_type, number, &mut rest, Default::default()) {
        Ok(()) => Ok(rest.len()),
        Err(e) => Err(e),
    }
}

/// Appends the key of field `number`.
pub fn put_key(number: u32, wire: WireType, out: &mut Vec<u8>)
    requires
        number <= MAX_FIELD_NUMBER,
    ensures
        final(out)@ == old(out)@ + key_encoding(number, wire),
{
    let key: u32 = number * 8 + wire.to_code();
    put_varint(key as u64, out);
}

/// Appends a varint field.
pub fn put_varint_field(number: u32, value: u64, out: &mut Vec<u8>)
    requires
        number <= MAX_FIELD_NUMBER,
    ensures
        final(out)@ == old(out)@ + varint_field(number, value),
{
    put_key(number, WireType::Varint, out);
    put_varint(value, out);
    assert(out@ =~= old(out)@ + varint_field(number, value));
}

/// Appends a length-delimited field holding `content`.
pub fn put_delimited_field(number: u32, content: &[u8], out: &mut Vec<u8>)
    requires
        number <= MAX_FIELD_NUMBER,
    ensures
        final(out)@ == old(out)@ + delimited_field(number, content@),
{
    put_key(number, WireType::LengthDelimited, out);
    put_varint(content.len() as u64, out);
    let ghost before = out@;
    out.extend_from_slice(content);
    assert(out@ =~= before + content@);
    assert(out@ =~= old(out)@ + delimited_field(number, content@));
}

/// Reads the key at the front of `input`. On success the third component is
/// the number of bytes left after the key.
pub fn take_key(input: &[u8]) -> (r: Option<(u32, WireType, usize)>)
    ensures
        r is Some <==> key_decoding(input@) is Some,
        r matches Some((number, wire, left)) ==> left < input@.len() && key_decoding(input@)
            == Some((number, wire, (input@.len() - left) as nat)),
{
    match take_varint(input) {
        Err(_) => None,
        Ok((key, left)) => {
            proof {
                lemma_varint_parse_bounds(input@, 0);
            }
            if key > 0xffff_ffff {
                None
            } else {
                match WireType::from_code(key % 8) {
                    None => None,
                    Some(wire) => {
                        let number: u32 = (key / 8) as u32;
                        if number < MIN_FIELD_NUMBER {
                            None
                        } else {
                            Some((number, wire, left))
                        }
                    },
                }
            }
        },
    }
}

/// Reads a length-delimited value at the front of `input`. On success yields
/// where the content starts and ends inside `input`.
pub fn take_delimited(input: &[u8]) -> (r: Option<(usize, usize)>)
    ensures
        r is Some <==> delimited_decoding(input@) is Some,
        r matches Some((from, to)) ==> from <= to <= input@.len() && delimited_decoding(input@)
            == Some((input@.subrange(from as int, to as int), to as nat)),
{
    match take_varint(input) {
        Err(_) => None,
        Ok((len, left)) => {
            proof {
                lemma_varint_parse_bounds(input@, 0);
            }
            if len > left as u64 {
                None
            } else {
                let from: usize = input.len() - left;
                let to: usize = from + len as usize;
                Some((from, to))
            }
        },
    }
}

/// Decides whether `input` is a sequence of complete fields.
pub fn check_fields(input: &[u8]) -> (ok: bool)
    ensures
        ok == fields_well_formed(input@),
{
    let mut at: usize = 0;
    assert(input@.skip(0) =~= input@);
    while at < input.len()
        invariant
            at <= input@.len(),
            fields_well_formed(input@) == fields_well_formed(input@.skip(at as int)),
        decreases input@.len() - at,
    {
        let rest = slice_subrange(input, at, input.len());
        assert(rest@ =~= input@.skip(at as int));
        match take_key(rest) {
            None => {
                return false;
            },
            Some((number, wire, left)) => {
                let value = slice_subrange(rest, rest.len() - left, rest.len());
                assert(value@ =~= rest@.skip(rest@.len() - left));
                match skip_value(wire, number, value) {
                    Err(_) => {
                        return false;
                    },
                    Ok(after) => {
                        let next: usize = input.len() - after;
                        assert(input@.skip(next as int) =~= rest@.skip(rest@.len() - after));
                        at = next;
                    },
                }
            },
        }
    }
    assert(input@.skip(at as int).len() == 0);
    true
}

/// A key that was written is read back, whatever follows it.
pub proof fn lemma_key_roundtrip(number: u32, wire: WireType, tail: Seq<u8>)
    requires
        MIN_FIELD_NUMBER <= number <= MAX_FIELD_NUMBER,
    ensures
        key_decoding(key_encoding(number, wire) + tail) == Some(
            (number, wire, key_encoding(number, wire).len()),
        ),
{
    crate::wire::varint::lemma_varint_roundtrip(field_key(number, wire), tail);
}

/// A length-delimited value that was written is read back, whatever follows
/// it.
pub proof fn lemma_delimited_roundtrip(content: Seq<u8>, tail: Seq<u8>)
    requires
        content.len() <= u64::MAX,
    ensures
        delimited_decoding(varint_encoding(content.len() as u64) + content + tail) == Some(
            (content, varint_encoding(content.len() as u64).len() + content.len()),
        ),
{
    let prefix = varint_encoding(content.len() as u64);
    let s = prefix + content + tail;
    assert(s =~= prefix + (content + tail));
    crate::wire::varint::lemma_varint_roundtrip(content.len() as u64, content + tail);
    lemma_varint_encoding_len(content.len() as u64);
    assert(s.subrange(prefix.len() as int, (prefix.len() + content.len()) as int) =~= content);
}

} // verus!
