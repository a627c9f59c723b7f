//! Base-128 variable-length integers.

use vstd::prelude::*;

verus! {

/// The bytes of `value` in base-128 form: seven bits per byte, least
/// significant group first, the high bit set on every byte but the last.
pub open spec fn varint_encoding(value: u64) -> Seq<u8>
    decreases value,
{
    if value < 128 {
        seq![value as u8]
    } else {
        seq![(value % 128 + 128) as u8] + varint_encoding(value / 128)
    }
}

/// Reads one varint from the front of `s`, where `depth` bytes of it have
/// already been read. Yields the value of the remaining groups and how many
/// bytes they take. A varint has at most ten bytes, and a tenth byte may only
/// hold the one bit that still fits in 64.
pub open spec fn varint_parse(s: Seq<u8>, depth: nat) -> Option<(nat, nat)>
    decreases s.len(),
{
    if depth >= 10 || s.len() == 0 {
        None
    } else if s[0] < 128 {
        if depth == 9 && s[0] >= 2 {
            None
        } else {
            Some((s[0] as nat, 1nat))
        }
    } else {
        match varint_parse(s.skip(1), depth + 1) {
            Some((high, used)) => Some(((s[0] - 128) as nat + 128 * high, used + 1)),
            None => None,
        }
    }
}

/// The varint at the front of `s`: its value and its length in bytes, or
/// `None` where `s` does not start with a complete, in-range varint.
pub open spec fn varint_decoding(s: Seq<u8>) -> Option<(nat, nat)> {
    varint_parse(s, 0)
}

/// Exclusive bound on the value that the groups from `depth` on may hold.
pub open spec fn varint_limit(depth: nat) -> nat
    decreases 9 - depth,
{
    if depth >= 9 {
        2
    } else {
        128 * varint_limit(depth + 1)
    }
}

/// `prost`'s decoding failure. The library never looks inside it.
#[verifier::external_type_specification]
#[verifier::external_body]
pub struct ExDecodeError(prost::DecodeError);

/// Calls `prost::encoding::encode_varint` on a growable buffer. Trusted: the
/// call appends exactly the base-128 form of `value` and leaves what was
/// already in the buffer alone.
#[verifier::external_body]
pub(crate) fn put_varint(value: u64, out: &mut Vec<u8>)
    ensures
        final(out)@ == old(out)@ + varint_encoding(value),
{
    prost::encoding::encode_varint(value, out);
}

/// Calls `prost::encoding::decode_varint` on a byte slice. Trusted: the call
/// succeeds exactly where `varint_decoding` is defined, returns that value,
/// and has then consumed that many bytes; the second component is the number
/// of bytes left over.
#[verifier::external_body]
pub(crate) fn take_varint(input: &[u8]) -> (r: Result<(u64, usize), prost::DecodeError>)
    ensures
        r is Ok <==> varint_decoding(input@) is Some,
        r matches Ok((value, left)) ==> left <= input@.len() && varint_decoding(input@) == Some(
            (value as nat, (input@.len() - left) as nat),
        ),
{
    let mut rest: &[u8] = input;
    match prost::encoding::decode_varint(&mut rest) {
        Ok(value) => Ok((value, rest.len())),
        Err(e) => Err(e),
    }
}

/// A parsed varint is never empty, never longer than its input, and fits in
/// 64 bits when read from its first byte.
pub proof fn lemma_varint_parse_bounds(s: Seq<u8>, depth: nat)
    requires
        varint_parse(s, depth) is Some,
    ensures
        depth <= 9,
        varint_parse(s, depth) matches Some((value, used)) && 1 <= used <= s.len() && used <= 10
            - depth && value < varint_limit(depth),
    decreases s.len(),
{
    reveal_with_fuel(varint_limit, 2);
    if s[0] < 128 {
        lemma_varint_limit_floor(depth);
    } else {
        lemma_varint_parse_bounds(s.skip(1), depth + 1);
    }
}

/// Every limit is at least two, and the first is 2^64.
pub proof fn lemma_varint_limit_floor(depth: nat)
    ensures
        varint_limit(depth) >= 2,
        depth < 9 ==> varint_limit(depth) >= 128,
    decreases 9 - depth,
{
    if depth < 9 {
        lemma_varint_limit_floor(depth + 1);
    }
}

pub proof fn lemma_varint_limit_zero()
    ensures
        varint_limit(0) == 0x1_0000_0000_0000_0000,
{
    reveal_with_fuel(varint_limit, 11);
}

/// An encoding has between one and ten bytes.
pub proof fn lemma_varint_encoding_len(value: u64)
    ensures
        1 <= varint_encoding(value).len() <= 10,
{
    lemma_varint_limit_zero();
    lemma_varint_encoding_len_at(value, 0);
}

proof fn lemma_varint_encoding_len_at(value: u64, depth: nat)
    requires
        depth <= 9,
        value < varint_limit(depth),
    ensures
        1 <= varint_encoding(value).len() <= 10 - depth,
    decreases value,
{
    if value >= 128 {
        reveal_with_fuel(varint_limit, 2);
        lemma_varint_limit_floor(depth + 1);
        lemma_varint_encoding_len_at(value / 128, depth + 1);
    }
}

/// Decoding undoes encoding, whatever follows the encoded bytes.
pub proof fn lemma_varint_roundtrip(value: u64, tail: Seq<u8>)
    ensures
        varint_decoding(varint_encoding(value) + tail) == Some(
            (value as nat, varint_encoding(value).len()),
        ),
{
    lemma_varint_limit_zero();
    lemma_varint_roundtrip_at(value, tail, 0);
}

proof fn lemma_varint_roundtrip_at(value: u64, tail: Seq<u8>, depth: nat)
    requires
        depth <= 9,
        value < varint_limit(depth),
    ensures
        varint_parse(varint_encoding(value) + tail, depth) == Some(
            (value as nat, varint_encoding(value).len()),
        ),
    decreases value,
{
    let s = varint_encoding(value) + tail;
    reveal_with_fuel(varint_limit, 2);
    if value < 128 {
        assert(s[0] == value as u8);
    } else {
        lemma_varint_limit_floor(depth + 1);
        assert(depth < 9);
        assert(s[0] == (value % 128 + 128) as u8);
        assert(s.skip(1) =~= varint_encoding(value / 128) + tail);
        lemma_varint_roundtrip_at(value / 128, tail, depth + 1);
    }
}

} // verus!
