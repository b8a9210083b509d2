//! Fixed-width fields: how integers, booleans and 32-byte values sit in a
//! buffer, and the functions that read them from its front or append them to
//! its end.
use vstd::prelude::*;
use crate::error::LendingError;
use crate::pubkey::Pubkey;

verus! {

/// The 16-bit number that the two bytes at `at` spell, low byte first.
pub open spec fn u16_at(bytes: Seq<u8>, at: int) -> u16 {
    (bytes[at] + 0x100 * bytes[at + 1]) as u16
}

/// The 64-bit number that the eight bytes at `at` spell, low byte first.
pub open spec fn u64_at(bytes: Seq<u8>, at: int) -> u64 {
    (bytes[at] + 0x100 * bytes[at + 1] + 0x1_0000 * bytes[at + 2] + 0x100_0000 * bytes[at + 3]
        + 0x1_0000_0000 * bytes[at + 4] + 0x100_0000_0000 * bytes[at + 5] + 0x1_0000_0000_0000
        * bytes[at + 6] + 0x100_0000_0000_0000 * bytes[at + 7]) as u64
}

/// The two bytes of a 16-bit number, low byte first.
pub open spec fn u16_bytes(value: u16) -> Seq<u8> {
    seq![(value % 0x100) as u8, (value / 0x100) as u8]
}

/// The eight bytes of a 64-bit number, low byte first.
pub open spec fn u64_bytes(value: u64) -> Seq<u8> {
    seq![
        (value % 0x100) as u8,
        (value / 0x100 % 0x100) as u8,
        (value / 0x1_0000 % 0x100) as u8,
        (value / 0x100_0000 % 0x100) as u8,
        (value / 0x1_0000_0000 % 0x100) as u8,
        (value / 0x100_0000_0000 % 0x100) as u8,
        (value / 0x1_0000_0000_0000 % 0x100) as u8,
        (value / 0x100_0000_0000_0000) as u8,
    ]
}

/// The byte that stands for a boolean: 1 for true, 0 for false.
pub open spec fn bool_byte(value: bool) -> u8 {
    if value {
        1
    } else {
        0
    }
}

/// Reading back the bytes of a 16-bit number gives the number.
pub proof fn lemma_u16_value_round_trip(value: u16)
    ensures
        u16_bytes(value).len() == 2,
        u16_at(u16_bytes(value), 0) == value,
{
}

/// Writing out the number that two bytes spell gives the two bytes.
pub proof fn lemma_u16_bytes_round_trip(bytes: Seq<u8>, at: int)
    requires
        0 <= at,
        at + 2 <= bytes.len(),
    ensures
        u16_bytes(u16_at(bytes, at)) == bytes.subrange(at, at + 2),
{
    assert(u16_bytes(u16_at(bytes, at)) =~= bytes.subrange(at, at + 2));
}

/// Reading back the bytes of a 64-bit number gives the number.
pub proof fn lemma_u64_value_round_trip(value: u64)
    ensures
        u64_bytes(value).len() == 8,
        u64_at(u64_bytes(value), 0) == value,
{
    assert(value % 0x100 + 0x100 * (value / 0x100 % 0x100) + 0x1_0000 * (value / 0x1_0000 % 0x100)
        + 0x100_0000 * (value / 0x100_0000 % 0x100) + 0x1_0000_0000 * (value / 0x1_0000_0000
        % 0x100) + 0x100_0000_0000 * (value / 0x100_0000_0000 % 0x100) + 0x1_0000_0000_0000 * (
    value / 0x1_0000_0000_0000 % 0x100) + 0x100_0000_0000_0000 * (value / 0x100_0000_0000_0000)
        == value) by (bit_vector);
}

/// Writing out the number that eight bytes spell gives the eight bytes.
pub proof fn lemma_u64_bytes_round_trip(bytes: Seq<u8>, at: int)
    requires
        0 <= at,
        at + 8 <= bytes.len(),
    ensures
        u64_bytes(u64_at(bytes, at)) == bytes.subrange(at, at + 8),
{
    let b0 = bytes[at];
    let b1 = bytes[at + 1];
    let b2 = bytes[at + 2];
    let b3 = bytes[at + 3];
    let b4 = bytes[at + 4];
    let b5 = bytes[at + 5];
    let b6 = bytes[at + 6];
    let b7 = bytes[at + 7];
    let value = u64_at(bytes, at);
    assert(value == b0 + 0x100 * b1 + 0x1_0000 * b2 + 0x100_0000 * b3 + 0x1_0000_0000 * b4
        + 0x100_0000_0000 * b5 + 0x1_0000_0000_0000 * b6 + 0x100_0000_0000_0000 * b7);
    assert(value == b0 + 0x100 * b1 + 0x1_0000 * b2 + 0x100_0000 * b3 + 0x1_0000_0000 * b4
        + 0x100_0000_0000 * b5 + 0x1_0000_0000_0000 * b6 + 0x100_0000_0000_0000 * b7 ==> {
        &&& value % 0x100 == b0
        &&& value / 0x100 % 0x100 == b1
        &&& value / 0x1_0000 % 0x100 == b2
        &&& value / 0x100_0000 % 0x100 == b3
        &&& value / 0x1_0000_0000 % 0x100 == b4
        &&& value / 0x100_0000_0000 % 0x100 == b5
        &&& value / 0x1_0000_0000_0000 % 0x100 == b6
        &&& value / 0x100_0000_0000_0000 == b7
    }) by (bit_vector);
    assert(u64_bytes(value) =~= bytes.subrange(at, at + 8));
}

/// Splits one byte off the front of `input`.
pub fn unpack_u8(input: &[u8]) -> (r: Result<(u8, &[u8]), LendingError>)
    ensures
        match r {
            Ok((value, rest)) => input@.len() >= 1 && value == input@[0] && rest@ == input@.skip(1),
            Err(e) => input@.len() < 1 && e == LendingError::TruncatedInput,
        },
{
    if input.len() < 1 {
        return Err(LendingError::TruncatedInput);
    }
    let (head, rest) = input.split_at(1);
    Ok((head[0], rest))
}

/// Splits a little-endian 16-bit number off the front of `input`.
pub fn unpack_u16(input: &[u8]) -> (r: Result<(u16, &[u8]), LendingError>)
    ensures
        match r {
            Ok((value, rest)) => input@.len() >= 2 && value == u16_at(input@, 0) && rest@
                == input@.skip(2),
            Err(e) => input@.len() < 2 && e == LendingError::TruncatedInput,
        },
{
    if input.len() < 2 {
        return Err(LendingError::TruncatedInput);
    }
    let (head, rest) = input.split_at(2);
    let value: u16 = head[0] as u16 + 0x100 * (head[1] as u16);
    Ok((value, rest))
}

/// Splits a little-endian 64-bit number off the front of `input`.
pub fn unpack_u64(input: &[u8]) -> (r: Result<(u64, &[u8]), LendingError>)
    ensures
        match r {
            Ok((value, rest)) => input@.len() >= 8 && value == u64_at(input@, 0) && rest@
                == input@.skip(8),
            Err(e) => input@.len() < 8 && e == LendingError::TruncatedInput,
        },
{
    if input.len() < 8 {
        return Err(LendingError::TruncatedInput);
    }
    let (head, rest) = input.split_at(8);
    let low: u64 = head[0] as u64 + 0x100 * (head[1] as u64) + 0x1_0000 * (head[2] as u64)
        + 0x100_0000 * (head[3] as u64);
    let high: u64 = head[4] as u64 + 0x100 * (head[5] as u64) + 0x1_0000 * (head[6] as u64)
        + 0x100_0000 * (head[7] as u64);
    Ok((low + 0x1_0000_0000 * high, rest))
}

/// Splits a boolean off the front of `input`: the byte 1 is true, the byte 0
/// is false, and any other byte is refused.
pub fn unpack_bool(input: &[u8]) -> (r: Result<(bool, &[u8]), LendingError>)
    ensures
        match r {
            Ok((value, rest)) => input@.len() >= 1 && input@[0] == bool_byte(value) && rest@
                == input@.skip(1),
            Err(e) => if input@.len() < 1 {
                e == LendingError::TruncatedInput
            } else {
                input@[0] > 1 && e == LendingError::InvalidFieldEncoding
            },
        },
{
    if input.len() < 1 {
        return Err(LendingError::TruncatedInput);
    }
    let (head, rest) = input.split_at(1);
    if head[0] == 0 {
        Ok((false, rest))
    } else if head[0] == 1 {
        Ok((true, rest))
    } else {
        Err(LendingError::InvalidFieldEncoding)
    }
}

/// Splits 32 raw bytes off the front of `input`.
pub fn unpack_bytes32(input: &[u8]) -> (r: Result<([u8; 32], &[u8]), LendingError>)
    ensures
        match r {
            Ok((value, rest)) => input@.len() >= 32 && value@ == input@.subrange(0, 32) && rest@
                == input@.skip(32),
            Err(e) => input@.len() < 32 && e == LendingError::TruncatedInput,
        },
{
    if input.len() < 32 {
        return Err(LendingError::TruncatedInput);
    }
    let (head, rest) = input.split_at(32);
    let mut value = [0u8; 32];
    let mut i: usize = 0;
    while i < 32
        invariant
            i <= 32,
            head@.len() == 32,
            forall|j: int| 0 <= j < i ==> value@[j] == head@[j],
        decreases 32 - i,
    {
        value[i] = head[i];
        i += 1;
    }
    assert(value@ =~= input@.subrange(0, 32));
    Ok((value, rest))
}

/// Splits a 32-byte identity off the front of `input`.
pub fn unpack_pubkey(input: &[u8]) -> (r: Result<(Pubkey, &[u8]), LendingError>)
    ensures
        match r {
            Ok((key, rest)) => input@.len() >= 32 && key@ == input@.subrange(0, 32) && rest@
                == input@.skip(32),
            Err(e) => input@.len() < 32 && e == LendingError::TruncatedInput,
        },
{
    match unpack_bytes32(input) {
        Ok((bytes, rest)) => Ok((Pubkey::new_from_array(bytes), rest)),
        Err(e) => Err(e),
    }
}

/// Appends one byte to `buf`.
pub fn pack_u8(value: u8, buf: &mut Vec<u8>)
    ensures
        final(buf)@ == old(buf)@.push(value),
{
    buf.push(value);
}

/// Appends the two bytes of `value` to `buf`, low byte first.
pub fn pack_u16(value: u16, buf: &mut Vec<u8>)
    ensures
        final(buf)@ == old(buf)@ + u16_bytes(value),
{
    buf.push((value % 0x100) as u8);
    buf.push((value / 0x100) as u8);
    assert(buf@ =~= old(buf)@ + u16_bytes(value));
}

/// Appends the eight bytes of `value` to `buf`, low byte first.
pub fn pack_u64(value: u64, buf: &mut Vec<u8>)
    ensures
        final(buf)@ == old(buf)@ + u64_bytes(value),
{
    buf.push((value % 0x100) as u8);
    buf.push((value / 0x100 % 0x100) as u8);
    buf.push((value / 0x1_0000 % 0x100) as u8);
    buf.push((value / 0x100_0000 % 0x100) as u8);
    buf.push((value / 0x1_0000_0000 % 0x100) as u8);
    buf.push((value / 0x100_0000_0000 % 0x100) as u8);
    buf.push((value / 0x1_0000_0000_0000 % 0x100) as u8);
    buf.push((value / 0x100_0000_0000_0000) as u8);
    assert(buf@ =~= old(buf)@ + u64_bytes(value));
}

/// Appends the byte of a boolean to `buf`: 1 for true, 0 for false.
pub fn pack_bool(value: bool, buf: &mut Vec<u8>)
    ensures
        final(buf)@ == old(buf)@.push(bool_byte(value)),
{
    if value {
        buf.push(1);
    } else {
        buf.push(0);
    }
}

/// Appends 32 raw bytes to `buf`.
pub fn pack_bytes32(value: &[u8; 32], buf: &mut Vec<u8>)
    ensures
        final(buf)@ == old(buf)@ + value@,
{
    let mut i: usize = 0;
    while i < 32
        invariant
            i <= 32,
            buf@ == old(buf)@ + value@.subrange(0, i as int),
        decreases 32 - i,
    {
        buf.push(value[i]);
        i += 1;
        assert(buf@ =~= old(buf)@ + value@.subrange(0, i as int));
    }
    assert(value@.subrange(0, 32) =~= value@);
}

/// Appends the 32 bytes of an identity to `buf`.
pub fn pack_pubkey(key: &Pubkey, buf: &mut Vec<u8>)
    ensures
        final(buf)@ == old(buf)@ + key@,
{
    pack_bytes32(&key.0, buf);
}

} // verus!
