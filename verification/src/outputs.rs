//! The Public Output Record: the pair (exit code, cycle count) committed by
//! the guest, and its positional wire form.
//!
//! The wire contract is positional: byte 0 is the 8-bit signed exit code,
//! bytes 1..9 are the 64-bit unsigned cycle count in little-endian order.
//! Consumers must read the exit code before the cycle count; reading at the
//! wrong position yields unrelated values.

use vstd::bytes::lemma_auto_spec_u64_to_from_le_bytes;
use vstd::bytes::spec_u64_from_le_bytes;
use vstd::bytes::spec_u64_to_le_bytes_to_open;
use vstd::bytes::spec_u64_to_le_bytes;
use vstd::bytes::u64_from_le_bytes;
use vstd::bytes::u64_to_le_bytes;
use vstd::prelude::*;
use vstd::slice::slice_subrange;

verus! {

/// The number of bytes of a full record: one exit-code byte, eight cycle
/// bytes.
pub const RECORD_WIDTH: usize = 9;

/// The record committed by one guest run: the inner machine's exit code
/// (only 0 means success) and its accumulated cycle count.
#[derive(Clone, Copy, Debug, PartialEq, Eq, Structural)]
pub struct PublicOutputRecord {
    pub exit_code: i8,
    pub cycle_count: u64,
}

/// Decoding failures of the public-output stream.
#[derive(Clone, Copy, Debug, PartialEq, Eq, Structural)]
pub enum DecodeError {
    /// The stream is shorter than the value read from it.
    Truncated,
}

/// The wire form of a record: the exit code byte (two's complement) followed
/// by the cycle count in little-endian order. The order of the two values is
/// part of the contract with every consumer.
pub open spec fn record_bytes(exit_code: i8, cycle_count: u64) -> Seq<u8> {
    seq![exit_code as u8] + spec_u64_to_le_bytes(cycle_count)
}

/// What decoding a public-output stream yields: the exit code from byte 0,
/// then the cycle count from bytes 1..9; nothing if the stream is shorter
/// than a full record. Bytes past the record are ignored, as the stream is
/// read positionally.
pub open spec fn spec_decode_record(bytes: Seq<u8>) -> Option<PublicOutputRecord> {
    if bytes.len() >= RECORD_WIDTH {
        Some(
            PublicOutputRecord {
                exit_code: bytes[0] as i8,
                cycle_count: spec_u64_from_le_bytes(bytes.subrange(1, 9)),
            },
        )
    } else {
        None
    }
}

/// Encodes a record into its wire form: exit code first, then cycle count.
pub fn encode_record(rec: &PublicOutputRecord) -> (out: Vec<u8>)
    ensures
        out@ == record_bytes(rec.exit_code, rec.cycle_count),
        out@.len() == RECORD_WIDTH,
{
    let mut out: Vec<u8> = Vec::new();
    out.push(#[verifier::truncate] (rec.exit_code as u8));
    let mut tail = u64_to_le_bytes(rec.cycle_count);
    out.append(&mut tail);
    proof {
        assert(out@ =~= record_bytes(rec.exit_code, rec.cycle_count));
    }
    out
}

/// Reads the 8-bit signed value at a position of the stream; fails exactly
/// when the position is outside the stream.
pub fn read_i8_at(bytes: &Vec<u8>, pos: usize) -> (r: Result<i8, DecodeError>)
    ensures
        r.is_ok() <==> pos < bytes@.len(),
        r matches Ok(v) ==> v == bytes@[pos as int] as i8,
{
    if pos < bytes.len() {
        Ok(#[verifier::truncate] (bytes[pos] as i8))
    } else {
        Err(DecodeError::Truncated)
    }
}

/// Reads the 64-bit unsigned little-endian value at a position of the
/// stream; fails exactly when fewer than eight bytes remain there.
pub fn read_u64_le_at(bytes: &Vec<u8>, pos: usize) -> (r: Result<u64, DecodeError>)
    ensures
        r.is_ok() <==> pos + 8 <= bytes@.len(),
        r matches Ok(v) ==> v == spec_u64_from_le_bytes(bytes@.subrange(pos as int, pos as int + 8)),
{
    if pos <= bytes.len() && bytes.len() - pos >= 8 {
        let window = slice_subrange(bytes.as_slice(), pos, pos + 8);
        Ok(u64_from_le_bytes(window))
    } else {
        Err(DecodeError::Truncated)
    }
}

/// Decodes a public-output stream positionally: the exit code is read first,
/// from byte 0, then the cycle count from bytes 1..9. Fails exactly when the
/// stream holds less than a full record.
pub fn decode_record(bytes: &Vec<u8>) -> (r: Result<PublicOutputRecord, DecodeError>)
    ensures
        r.is_ok() <==> bytes@.len() >= RECORD_WIDTH,
        r matches Ok(rec) ==> spec_decode_record(bytes@) == Some(rec),
{
    let exit_code = match read_i8_at(bytes, 0) {
        Ok(v) => v,
        Err(e) => {
            return Err(e);
        },
    };
    let cycle_count = match read_u64_le_at(bytes, 1) {
        Ok(v) => v,
        Err(e) => {
            return Err(e);
        },
    };
    Ok(PublicOutputRecord { exit_code, cycle_count })
}

/// Commit ordering, mis-read: a consumer that reads the cycle count first
/// folds the exit-code byte into the count's low byte, and the one byte
/// left over for the exit code is the count's high byte — every read after
/// the first is shifted. The mis-read count differs from the committed one
/// whenever the exit-code byte differs from the count's low byte (when the
/// two bytes coincide the numbers can collide, which is why the order is a
/// wire contract and not a recoverable detail).
pub proof fn lemma_swapped_read_is_garbled(exit_code: i8, cycle_count: u64)
    ensures
        record_bytes(exit_code, cycle_count)[8] == ((cycle_count >> 56) & 0xff) as u8,
        exit_code as u8 != cycle_count as u8 ==> spec_u64_from_le_bytes(
            record_bytes(exit_code, cycle_count).subrange(0, 8),
        ) != cycle_count,
{
    lemma_auto_spec_u64_to_from_le_bytes();
    spec_u64_to_le_bytes_to_open(cycle_count);
    let enc = record_bytes(exit_code, cycle_count);
    assert(enc[8] == spec_u64_to_le_bytes(cycle_count)[7]);
    let s = enc.subrange(0, 8);
    assert(s.len() == 8);
    assert(s[0] == exit_code as u8);
    let x = spec_u64_from_le_bytes(s);
    assert(spec_u64_to_le_bytes(spec_u64_from_le_bytes(s)) == s);
    spec_u64_to_le_bytes_to_open(x);
    assert((x & 0xff) as u8 == exit_code as u8);
    let c = cycle_count;
    assert((c & 0xff) as u8 == c as u8) by (bit_vector);
}

/// Commit ordering, round trip: a record encoded as exit code then cycle
/// count decodes to the same record, the exit code coming from byte 0 and
/// the cycle count from the eight bytes after it.
pub proof fn lemma_record_round_trip(rec: PublicOutputRecord)
    ensures
        spec_decode_record(record_bytes(rec.exit_code, rec.cycle_count)) == Some(rec),
{
    lemma_auto_spec_u64_to_from_le_bytes();
    let enc = record_bytes(rec.exit_code, rec.cycle_count);
    assert(enc.subrange(1, 9) =~= spec_u64_to_le_bytes(rec.cycle_count));
    assert(enc[0] == rec.exit_code as u8);
    let e = rec.exit_code;
    assert((e as u8) as i8 == e) by (bit_vector);
}

} // verus!
