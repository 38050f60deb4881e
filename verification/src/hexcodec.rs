//! Lower-case hexadecimal rendering of byte strings, used for digests and
//! for the hex-string fields of the proof fixture artifact.

use vstd::prelude::*;

verus! {

/// The ASCII code of the lower-case hexadecimal digit for a nibble.
pub open spec fn hex_digit(nibble: u8) -> u8
    recommends
        nibble < 16,
{
    if nibble < 10 {
        (48 + nibble) as u8
    } else {
        (87 + nibble) as u8
    }
}

/// Lower-case hexadecimal encoding of a byte string: two digits per byte,
/// high nibble first.
pub open spec fn hex_bytes(data: Seq<u8>) -> Seq<u8>
    decreases data.len(),
{
    if data.len() == 0 {
        Seq::empty()
    } else {
        seq![hex_digit(data.first() / 16), hex_digit(data.first() % 16)] + hex_bytes(
            data.drop_first(),
        )
    }
}

/// Renders a byte string as lower-case hexadecimal ASCII.
pub fn to_hex_lower(data: &Vec<u8>) -> (out: Vec<u8>)
    ensures
        out@ == hex_bytes(data@),
        out@.len() == 2 * data@.len(),
{
    let mut out: Vec<u8> = Vec::new();
    let mut i: usize = 0;
    proof {
        assert(data@.skip(0) =~= data@);
    }
    while i < data.len()
        invariant
            i <= data@.len(),
            out@.len() == 2 * i,
            hex_bytes(data@) =~= out@ + hex_bytes(data@.skip(i as int)),
        decreases data@.len() - i,
    {
        let b = data[i];
        let hi = b / 16;
        let lo = b % 16;
        out.push(if hi < 10 { 48 + hi } else { 87 + hi });
        out.push(if lo < 10 { 48 + lo } else { 87 + lo });
        proof {
            assert(data@.skip(i as int).first() == data@[i as int]);
            assert(data@.skip(i as int).drop_first() =~= data@.skip(i as int + 1));
        }
        i = i + 1;
    }
    proof {
        assert(data@.skip(data@.len() as int) =~= Seq::<u8>::empty());
    }
    out
}

} // verus!
