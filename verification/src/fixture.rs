//! The verified core of the fixture emitter: decoding the comparison
//! guest's ABI-encoded public values and rendering the hex-string fields of
//! the JSON artifact consumed by on-chain verification. Writing the file
//! itself, and the JSON framing, stay outside the library.

use crate::hexcodec::hex_bytes;
use crate::hexcodec::to_hex_lower;
use vstd::prelude::*;

verus! {

/// The proof systems for which a fixture can be produced.
#[derive(Clone, Copy, Debug, PartialEq, Eq, Structural)]
pub enum ProofSystem {
    Plonk,
    Groth16,
}

/// Failures of fixture assembly.
#[derive(Clone, Copy, Debug, PartialEq, Eq, Structural)]
pub enum FixtureError {
    /// The public values are not three zero-padded 32-byte ABI words.
    MalformedPublicValues,
}

/// The triple committed by the comparison guest, in its on-chain layout:
/// three 32-byte ABI words, in field order n, a, b.
#[derive(Clone, Copy, Debug, PartialEq, Eq, Structural)]
pub struct CommittedValues {
    pub n: u32,
    pub a: u32,
    pub b: u32,
}

/// Whether all three ABI words carry only zeros before their four value
/// bytes.
pub open spec fn abi_padding_ok(bytes: Seq<u8>) -> bool {
    forall|i: int| 0 <= i < 96 && i % 32 < 28 ==> bytes[i] == 0
}

/// The 32-bit value of the ABI word at index `k`: its last four bytes,
/// big-endian.
pub open spec fn abi_word_value(bytes: Seq<u8>, k: int) -> int {
    bytes[32 * k + 28] * 0x1000000 + bytes[32 * k + 29] * 0x10000 + bytes[32 * k + 30] * 0x100
        + bytes[32 * k + 31]
}

/// Decodes the guest's committed triple from its ABI wire form: exactly
/// three 32-byte words, each a zero-padded big-endian 32-bit value, in
/// field order n, a, b. Fails exactly when the length or the padding is
/// wrong.
pub fn decode_committed_values(bytes: &Vec<u8>) -> (r: Result<CommittedValues, FixtureError>)
    ensures
        r.is_ok() <==> (bytes@.len() == 96 && abi_padding_ok(bytes@)),
        r matches Ok(v) ==> v.n == abi_word_value(bytes@, 0) && v.a == abi_word_value(bytes@, 1)
            && v.b == abi_word_value(bytes@, 2),
{
    if bytes.len() != 96 {
        return Err(FixtureError::MalformedPublicValues);
    }
    let mut i: usize = 0;
    while i < 96
        invariant
            i <= 96,
            bytes@.len() == 96,
            forall|j: int| 0 <= j < i && j % 32 < 28 ==> bytes@[j] == 0,
        decreases 96 - i,
    {
        if i % 32 < 28 && bytes[i] != 0 {
            return Err(FixtureError::MalformedPublicValues);
        }
        i = i + 1;
    }
    let n = word_value(bytes, 0);
    let a = word_value(bytes, 1);
    let b = word_value(bytes, 2);
    Ok(CommittedValues { n, a, b })
}

/// Reads the big-endian 32-bit value of one ABI word.
fn word_value(bytes: &Vec<u8>, k: usize) -> (v: u32)
    requires
        k < 3,
        bytes@.len() == 96,
    ensures
        v == abi_word_value(bytes@, k as int),
{
    let base = 32 * k;
    (bytes[base + 28] as u32) * 0x1000000 + (bytes[base + 29] as u32) * 0x10000 + (bytes[base + 30]
        as u32) * 0x100 + (bytes[base + 31] as u32)
}

/// One proof fixture: the committed triple and the three hex-string
/// fields. Every hex field is lower case and carries a `0x` prefix.
pub struct ProofFixture {
    pub n: u32,
    pub a: u32,
    pub b: u32,
    pub vkey: Vec<u8>,
    pub public_values: Vec<u8>,
    pub proof: Vec<u8>,
}

/// The 0x-prefixed lower-case hex rendering of a byte string.
pub open spec fn hex_field(data: Seq<u8>) -> Seq<u8> {
    seq![48u8, 120u8] + hex_bytes(data)
}

/// Renders a byte string as a 0x-prefixed lower-case hex field.
pub fn render_hex_field(data: &Vec<u8>) -> (out: Vec<u8>)
    ensures
        out@ == hex_field(data@),
{
    let mut out: Vec<u8> = Vec::new();
    out.push(48);
    out.push(120);
    let mut tail = to_hex_lower(data);
    out.append(&mut tail);
    proof {
        assert(out@ =~= hex_field(data@));
    }
    out
}

/// Assembles the fixture for a completed proof: decodes the committed
/// triple from the public values and renders the hex fields. The verifying
/// key arrives already rendered by the prover and passes through
/// unchanged. Fails exactly when the public values are malformed.
pub fn build_fixture(public_values: &Vec<u8>, proof: &Vec<u8>, vkey: Vec<u8>) -> (r: Result<
    ProofFixture,
    FixtureError,
>)
    ensures
        r.is_ok() <==> (public_values@.len() == 96 && abi_padding_ok(public_values@)),
        r matches Ok(f) ==> f.n == abi_word_value(public_values@, 0) && f.a == abi_word_value(
            public_values@,
            1,
        ) && f.b == abi_word_value(public_values@, 2),
        r matches Ok(f) ==> f.public_values@ == hex_field(public_values@) && f.proof@ == hex_field(
            proof@,
        ) && f.vkey@ == vkey@,
{
    let values = match decode_committed_values(public_values) {
        Ok(v) => v,
        Err(e) => {
            return Err(e);
        },
    };
    Ok(
        ProofFixture {
            n: values.n,
            a: values.a,
            b: values.b,
            vkey,
            public_values: render_hex_field(public_values),
            proof: render_hex_field(proof),
        },
    )
}

/// The file name of a fixture: the proof system's name in lower case,
/// then `-fixture.json`.
pub fn fixture_file_name(system: ProofSystem) -> (name: &'static str)
    ensures
        system is Plonk ==> name@ == "plonk-fixture.json"@,
        system is Groth16 ==> name@ == "groth16-fixture.json"@,
{
    match system {
        ProofSystem::Plonk => "plonk-fixture.json",
        ProofSystem::Groth16 => "groth16-fixture.json",
    }
}

} // verus!
