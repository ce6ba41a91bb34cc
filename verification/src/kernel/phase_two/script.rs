//! Scripts as the phase-two views borrow them, and the unwrapping of a
//! Plutus script's CBOR byte string into the flat-encoded program.
use vstd::prelude::*;

use crate::kernel::address::Hash28;
use crate::kernel::primitives::{MemoizedScript, PlutusScript};
use pallas_primitives::alonzo::NativeScript;

verus! {

#[verifier::external_type_specification]
#[verifier::external_body]
pub struct ExCborDecodeError(minicbor::decode::Error);

/// The big-endian value of a sequence of bytes.
pub open spec fn big_endian(bytes: Seq<u8>) -> int
    decreases bytes.len(),
{
    if bytes.len() == 0 {
        0
    } else {
        big_endian(bytes.drop_last()) * 256 + bytes.last()
    }
}

/// The argument of a CBOR head whose additional information is `info`, read
/// from the bytes that follow the initial byte: the value, and how many bytes
/// it takes. `None` where the bytes run out or `info` names no definite length.
pub open spec fn cbor_argument(info: int, rest: Seq<u8>) -> Option<(int, int)> {
    if 0 <= info < 24 {
        Some((info, 0))
    } else if info == 24 && rest.len() >= 1 {
        Some((big_endian(rest.take(1)), 1))
    } else if info == 25 && rest.len() >= 2 {
        Some((big_endian(rest.take(2)), 2))
    } else if info == 26 && rest.len() >= 4 {
        Some((big_endian(rest.take(4)), 4))
    } else if info == 27 && rest.len() >= 8 {
        Some((big_endian(rest.take(8)), 8))
    } else {
        None
    }
}

/// The content of the definite-length CBOR byte string at the start of
/// `cbor`, or `None` where `cbor` does not start with a complete one.
pub open spec fn cbor_bytes_payload(cbor: Seq<u8>) -> Option<Seq<u8>> {
    if cbor.len() == 0 || cbor[0] < 0x40 || cbor[0] > 0x5b {
        None
    } else {
        match cbor_argument(cbor[0] - 0x40, cbor.drop_first()) {
            Some((n, k)) => if 1 + k + n <= cbor.len() {
                Some(cbor.subrange(1 + k, 1 + k + n))
            } else {
                None
            },
            None => None,
        }
    }
}

/// `256` to the power `k`.
pub open spec fn pow256(k: nat) -> nat
    decreases k,
{
    if k == 0 {
        1
    } else {
        256 * pow256((k - 1) as nat)
    }
}

/// The `k` big-endian bytes of `n`.
pub open spec fn be_bytes(n: nat, k: nat) -> Seq<u8>
    decreases k,
{
    if k == 0 {
        Seq::empty()
    } else {
        be_bytes(n / 256, (k - 1) as nat).push((n % 256) as u8)
    }
}

/// The head of a definite-length CBOR byte string of `n` bytes, in its
/// shortest form.
pub open spec fn cbor_bytes_head(n: nat) -> Seq<u8> {
    if n < 24 {
        seq![(0x40 + n) as u8]
    } else if n < 256 {
        seq![0x58u8] + be_bytes(n, 1)
    } else if n < 65536 {
        seq![0x59u8] + be_bytes(n, 2)
    } else if n < 0x1_0000_0000 {
        seq![0x5au8] + be_bytes(n, 4)
    } else {
        seq![0x5bu8] + be_bytes(n, 8)
    }
}

/// The `k` big-endian bytes of a number below `256^k` read back as it.
pub proof fn lemma_big_endian_bytes(n: nat, k: nat)
    requires
        n < pow256(k),
    ensures
        be_bytes(n, k).len() == k,
        big_endian(be_bytes(n, k)) == n,
    decreases k,
{
    if k > 0 {
        let p = pow256((k - 1) as nat);
        assert(n / 256 < p) by (nonlinear_arith)
            requires
                n < 256 * p,
        ;
        lemma_big_endian_bytes(n / 256, (k - 1) as nat);
        let b = be_bytes(n, k);
        assert(b.drop_last() =~= be_bytes(n / 256, (k - 1) as nat));
        assert(b.last() == (n % 256) as u8);
        assert((n / 256) * 256 + n % 256 == n) by (nonlinear_arith);
    }
}

/// A CBOR byte string, in its shortest form, reads back as its content,
/// whatever bytes follow it.
pub proof fn lemma_cbor_bytes_roundtrip(content: Seq<u8>, rest: Seq<u8>)
    requires
        content.len() < pow256(8),
    ensures
        cbor_bytes_payload(cbor_bytes_head(content.len()) + content + rest) == Some(content),
{
    let n = content.len();
    let head = cbor_bytes_head(n);
    let cbor = head + content + rest;
    assert(pow256(1) == 256 && pow256(2) == 65536 && pow256(4) == 0x1_0000_0000) by {
        reveal_with_fuel(pow256, 5);
    }
    let k: nat = if n < 24 {
        0
    } else if n < 256 {
        1
    } else if n < 65536 {
        2
    } else if n < 0x1_0000_0000 {
        4
    } else {
        8
    };
    if k > 0 {
        lemma_big_endian_bytes(n, k);
    }
    assert(head.len() == 1 + k);
    assert(cbor[0] == head[0]);
    let tail = cbor.drop_first();
    assert(tail.take(k as int) =~= head.drop_first());
    if k > 0 {
        assert(head.drop_first() =~= be_bytes(n, k));
        assert(big_endian(tail.take(k as int)) == n);
    }
    let info = cbor[0] - 0x40;
    if n < 24 {
        assert(info == n);
    } else if n < 256 {
        assert(info == 24);
    } else if n < 65536 {
        assert(info == 25);
    } else if n < 0x1_0000_0000 {
        assert(info == 26);
    } else {
        assert(info == 27);
    }
    assert(cbor_argument(info, tail) == Some((n as int, k as int)));
    assert(cbor.subrange(1 + k as int, 1 + k + n as int) =~= content);
}

/// Reads a definite-length CBOR byte string at the start of `cbor` with
/// `minicbor::decode::Decoder::bytes`, and copies its content.
///
/// Trusted: the decoder reads the initial byte, refuses it unless its major
/// type is byte string (`0x40..=0x5f`) with a definite length, reads the
/// length argument (immediate below 24, else 1, 2, 4 or 8 big-endian bytes,
/// refusing the additional information 28 to 31), and takes that many bytes,
/// refusing where the input runs out. Bytes after the string are ignored.
#[verifier::external_body]
fn decode_cbor_bytes(cbor: &[u8]) -> (r: Result<Vec<u8>, minicbor::decode::Error>)
    ensures
        match r {
            Ok(content) => cbor_bytes_payload(cbor@) == Some(content@),
            Err(_) => cbor_bytes_payload(cbor@) is None,
        },
{
    match minicbor::decode::Decoder::new(cbor).bytes() {
        Ok(content) => Ok(content.to_vec()),
        Err(e) => Err(e),
    }
}

/// The BLAKE2b-224 digest of a sequence of bytes.
pub uninterp spec fn blake2b_224(bytes: Seq<u8>) -> Seq<u8>;

/// Hashes bytes behind a one-byte tag with `pallas_crypto::hash::Hasher::<224>::hash_tagged`.
///
/// Trusted, as the source shows: the hasher takes the tag, then the bytes,
/// so the result is the 28-byte BLAKE2b-224 digest of their concatenation.
#[verifier::external_body]
fn blake2b_224_tagged(bytes: &[u8], tag: u8) -> (h: Hash28)
    ensures
        h.0@ == blake2b_224(seq![tag] + bytes@),
{
    crate::kernel::address::Hash(*pallas_crypto::hash::Hasher::<224>::hash_tagged(bytes, tag))
}

/// The CBOR encoding of a native script.
pub uninterp spec fn native_script_cbor(script: NativeScript) -> Seq<u8>;

/// Hashes a native script with `pallas_crypto::hash::Hasher::<224>::hash_tagged_cbor`,
/// behind the tag 0 of native scripts.
///
/// Trusted, as the source shows: the hasher takes the tag, then the script's
/// CBOR encoding (written by its `minicbor::Encode` implementation, a function
/// of the script alone), so the result is the BLAKE2b-224 digest of their
/// concatenation. The encoding itself is left unstated.
#[verifier::external_body]
fn native_script_hash(script: &NativeScript) -> (h: Hash28)
    ensures
        h.0@ == blake2b_224(seq![0u8] + native_script_cbor(*script)),
{
    crate::kernel::address::Hash(*pallas_crypto::hash::Hasher::<224>::hash_tagged_cbor(script, 0))
}

/// A borrowed script: a native script, or a Plutus script whose language
/// version is carried in its type, since execution depends on it.
#[derive(Debug, Clone, Copy)]
pub enum Script<'a> {
    Native(&'a NativeScript),
    PlutusV1(&'a PlutusScript<1>),
    PlutusV2(&'a PlutusScript<2>),
    PlutusV3(&'a PlutusScript<3>),
}

/// The bytes of a Plutus script (the CBOR byte string wrapping its program).
pub open spec fn plutus_script_bytes(s: Script) -> Seq<u8>
    recommends
        !(s is Native),
{
    match s {
        Script::PlutusV1(p) => p.0@,
        Script::PlutusV2(p) => p.0@,
        Script::PlutusV3(p) => p.0@,
        Script::Native(_) => Seq::empty(),
    }
}

impl<'a> Script<'a> {
    /// Unwraps the layer of CBOR around a Plutus script, returning the
    /// flat-encoded bytes that the CEK machine evaluates. No redeemer ever
    /// points to a native script, which has no such bytes.
    pub fn to_bytes(&self) -> (r: Result<Vec<u8>, minicbor::decode::Error>)
        requires
            !(*self is Native),
        ensures
            match r {
                Ok(program) => cbor_bytes_payload(plutus_script_bytes(*self)) == Some(program@),
                Err(_) => cbor_bytes_payload(plutus_script_bytes(*self)) is None,
            },
    {
        match self {
            Script::PlutusV1(s) => decode_cbor_bytes(s.0.as_slice()),
            Script::PlutusV2(s) => decode_cbor_bytes(s.0.as_slice()),
            Script::PlutusV3(s) => decode_cbor_bytes(s.0.as_slice()),
            Script::Native(_) => vstd::pervasive::unreached(),
        }
    }

    /// The hash of the script: the BLAKE2b-224 digest of its language tag
    /// (0 for native scripts, then the Plutus version) followed by its bytes
    /// (for a native script, its CBOR encoding).
    pub fn script_hash(&self) -> (h: Hash28)
        ensures
            match *self {
                Script::PlutusV1(s) => h.0@ == blake2b_224(seq![1u8] + s.0@),
                Script::PlutusV2(s) => h.0@ == blake2b_224(seq![2u8] + s.0@),
                Script::PlutusV3(s) => h.0@ == blake2b_224(seq![3u8] + s.0@),
                Script::Native(n) => h.0@ == blake2b_224(seq![0u8] + native_script_cbor(*n)),
            },
    {
        match self {
            Script::Native(native_script) => native_script_hash(native_script),
            Script::PlutusV1(plutus_script) => blake2b_224_tagged(plutus_script.0.as_slice(), 1),
            Script::PlutusV2(plutus_script) => blake2b_224_tagged(plutus_script.0.as_slice(), 2),
            Script::PlutusV3(plutus_script) => blake2b_224_tagged(plutus_script.0.as_slice(), 3),
        }
    }
}

/// The borrowed view of an owned script: the same kind, pointing into it.
pub open spec fn script_of(value: &MemoizedScript) -> Script<'_> {
    match value {
        MemoizedScript::NativeScript(s) => Script::Native(s),
        MemoizedScript::PlutusV1Script(s) => Script::PlutusV1(s),
        MemoizedScript::PlutusV2Script(s) => Script::PlutusV2(s),
        MemoizedScript::PlutusV3Script(s) => Script::PlutusV3(s),
    }
}

impl<'a> From<&'a MemoizedScript> for Script<'a> {
    fn from(value: &'a MemoizedScript) -> (s: Self) {
        match value {
            MemoizedScript::NativeScript(script) => Script::Native(script),
            MemoizedScript::PlutusV1Script(script) => Script::PlutusV1(script),
            MemoizedScript::PlutusV2Script(script) => Script::PlutusV2(script),
            MemoizedScript::PlutusV3Script(script) => Script::PlutusV3(script),
        }
    }
}

impl<'a> vstd::std_specs::convert::FromSpecImpl<&'a MemoizedScript> for Script<'a> {
    open spec fn obeys_from_spec() -> bool {
        true
    }

    open spec fn from_spec(v: &'a MemoizedScript) -> Script<'a> {
        script_of(v)
    }
}

} // verus!
