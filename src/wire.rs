//! Little-endian layout of handles as the host reads and writes them.

use crate::Handle;
use byteorder::ByteOrder;
use vstd::bytes::{spec_u64_from_le_bytes, spec_u64_to_le_bytes};
use vstd::prelude::*;

verus! {

/// `b` is the contiguous little-endian encoding of the handles `hs`.
pub open spec fn encodes_handles(b: Seq<u8>, hs: Seq<Handle>) -> bool {
    &&& b.len() == 8 * hs.len()
    &&& forall|i: int|
        0 <= i < hs.len() ==> #[trigger] b.subrange(8 * i, 8 * i + 8) == spec_u64_to_le_bytes(hs[i])
}

/// `hs` are the handles read, eight little-endian bytes each, from the start of `b`.
pub open spec fn decodes_handles(b: Seq<u8>, hs: Seq<Handle>) -> bool {
    &&& 8 * hs.len() <= b.len()
    &&& forall|i: int|
        0 <= i < hs.len() ==> #[trigger] hs[i] == spec_u64_from_le_bytes(b.subrange(8 * i, 8 * i + 8))
}

/// Relies on byteorder's `LittleEndian::write_u64`: the eight bytes of `n`,
/// least significant first.
#[verifier::external_body]
fn le_bytes_of(n: u64) -> (r: [u8; 8])
    ensures
        r@ == spec_u64_to_le_bytes(n),
{
    let mut buf = [0u8; 8];
    byteorder::LittleEndian::write_u64(&mut buf, n);
    buf
}

/// Relies on byteorder's `LittleEndian::read_u64`: the number whose
/// little-endian bytes are the first eight of `b`.
#[verifier::external_body]
fn u64_from_le(b: &[u8]) -> (r: u64)
    requires
        b@.len() >= 8,
    ensures
        r == spec_u64_from_le_bytes(b@.subrange(0, 8)),
{
    byteorder::LittleEndian::read_u64(b)
}

/// Append the little-endian bytes of `n` to `out`.
pub fn push_handle(out: &mut Vec<u8>, n: Handle)
    ensures
        final(out)@ == old(out)@ + spec_u64_to_le_bytes(n),
{
    let bytes = le_bytes_of(n);
    proof {
        vstd::bytes::lemma_auto_spec_u64_to_from_le_bytes();
    }
    let mut k: usize = 0;
    while k < 8
        invariant
            k <= 8,
            bytes@ == spec_u64_to_le_bytes(n),
            bytes@.len() == 8,
            out@ == old(out)@ + bytes@.subrange(0, k as int),
        decreases 8 - k,
    {
        out.push(bytes[k]);
        k = k + 1;
        assert(out@ =~= old(out)@ + bytes@.subrange(0, k as int));
    }
    assert(bytes@.subrange(0, 8) =~= bytes@);
}

/// Read the handle stored little-endian at `b[start..start + 8]`.
pub fn handle_at(b: &Vec<u8>, start: usize) -> (r: Handle)
    requires
        start + 8 <= b@.len(),
    ensures
        r == spec_u64_from_le_bytes(b@.subrange(start as int, start + 8)),
{
    let len = b.len();
    let mut part: Vec<u8> = Vec::new();
    let mut k: usize = 0;
    while k < 8
        invariant
            k <= 8,
            start + 8 <= b@.len(),
            len == b@.len(),
            part@ == b@.subrange(start as int, start + k),
        decreases 8 - k,
    {
        part.push(b[start + k]);
        k = k + 1;
        assert(part@ =~= b@.subrange(start as int, start + k));
    }
    let r = u64_from_le(part.as_slice());
    assert(part@.subrange(0, 8) =~= part@);
    r
}

/// The handles `hs`, eight little-endian bytes each, one after another.
pub fn encode_handles(hs: &[Handle]) -> (r: Vec<u8>)
    ensures
        encodes_handles(r@, hs@),
{
    let mut out: Vec<u8> = Vec::new();
    let mut i: usize = 0;
    while i < hs.len()
        invariant
            i <= hs@.len(),
            encodes_handles(out@, hs@.subrange(0, i as int)),
        decreases hs@.len() - i,
    {
        let ghost prev = out@;
        push_handle(&mut out, hs[i]);
        proof {
            vstd::bytes::lemma_auto_spec_u64_to_from_le_bytes();
            let done = hs@.subrange(0, i + 1);
            assert forall|j: int| 0 <= j < done.len() implies
                #[trigger] out@.subrange(8 * j, 8 * j + 8) == spec_u64_to_le_bytes(done[j]) by {
                if j < i {
                    assert(out@.subrange(8 * j, 8 * j + 8) =~= prev.subrange(8 * j, 8 * j + 8));
                    assert(hs@.subrange(0, i as int)[j] == done[j]);
                } else {
                    assert(out@.subrange(8 * j, 8 * j + 8) =~= spec_u64_to_le_bytes(hs[j as int]));
                }
            }
        }
        i = i + 1;
    }
    assert(hs@.subrange(0, hs@.len() as int) =~= hs@);
    out
}

/// The first `count` handles stored little-endian in `b`.
pub fn decode_handles(b: &Vec<u8>, count: usize) -> (r: Vec<Handle>)
    requires
        8 * count <= b@.len(),
    ensures
        r@.len() == count,
        decodes_handles(b@, r@),
{
    let len = b.len();
    let mut out: Vec<Handle> = Vec::new();
    let mut i: usize = 0;
    while i < count
        invariant
            i <= count,
            len == b@.len(),
            8 * count <= b@.len(),
            out@.len() == i,
            decodes_handles(b@, out@),
        decreases count - i,
    {
        assert(8 * i + 8 <= 8 * count) by (nonlinear_arith)
            requires
                i < count,
        ;
        let h = handle_at(b, 8 * i);
        out.push(h);
        i = i + 1;
    }
    out
}

/// Handles written with `encode_handles` read back as the same handles, in order.
pub proof fn lemma_handles_round_trip(b: Seq<u8>, hs: Seq<Handle>, back: Seq<Handle>)
    requires
        encodes_handles(b, hs),
        back.len() == hs.len(),
        decodes_handles(b, back),
    ensures
        back == hs,
{
    vstd::bytes::lemma_auto_spec_u64_to_from_le_bytes();
    assert forall|i: int| 0 <= i < hs.len() implies back[i] == hs[i] by {
        assert(b.subrange(8 * i, 8 * i + 8) == spec_u64_to_le_bytes(hs[i]));
    }
    assert(back =~= hs);
}

} // verus!
