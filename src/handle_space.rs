//! The buffer by which the host reports which of a set of handles are ready.
//!
//! Each entry is the handle's eight little-endian bytes followed by one ready
//! byte; entries keep the order of the handles they were built from.

use crate::status::{spec_code_result, result_from_code, OakError};
use crate::wire::push_handle;
use crate::Handle;
use vstd::bytes::spec_u64_to_le_bytes;
use vstd::prelude::*;

verus! {

/// Bytes taken by one entry of a handle space.
pub const SPACE_BYTES_PER_HANDLE: usize = 9;

/// The bytes of entry `i` that hold its handle.
pub open spec fn entry_handle_bytes(space: Seq<u8>, i: int) -> Seq<u8> {
    space.subrange(9 * i, 9 * i + 8)
}

/// The ready byte of entry `i`.
pub open spec fn ready_byte(space: Seq<u8>, i: int) -> u8 {
    space[9 * i + 8]
}

/// `space` has one entry per handle of `hs`, in order, holding the handle and
/// a cleared ready byte.
pub open spec fn is_fresh_space(space: Seq<u8>, hs: Seq<Handle>) -> bool {
    &&& space.len() == 9 * hs.len()
    &&& forall|i: int|
        0 <= i < hs.len() ==> {
            &&& #[trigger] entry_handle_bytes(space, i) == spec_u64_to_le_bytes(hs[i])
            &&& ready_byte(space, i) == 0
        }
}

/// The handles among the first `n` of `hs` whose ready byte in `space` is set,
/// in their order.
pub open spec fn ready_prefix(hs: Seq<Handle>, space: Seq<u8>, n: nat) -> Seq<Handle>
    decreases n,
{
    if n == 0 {
        Seq::empty()
    } else {
        let rest = ready_prefix(hs, space, (n - 1) as nat);
        if ready_byte(space, n - 1) != 0 {
            rest.push(hs[n - 1])
        } else {
            rest
        }
    }
}

/// The handles of `hs` whose ready byte in `space` is set, in their order.
pub open spec fn ready_in(hs: Seq<Handle>, space: Seq<u8>) -> Seq<Handle> {
    ready_prefix(hs, space, hs.len())
}

/// What a wait on `hs` gives once the host has answered `code` and left `space`.
pub open spec fn spec_wait_result(hs: Seq<Handle>, code: i32, space: Seq<u8>) -> Result<Seq<Handle>, OakError> {
    if spec_code_result(code) is Err {
        Err(spec_code_result(code)->Err_0)
    } else if space.len() != 9 * hs.len() || ready_in(hs, space).len() == 0 {
        Err(OakError::Internal)
    } else {
        Ok(ready_in(hs, space))
    }
}

/// The mathematical value of a list of handles, or of the failure in its place.
pub open spec fn handles_result_view(r: Result<Vec<Handle>, OakError>) -> Result<Seq<Handle>, OakError> {
    match r {
        Ok(v) => Ok(v@),
        Err(e) => Err(e),
    }
}

/// Build a handle space for `handles`: one entry each, in order, ready bytes clear.
pub fn new_handle_space(handles: &[Handle]) -> (space: Vec<u8>)
    ensures
        is_fresh_space(space@, handles@),
{
    let mut space: Vec<u8> = Vec::new();
    let mut i: usize = 0;
    while i < handles.len()
        invariant
            i <= handles@.len(),
            is_fresh_space(space@, handles@.subrange(0, i as int)),
        decreases handles@.len() - i,
    {
        let ghost prev = space@;
        push_handle(&mut space, handles[i]);
        space.push(0u8);
        proof {
            vstd::bytes::lemma_auto_spec_u64_to_from_le_bytes();
            let done = handles@.subrange(0, i + 1);
            assert forall|j: int| 0 <= j < done.len() implies {
                &&& #[trigger] entry_handle_bytes(space@, j) == spec_u64_to_le_bytes(done[j])
                &&& ready_byte(space@, j) == 0
            } by {
                if j < i {
                    assert(entry_handle_bytes(space@, j) =~= entry_handle_bytes(prev, j));
                    assert(ready_byte(prev, j) == 0);
                    assert(handles@.subrange(0, i as int)[j] == done[j]);
                } else {
                    assert(entry_handle_bytes(space@, j) =~= spec_u64_to_le_bytes(handles[j]));
                }
            }
        }
        i = i + 1;
    }
    assert(handles@.subrange(0, handles@.len() as int) =~= handles@);
    space
}

/// Clear the ready byte of every entry of `space`, leaving the handle bytes as they are.
pub fn prep_handle_space(space: &mut Vec<u8>)
    ensures
        final(space)@.len() == old(space)@.len(),
        forall|j: int|
            0 <= j < old(space)@.len() ==> #[trigger] final(space)@[j] == if j % 9 == 8 {
                0u8
            } else {
                old(space)@[j]
            },
{
    let len = space.len();
    let count = len / SPACE_BYTES_PER_HANDLE;
    let mut i: usize = 0;
    while i < count
        invariant
            len == old(space)@.len(),
            count == len / 9,
            i <= count,
            space@.len() == old(space)@.len(),
            forall|j: int|
                0 <= j < old(space)@.len() ==> #[trigger] space@[j] == if j % 9 == 8 && j < 9 * i {
                    0u8
                } else {
                    old(space)@[j]
                },
        decreases count - i,
    {
        assert(9 * i + 8 < len) by (nonlinear_arith)
            requires
                i < count,
                count == len / 9,
        ;
        space.set(i * SPACE_BYTES_PER_HANDLE + (SPACE_BYTES_PER_HANDLE - 1), 0);
        i = i + 1;
    }
    assert forall|j: int| 0 <= j < len && #[trigger] (j % 9) == 8 implies j < 9 * count by {
        assert(j < 9 * count) by (nonlinear_arith)
            requires
                0 <= j < len,
                j % 9 == 8,
                count == len / 9,
        ;
    }
}

/// The handles of `handles` whose ready byte in `space` is set, in input order.
pub fn ready_handles(handles: &[Handle], space: &Vec<u8>) -> (r: Vec<Handle>)
    requires
        space@.len() == 9 * handles@.len(),
    ensures
        r@ == ready_in(handles@, space@),
{
    let len = space.len();
    let mut results: Vec<Handle> = Vec::new();
    let mut i: usize = 0;
    while i < handles.len()
        invariant
            len == space@.len(),
            i <= handles@.len(),
            space@.len() == 9 * handles@.len(),
            results@ == ready_prefix(handles@, space@, i as nat),
        decreases handles@.len() - i,
    {
        assert(9 * i + 8 < space@.len()) by (nonlinear_arith)
            requires
                i < handles@.len(),
                space@.len() == 9 * handles@.len(),
        ;
        if space[i * SPACE_BYTES_PER_HANDLE + (SPACE_BYTES_PER_HANDLE - 1)] != 0 {
            results.push(handles[i]);
        }
        i = i + 1;
    }
    results
}

/// Interpret the host's answer to a wait on `handles`: the status `code` and the
/// handle space as the host left it.
pub fn wait_result(handles: &[Handle], code: i32, space: &Vec<u8>) -> (r: Result<Vec<Handle>, OakError>)
    ensures
        handles_result_view(r) == spec_wait_result(handles@, code, space@),
{
    match result_from_code(code) {
        Err(e) => Err(e),
        Ok(()) => {
            if space.len() / SPACE_BYTES_PER_HANDLE != handles.len() || space.len() % SPACE_BYTES_PER_HANDLE != 0 {
                Err(OakError::Internal)
            } else {
                let ready = ready_handles(handles, space);
                if ready.len() == 0 {
                    Err(OakError::Internal)
                } else {
                    Ok(ready)
                }
            }
        },
    }
}

} // verus!
