//! Send and receive halves of channels, and the operations built on the host.

use crate::handle_space::{handles_result_view, new_handle_space, spec_wait_result, wait_result};
use crate::host::Host;
use crate::status::{spec_code_result, spec_status_from_i32, error_of, result_from_code, OakError, OakStatus};
use crate::wire::{decode_handles, decodes_handles, encode_handles, encodes_handles, lemma_handles_round_trip};
use crate::Handle;
use vstd::prelude::*;

verus! {

/// Relies on `Vec::capacity`: the number of elements the vector can hold without
/// reallocating, never less than its length.
#[verifier::external_body]
fn vec_capacity<T>(v: &Vec<T>) -> (r: usize)
    ensures
        r >= v@.len(),
{
    v.capacity()
}

/// The status `s`, with an unknown one taken as the unspecified status.
pub open spec fn status_or_unspecified(s: Option<OakStatus>) -> OakStatus {
    match s {
        Some(s) => s,
        None => OakStatus::Unspecified,
    }
}

/// Wait until at least one of `handles` is ready for reading, and return those
/// that are, in their order in `handles`.
pub fn wait_on_channels<H: Host>(host: &mut H, handles: &[Handle]) -> (r: Result<Vec<Handle>, OakError>)
    requires
        handles@.len() <= u32::MAX,
    ensures
        exists|code: i32, space: Seq<u8>|
            handles_result_view(r) == #[trigger] spec_wait_result(handles@, code, space),
{
    let mut space = new_handle_space(handles);
    let code = host.wait_on_channels(&mut space, handles.len() as u32);
    wait_result(handles, code, &space)
}

/// Create a new channel; on success gives its write and read handles, in that order.
pub fn channel_create<H: Host>(host: &mut H) -> (r: Result<(Handle, Handle), OakError>)
{
    let (code, write, read) = host.channel_create();
    create_outcome(code, write, read)
}

/// What creating a channel gives once the host has answered `code` with the
/// handles `write` and `read`: the pair, write half first, or the mapped failure.
pub fn create_outcome(code: i32, write: Handle, read: Handle) -> (r: Result<(Handle, Handle), OakError>)
    ensures
        r == match spec_code_result(code) {
            Ok(_) => Ok::<(Handle, Handle), OakError>((write, read)),
            Err(e) => Err(e),
        },
{
    match result_from_code(code) {
        Ok(()) => Ok((write, read)),
        Err(e) => Err(e),
    }
}

/// Close `handle`, giving the status the host reported; an unknown code is
/// the unspecified status.
pub fn channel_close<H: Host>(host: &mut H, handle: Handle) -> (r: OakStatus)
{
    let code = host.channel_close(handle);
    close_outcome(code)
}

/// The status that closing gives once the host has answered `code`: the status
/// of that code, or the unspecified status for an unknown one.
pub fn close_outcome(code: i32) -> (r: OakStatus)
    ensures
        r == status_or_unspecified(spec_status_from_i32(code)),
{
    match OakStatus::from_i32(code) {
        Some(s) => s,
        None => OakStatus::Unspecified,
    }
}

/// The handle of the well-known channel called `port_name`.
pub fn channel_find<H: Host>(host: &mut H, port_name: &str) -> (r: Handle) {
    host.channel_find(port_name)
}

/// What a stream write of `len` bytes gives once its message was `sent`: all
/// `len` bytes on success, the send's own failure otherwise.
pub fn write_outcome(sent: Result<(), OakError>, len: usize) -> (r: Result<usize, OakError>)
    ensures
        r == match sent {
            Ok(()) => Ok::<usize, OakError>(len),
            Err(e) => Err(e),
        },
{
    match sent {
        Ok(()) => Ok(len),
        Err(e) => Err(e),
    }
}

/// The send half of a channel.
pub struct SendChannelHalf {
    handle: Handle,
}

impl SendChannelHalf {
    pub closed spec fn view_handle(&self) -> Handle {
        self.handle
    }

    pub fn new(handle: Handle) -> (r: SendChannelHalf)
        ensures
            r.view_handle() == handle,
    {
        SendChannelHalf { handle }
    }

    /// The handle this half sends on.
    pub fn handle(&self) -> (r: Handle)
        ensures
            r == self.view_handle(),
    {
        self.handle
    }

    /// Send one message: the payload `buf` with the handles `handles` attached.
    pub fn write_message<H: Host>(&mut self, host: &mut H, buf: &[u8], handles: &[Handle]) -> (r: Result<(), OakError>)
        ensures
            final(self).view_handle() == old(self).view_handle(),
    {
        let encoded = encode_handles(handles);
        let code = host.channel_write(self.handle, buf, encoded.as_slice());
        result_from_code(code)
    }

    /// Send `buf` as one message with no handles; on success gives the number of
    /// bytes written, all of them.
    pub fn write<H: Host>(&mut self, host: &mut H, buf: &[u8]) -> (r: Result<usize, OakError>)
        ensures
            final(self).view_handle() == old(self).view_handle(),
            r matches Ok(n) ==> n == buf@.len(),
    {
        let none: Vec<Handle> = Vec::new();
        let sent = self.write_message(host, buf, none.as_slice());
        write_outcome(sent, buf.len())
    }

    /// Nothing is buffered, so flushing does nothing.
    pub fn flush(&mut self) -> (r: Result<(), OakError>)
        ensures
            r is Ok,
            *final(self) == *old(self),
    {
        Ok(())
    }
}

/// What to do after one attempt to read a message.
#[derive(Clone, Copy, Debug, PartialEq, Eq, Structural)]
pub enum ReadStep {
    /// A whole message arrived.
    Done,
    /// The buffer was too small: try once more with room for this many bytes.
    Retry(usize),
    /// The read failed.
    Fail(OakError),
}

/// The step that follows an attempt that got the status `code`, the sizes
/// `actual_size` and `actual_count`, and `data_len` bytes and `handle_bytes_len`
/// handle bytes. `requested` is `None` on the first attempt, and on the retry
/// the size that the first attempt asked for: a retry that delivers any other
/// size is an internal error.
pub open spec fn spec_read_step(
    requested: Option<usize>,
    code: i32,
    actual_size: u32,
    actual_count: u32,
    data_len: nat,
    handle_bytes_len: nat,
) -> ReadStep {
    match spec_status_from_i32(code) {
        Some(OakStatus::Success) => if requested matches Some(n) && actual_size != n {
            ReadStep::Fail(OakError::Internal)
        } else if actual_size <= data_len && 8 * actual_count <= handle_bytes_len {
            ReadStep::Done
        } else {
            ReadStep::Fail(OakError::Internal)
        },
        Some(OakStatus::ErrBufferTooSmall) => if requested is Some {
            ReadStep::Fail(OakError::Internal)
        } else {
            ReadStep::Retry(actual_size as usize)
        },
        Some(s) => ReadStep::Fail(error_of(s)),
        None => ReadStep::Fail(OakError::Unspecified),
    }
}

/// Decide what follows one read attempt (see [`spec_read_step`]).
pub fn read_step(
    requested: Option<usize>,
    code: i32,
    actual_size: u32,
    actual_count: u32,
    data_len: usize,
    handle_bytes_len: usize,
) -> (r: ReadStep)
    ensures
        r == spec_read_step(requested, code, actual_size, actual_count, data_len as nat, handle_bytes_len as nat),
{
    match OakStatus::from_i32(code) {
        Some(OakStatus::Success) => {
            let wrong_size = match requested {
                Some(n) => actual_size as usize != n,
                None => false,
            };
            if wrong_size {
                ReadStep::Fail(OakError::Internal)
            } else if (actual_size as usize) <= data_len && (actual_count as u64) * 8 <= handle_bytes_len as u64 {
                ReadStep::Done
            } else {
                ReadStep::Fail(OakError::Internal)
            }
        },
        Some(OakStatus::ErrBufferTooSmall) => {
            if requested.is_some() {
                ReadStep::Fail(OakError::Internal)
            } else {
                ReadStep::Retry(actual_size as usize)
            }
        },
        Some(_) => match result_from_code(code) {
            Err(e) => ReadStep::Fail(e),
            Ok(()) => ReadStep::Fail(OakError::Unspecified),
        },
        None => ReadStep::Fail(OakError::Unspecified),
    }
}

/// The message in what a successful read delivered: the first `actual_size`
/// bytes of `data`, and the first `actual_count` handles encoded in `handle_bytes`.
pub open spec fn delivered_message(
    data: Seq<u8>,
    handle_bytes: Seq<u8>,
    actual_size: nat,
    actual_count: nat,
    payload: Seq<u8>,
    handles: Seq<Handle>,
) -> bool {
    &&& payload == data.take(actual_size as int)
    &&& handles.len() == actual_count
    &&& decodes_handles(handle_bytes, handles)
}

/// Take the message out of what a successful read delivered.
pub fn accept_message(data: Vec<u8>, handle_bytes: &Vec<u8>, actual_size: usize, actual_count: usize) -> (r: (
    Vec<u8>,
    Vec<Handle>,
))
    requires
        actual_size <= data@.len(),
        8 * actual_count <= handle_bytes@.len(),
    ensures
        delivered_message(data@, handle_bytes@, actual_size as nat, actual_count as nat, r.0@, r.1@),
{
    let mut payload = data;
    payload.truncate(actual_size);
    let handles = decode_handles(handle_bytes, actual_count);
    (payload, handles)
}

/// A message delivered whole reads back as exactly what was sent: the payload
/// `p` and, from their little-endian layout, the handles `hs` in their order.
pub proof fn lemma_message_round_trip(p: Seq<u8>, hs: Seq<Handle>, handle_bytes: Seq<u8>, payload: Seq<u8>, handles: Seq<Handle>)
    requires
        encodes_handles(handle_bytes, hs),
        delivered_message(p, handle_bytes, p.len(), hs.len(), payload, handles),
    ensures
        payload == p,
        handles == hs,
{
    lemma_handles_round_trip(handle_bytes, hs, handles);
    assert(p.take(p.len() as int) =~= p);
}

/// The receive half of a channel.
pub struct ReceiveChannelHalf {
    handle: Handle,
}

impl ReceiveChannelHalf {
    pub closed spec fn view_handle(&self) -> Handle {
        self.handle
    }

    pub fn new(handle: Handle) -> (r: ReceiveChannelHalf)
        ensures
            r.view_handle() == handle,
    {
        ReceiveChannelHalf { handle }
    }

    /// The handle this half receives on.
    pub fn handle(&self) -> (r: Handle)
        ensures
            r == self.view_handle(),
    {
        self.handle
    }

    /// Receive exactly one message into `buf` and `handles`, replacing what they
    /// held. The first attempt offers the vectors' current capacities; when the
    /// host reports the buffer too small, one more attempt offers the size it
    /// asked for, and must then deliver a message of exactly that size. On
    /// failure both vectors are left as they were.
    pub fn read_message<H: Host>(&mut self, host: &mut H, buf: &mut Vec<u8>, handles: &mut Vec<Handle>) -> (r: Result<(), OakError>)
        ensures
            final(self).view_handle() == old(self).view_handle(),
            r is Err ==> final(buf)@ == old(buf)@ && final(handles)@ == old(handles)@,
    {
        let handle_capacity = vec_capacity(handles);
        let mut capacity = vec_capacity(buf);
        let mut requested: Option<usize> = None;
        let mut attempt: usize = 0;
        while attempt < 2
            invariant
                attempt <= 2,
                requested is Some <==> attempt > 0,
                self.view_handle() == old(self).view_handle(),
                buf@ == old(buf)@,
                handles@ == old(handles)@,
            decreases 2 - attempt,
        {
            let mut data: Vec<u8> = Vec::new();
            let mut handle_bytes: Vec<u8> = Vec::new();
            let (code, actual_size, actual_count) = host.channel_read(
                self.handle,
                &mut data,
                capacity,
                &mut handle_bytes,
                handle_capacity,
            );
            match read_step(requested, code, actual_size, actual_count, data.len(), handle_bytes.len()) {
                ReadStep::Done => {
                    let (payload, received) = accept_message(
                        data,
                        &handle_bytes,
                        actual_size as usize,
                        actual_count as usize,
                    );
                    *buf = payload;
                    *handles = received;
                    return Ok(());
                },
                ReadStep::Retry(n) => {
                    capacity = n;
                    requested = Some(n);
                },
                ReadStep::Fail(e) => {
                    return Err(e);
                },
            }
            attempt = attempt + 1;
        }
        Err(OakError::Internal)
    }
}

/// Send `request` as one message with no handles on `send`, then receive exactly
/// one response message on `receive` and give its payload. A failed send is
/// reported without reading.
pub fn exchange<H: Host>(
    host: &mut H,
    send: &mut SendChannelHalf,
    receive: &mut ReceiveChannelHalf,
    request: &[u8],
) -> (r: Result<Vec<u8>, OakError>)
    ensures
        final(send).view_handle() == old(send).view_handle(),
        final(receive).view_handle() == old(receive).view_handle(),
{
    let none: Vec<Handle> = Vec::new();
    match send.write_message(host, request, none.as_slice()) {
        Err(e) => Err(e),
        Ok(()) => {
            let mut response: Vec<u8> = Vec::new();
            let mut attached: Vec<Handle> = Vec::new();
            match receive.read_message(host, &mut response, &mut attached) {
                Err(e) => Err(e),
                Ok(()) => Ok(response),
            }
        },
    }
}

} // verus!
