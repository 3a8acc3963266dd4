//! The host boundary: the six operations that the host offers a node.

use crate::Handle;
use vstd::prelude::*;

verus! {

/// Operations of the host that runs the node. Each reports a raw status code
/// (see [`crate::status::OakStatus`]); the channel layer interprets it.
pub trait Host {
    /// Block until at least one entry of the handle space `space` (of `count`
    /// entries) is ready, setting the ready byte of each ready entry.
    fn wait_on_channels(&mut self, space: &mut Vec<u8>, count: u32) -> i32;

    /// Create a channel; gives the status, the write handle and the read handle.
    fn channel_create(&mut self) -> (i32, Handle, Handle);

    /// Close `handle`.
    fn channel_close(&mut self, handle: Handle) -> i32;

    /// The handle of the well-known channel called `port_name`.
    fn channel_find(&mut self, port_name: &str) -> Handle;

    /// Send one message on `handle`: the payload `buf` and the attached handles,
    /// eight little-endian bytes each, in `handles`.
    fn channel_write(&mut self, handle: Handle, buf: &[u8], handles: &[u8]) -> i32;

    /// Receive one message on `handle`, offering room for `capacity` bytes and
    /// `handle_capacity` handles. On success the host appends the payload to `buf`
    /// and the attached handles, eight little-endian bytes each, to `handles`.
    /// Gives the status, the message's size in bytes and its number of handles;
    /// when the room offered is too small, the size is the one required.
    fn channel_read(
        &mut self,
        handle: Handle,
        buf: &mut Vec<u8>,
        capacity: usize,
        handles: &mut Vec<u8>,
        handle_capacity: usize,
    ) -> (i32, u32, u32);
}

} // verus!
