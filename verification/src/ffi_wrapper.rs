//! What goes into and comes out of the call that sets a socket's receive buffer.
//!
//! The call itself is the operating system's and is made by the caller. A small
//! receive buffer keeps what a client can send unread at a minimum.

use vstd::prelude::*;

verus! {

/// The size, in bytes, that the receive buffer of an accepted socket is set to.
pub const SIZE_IN_BYTES: usize = 1;

/// What `setsockopt` returns when it has failed.
pub const SETSOCKOPT_FAILED: i32 = -1;

/// The value to hand to `setsockopt` for a receive buffer of `size_in_bytes`
/// bytes, if it can take that size.
pub fn receive_buffer_value(size_in_bytes: usize) -> (value: Option<i32>)
    ensures
        value is Some <==> size_in_bytes <= i32::MAX,
        value is Some ==> value->Some_0 == size_in_bytes,
{
    if size_in_bytes <= 0x7fff_ffff {
        Some(size_in_bytes as i32)
    } else {
        None
    }
}

/// What the attempt to set the receive buffer came to, given what `setsockopt`
/// returned and the error code that the operating system had for the thread
/// right after: that error if the call failed, and nothing to report otherwise.
pub fn receive_buffer_result(returned: i32, last_os_error: i32) -> (result: Result<(), i32>)
    ensures
        returned == SETSOCKOPT_FAILED ==> result == Err::<(), i32>(last_os_error),
        returned != SETSOCKOPT_FAILED ==> result == Ok::<(), i32>(()),
{
    if returned == SETSOCKOPT_FAILED {
        Err(last_os_error)
    } else {
        Ok(())
    }
}

} // verus!
