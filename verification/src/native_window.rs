//! Plain values that cross the boundary to the native window API: the codes
//! passed to a window's `perform` hook, the status codes that come back, and
//! the raw form of a buffer's fence.
//!
//! Native functions report `0` on success and a negated `errno` value on
//! failure. A fence travels as a file descriptor number, with `-1` standing
//! for "no fence".

use vstd::prelude::*;

verus! {

/// Operation code of a window's `perform` hook: connect a client API to the
/// buffer queue.
pub const NATIVE_WINDOW_API_CONNECT: i32 = 13;

/// Client API code for EGL, the argument of `NATIVE_WINDOW_API_CONNECT`.
pub const NATIVE_WINDOW_API_EGL: i32 = 1;

/// Raw fence value that stands for "no fence".
pub const NO_FENCE: i32 = -1;

/// `std::io::Error`, which verified code only hands on: nothing is known of
/// what a value of it holds.
#[verifier::external_type_specification]
#[verifier::external_body]
pub struct ExIoError(std::io::Error);

/// The error that `std::io::Error::from_raw_os_error` builds for `code`.
pub uninterp spec fn os_error(code: i32) -> std::io::Error;

/// Calls `std::io::Error::from_raw_os_error`. Trusted, not proved: the result
/// depends on `code` alone, which is all that the name `os_error(code)` says
/// of it.
#[verifier::external_body]
fn error_from_raw_os_error(code: i32) -> (error: std::io::Error)
    ensures
        error == os_error(code),
{
    std::io::Error::from_raw_os_error(code)
}

/// Whether `status` is one the native window API returns: zero, or a negated
/// `errno` value. `i32::MIN` is left out, as its negation is no `i32`.
pub open spec fn valid_status(status: i32) -> bool {
    i32::MIN < status <= 0
}

/// What a status means: success for zero, otherwise the OS error whose code
/// is the negated status.
pub open spec fn status_result(status: i32) -> Result<(), std::io::Error>
    recommends
        valid_status(status),
{
    if status == 0 {
        Ok(())
    } else {
        Err(os_error((-status) as i32))
    }
}

/// Tests whether `status` may be handed to `status_to_io_result`.
pub fn is_valid_status(status: i32) -> (valid: bool)
    ensures
        valid == valid_status(status),
{
    i32::MIN < status && status <= 0
}

/// Turns a status code into an `io::Result`.
pub fn status_to_io_result(status: i32) -> (result: Result<(), std::io::Error>)
    requires
        valid_status(status),
    ensures
        result == status_result(status),
        result is Ok <==> status == 0,
{
    if status == 0 {
        Ok(())
    } else {
        Err(error_from_raw_os_error(-status))
    }
}

/// The fence that a raw value stands for: none for `NO_FENCE`, otherwise the
/// file descriptor with that number.
pub open spec fn fence_of_raw(raw: i32) -> Option<i32> {
    if raw == NO_FENCE {
        None
    } else {
        Some(raw)
    }
}

/// The raw value that stands for a fence.
pub open spec fn raw_of_fence(fence: Option<i32>) -> i32 {
    match fence {
        Some(fd) => fd,
        None => NO_FENCE,
    }
}

/// Reads the fence that a dequeue call left in its out-parameter.
pub fn fence_from_raw(raw: i32) -> (fence: Option<i32>)
    ensures
        fence == fence_of_raw(raw),
        fence is None <==> raw == NO_FENCE,
{
    if raw == NO_FENCE {
        None
    } else {
        Some(raw)
    }
}

/// Gives the raw value to hand to a queue call for a fence.
pub fn fence_into_raw(fence: Option<i32>) -> (raw: i32)
    ensures
        raw == raw_of_fence(fence),
{
    match fence {
        Some(fd) => fd,
        None => NO_FENCE,
    }
}

/// Decoding a raw fence and coding it again gives the raw value back.
pub proof fn lemma_raw_round_trip(raw: i32)
    ensures
        raw_of_fence(fence_of_raw(raw)) == raw,
{
}

/// Coding a fence and decoding it again gives the fence back, provided its
/// descriptor is not the number reserved for "no fence".
pub proof fn lemma_fence_round_trip(fence: Option<i32>)
    requires
        fence != Some(NO_FENCE),
    ensures
        fence_of_raw(raw_of_fence(fence)) == fence,
{
}

/// A fence is coded as `NO_FENCE` only if it is absent, or if its descriptor
/// is that very number.
pub proof fn lemma_fence_presence(fence: Option<i32>)
    ensures
        raw_of_fence(fence) == NO_FENCE <==> fence is None || fence == Some(NO_FENCE),
{
}

} // verus!
