//! Error type of the controller.

use vstd::prelude::*;

verus! {

/// What a device operation can fail with.
///
/// Platform failures carry the raw numeric status code and nothing more: the
/// platform's status codes are an opaque taxonomy that this library does not
/// refine. `NoChannels` is the one error of the library's own: reading a
/// volume from a device that exposed no addressable channels has no average
/// to return, and is reported explicitly instead of dividing by zero.
#[derive(Clone, Copy, Debug, PartialEq, Eq, Structural)]
pub enum AudioError {
    /// A platform property call returned this nonzero status code.
    Platform(i32),
    /// The device exposes no addressable channels.
    NoChannels,
}

/// Turns a raw platform status code into a result: status zero means the
/// call succeeded, any other value is surfaced unchanged as an error.
pub fn check_status(status: i32) -> (r: Result<(), AudioError>)
    ensures
        r is Ok <==> status == 0,
        status != 0 ==> r == Result::<(), AudioError>::Err(AudioError::Platform(status)),
{
    if status == 0 {
        Ok(())
    } else {
        Err(AudioError::Platform(status))
    }
}

} // verus!
