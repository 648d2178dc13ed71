use vstd::prelude::*;
use crate::gphoto::types::CaptureError;

verus! {

/// The result of a capture request: `sent` tells whether the driver took the
/// request, `reply` what it answered (`None` when it dropped the request
/// without answering).
pub fn capture_outcome(sent: bool, reply: Option<Result<(), CaptureError>>) -> (outcome: Result<
    (),
    CaptureError,
>)
    ensures
        !sent ==> outcome == Err::<(), CaptureError>(CaptureError::ActorDisconnected),
        sent && reply is None ==> outcome == Err::<(), CaptureError>(CaptureError::Interrupted),
        sent && reply is Some ==> outcome == reply->0,
{
    if !sent {
        return Err(CaptureError::ActorDisconnected);
    }
    match reply {
        Some(result) => result,
        None => Err(CaptureError::Interrupted),
    }
}

/// The result of waiting for the camera to become ready: success when a
/// ready status was seen, otherwise the driver's status channel closed.
pub fn ready_outcome(seen_ready: bool) -> (outcome: Result<(), CaptureError>)
    ensures
        seen_ready ==> outcome is Ok,
        !seen_ready ==> outcome == Err::<(), CaptureError>(CaptureError::ActorDisconnected),
{
    if seen_ready {
        Ok(())
    } else {
        Err(CaptureError::ActorDisconnected)
    }
}

} // verus!
