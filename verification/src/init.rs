//! Explicit engine initialization.
//!
//! Initializing up front pins the audio context, and the task it belongs
//! to, before the first sound plays. The host passes the probe results of
//! the backend's context calls; the verdict is decided here.

use crate::context::OpenAlContextError;
use crate::context::OpenAlData;
use crate::context::RecordContext;
use vstd::prelude::*;

verus! {

/// Initialize the engine: usable exactly when a context is already
/// current on this thread or the guarded acquisition succeeded.
pub fn init(current_context: isize, ctx: &Result<OpenAlData, OpenAlContextError>) -> (r: Result<
    (),
    OpenAlContextError,
>)
    ensures
        current_context != 0 ==> r == Ok::<(), OpenAlContextError>(()),
        current_context == 0 && ctx is Ok ==> r == Ok::<(), OpenAlContextError>(()),
        current_context == 0 && ctx is Err ==> r == Err::<(), OpenAlContextError>(ctx->Err_0),
{
    OpenAlData::check_al_context(current_context, ctx)
}

/// Initialize the input side of the engine: checks the output context
/// and opens the capture device on it when it is still missing.
pub fn init_in(
    current_context: isize,
    ctx: &mut Result<OpenAlData, OpenAlContextError>,
    ext_present: bool,
    capture_device: isize,
) -> (r: Result<RecordContext, OpenAlContextError>)
    ensures
        current_context == 0 && *old(ctx) is Err ==> r == Err::<RecordContext,
            OpenAlContextError,
        >((*old(ctx))->Err_0) && *final(ctx) == *old(ctx),
        current_context != 0 || *old(ctx) is Ok ==> ({
            let stepped = OpenAlData::spec_input_result(*old(ctx), ext_present, capture_device);
            r == stepped.0 && *final(ctx) == stepped.1
        }),
{
    OpenAlData::check_al_input_context(current_context, ctx, ext_present, capture_device)
}

} // verus!
