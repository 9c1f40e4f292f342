//! The audio context lifecycle.
//!
//! The backend needs one context on one device before any source can
//! exist, and one capture device before recording can start. The host
//! program owns the handles and performs the backend calls; the decisions
//! — which probe result means which error, when the capture device is
//! opened, what an already-initialized context answers — are verified
//! here. The context is guarded by an explicit lifecycle, never created
//! behind the caller's back by a hidden global.

use vstd::prelude::*;

verus! {

/// Why acquiring the audio context, or the capture context, failed.
#[derive(Clone, Debug, PartialEq, Eq)]
pub enum OpenAlContextError {
    /// The default output device could not be opened.
    DefaultDeviceError,
    /// The context could not be created on the device.
    CreationError,
    /// The created context could not be made current.
    MakeCurrentError,
    /// The system has no input device.
    NoInputDevice,
    /// The default capture device could not be opened.
    DefaultCaptureDeviceError,
    /// The input context was requested from a task other than the one
    /// that initialized the engine.
    WrongThread,
    /// The lock guarding the context was poisoned; carries the lock
    /// error's description.
    LockError(String),
}

/// The text that describes a context error.
pub open spec fn spec_context_error_message(e: OpenAlContextError) -> Seq<char> {
    match e {
        OpenAlContextError::DefaultDeviceError => "cannot open the default device"@,
        OpenAlContextError::CreationError => "cannot create the OpenAL context"@,
        OpenAlContextError::MakeCurrentError => "cannot make the OpenAL context current"@,
        OpenAlContextError::NoInputDevice => "no input device available on your system"@,
        OpenAlContextError::DefaultCaptureDeviceError => "cannot open the default capture device"@,
        OpenAlContextError::WrongThread => "you must request the input context in the task where you initialize the engine"@,
        OpenAlContextError::LockError(s) => "cannot lock the OpenAL context mutex: "@ + s@,
    }
}

impl OpenAlContextError {
    /// Describe the error in words.
    pub fn message(&self) -> (r: String)
        ensures
            r@ == spec_context_error_message(*self),
    {
        match self {
            OpenAlContextError::DefaultDeviceError => {
                String::from_str("cannot open the default device")
            },
            OpenAlContextError::CreationError => {
                String::from_str("cannot create the OpenAL context")
            },
            OpenAlContextError::MakeCurrentError => {
                String::from_str("cannot make the OpenAL context current")
            },
            OpenAlContextError::NoInputDevice => {
                String::from_str("no input device available on your system")
            },
            OpenAlContextError::DefaultCaptureDeviceError => {
                String::from_str("cannot open the default capture device")
            },
            OpenAlContextError::WrongThread => {
                String::from_str(
                    "you must request the input context in the task where you initialize the engine",
                )
            },
            OpenAlContextError::LockError(s) => {
                let mut m = String::from_str("cannot lock the OpenAL context mutex: ");
                m.append(s.as_str());
                m
            },
        }
    }
}

/// Rebuild an owned copy of a context error, field for field.
fn clone_context_error(e: &OpenAlContextError) -> (r: OpenAlContextError)
    ensures
        r == *e,
{
    match e {
        OpenAlContextError::DefaultDeviceError => OpenAlContextError::DefaultDeviceError,
        OpenAlContextError::CreationError => OpenAlContextError::CreationError,
        OpenAlContextError::MakeCurrentError => OpenAlContextError::MakeCurrentError,
        OpenAlContextError::NoInputDevice => OpenAlContextError::NoInputDevice,
        OpenAlContextError::DefaultCaptureDeviceError => {
            OpenAlContextError::DefaultCaptureDeviceError
        },
        OpenAlContextError::WrongThread => OpenAlContextError::WrongThread,
        OpenAlContextError::LockError(s) => OpenAlContextError::LockError(s.clone()),
    }
}

/// The handles of an acquired audio context: the context, the output
/// device it lives on, and the capture device — zero until recording
/// has opened one. A zero handle means "none" throughout the backend
/// interface.
#[derive(Clone, Copy, Debug, PartialEq, Eq, Structural)]
pub struct OpenAlData {
    pub al_context: isize,
    pub al_device: isize,
    pub al_capt_device: isize,
}

/// A handle on the opened capture device, the ticket recording needs.
#[derive(Clone, Copy, Debug, PartialEq, Eq, Structural)]
pub struct RecordContext {
    pub al_capt_device: isize,
}

impl OpenAlData {
    /// Judge the context acquisition from its probe results: the device
    /// handle the backend opened, the context handle it created on that
    /// device, and whether the context could be made current. A zero
    /// handle is a failed call; the first failure in that order decides
    /// the error.
    pub fn new(device: isize, context: isize, made_current: bool) -> (r: Result<
        OpenAlData,
        OpenAlContextError,
    >)
        ensures
            device == 0 ==> r == Err::<OpenAlData, _>(OpenAlContextError::DefaultDeviceError),
            device != 0 && context == 0 ==> r == Err::<OpenAlData, _>(
                OpenAlContextError::CreationError,
            ),
            device != 0 && context != 0 && !made_current ==> r == Err::<OpenAlData, _>(
                OpenAlContextError::MakeCurrentError,
            ),
            device != 0 && context != 0 && made_current ==> r == Ok::<_, OpenAlContextError>(
                OpenAlData { al_context: context, al_device: device, al_capt_device: 0 },
            ),
    {
        if device == 0 {
            return Err(OpenAlContextError::DefaultDeviceError);
        }
        if context == 0 {
            return Err(OpenAlContextError::CreationError);
        }
        if !made_current {
            return Err(OpenAlContextError::MakeCurrentError);
        }
        Ok(OpenAlData { al_context: context, al_device: device, al_capt_device: 0 })
    }

    /// Whether the context is usable: fine when a context is already
    /// current on this thread, otherwise exactly when the guarded
    /// acquisition succeeded.
    pub fn check_al_context(
        current_context: isize,
        ctx: &Result<OpenAlData, OpenAlContextError>,
    ) -> (r: Result<(), OpenAlContextError>)
        ensures
            current_context != 0 ==> r == Ok::<(), OpenAlContextError>(()),
            current_context == 0 && ctx is Ok ==> r == Ok::<(), OpenAlContextError>(()),
            current_context == 0 && ctx is Err ==> r == Err::<(), OpenAlContextError>(
                ctx->Err_0,
            ),
    {
        if current_context != 0 {
            return Ok(());
        }
        match ctx {
            Ok(_) => Ok(()),
            Err(e) => Err(clone_context_error(e)),
        }
    }

    /// Open the input side of an acquired context. `ext_present` is the
    /// backend's answer to the capture-extension probe and
    /// `capture_device` the handle its capture-open call returned; the
    /// host makes those calls only when this decision needs them.
    ///
    /// A context that failed to initialize means the input context is
    /// being requested from the wrong task. A capture device opened
    /// earlier is handed out again; otherwise the freshly opened one is
    /// stored and handed out, with the extension probe and the open call
    /// deciding the error.
    pub fn is_input_context_init(
        ctx: &mut Result<OpenAlData, OpenAlContextError>,
        ext_present: bool,
        capture_device: isize,
    ) -> (r: Result<RecordContext, OpenAlContextError>)
        ensures
            r == Self::spec_input_result(*old(ctx), ext_present, capture_device).0,
            *final(ctx) == Self::spec_input_result(*old(ctx), ext_present, capture_device).1,
    {
        match ctx {
            Ok(data) => {
                if data.al_capt_device != 0 {
                    Ok(RecordContext { al_capt_device: data.al_capt_device })
                } else if !ext_present {
                    Err(OpenAlContextError::NoInputDevice)
                } else if capture_device == 0 {
                    Err(OpenAlContextError::DefaultCaptureDeviceError)
                } else {
                    data.al_capt_device = capture_device;
                    Ok(RecordContext { al_capt_device: capture_device })
                }
            },
            Err(_) => Err(OpenAlContextError::WrongThread),
        }
    }

    /// Whether the input context is usable, acquiring the capture device
    /// on the way when it is still missing: the output context is checked
    /// first, then the input side is opened on it.
    pub fn check_al_input_context(
        current_context: isize,
        ctx: &mut Result<OpenAlData, OpenAlContextError>,
        ext_present: bool,
        capture_device: isize,
    ) -> (r: Result<RecordContext, OpenAlContextError>)
        ensures
            current_context == 0 && *old(ctx) is Err ==> r == Err::<RecordContext,
                OpenAlContextError,
            >((*old(ctx))->Err_0) && *final(ctx) == *old(ctx),
            current_context != 0 || *old(ctx) is Ok ==> ({
                let stepped = Self::spec_input_result(*old(ctx), ext_present, capture_device);
                r == stepped.0 && *final(ctx) == stepped.1
            }),
    {
        if current_context == 0 {
            if let Err(e) = ctx {
                return Err(clone_context_error(e));
            }
        }
        Self::is_input_context_init(ctx, ext_present, capture_device)
    }

    /// What opening the input side answers and leaves behind, given the
    /// guarded context, the extension probe and the capture-open result.
    pub open spec fn spec_input_result(
        ctx: Result<OpenAlData, OpenAlContextError>,
        ext_present: bool,
        capture_device: isize,
    ) -> (Result<RecordContext, OpenAlContextError>, Result<OpenAlData, OpenAlContextError>) {
        match ctx {
            Err(_) => (Err(OpenAlContextError::WrongThread), ctx),
            Ok(d) => {
                if d.al_capt_device != 0 {
                    (Ok(RecordContext { al_capt_device: d.al_capt_device }), ctx)
                } else if !ext_present {
                    (Err(OpenAlContextError::NoInputDevice), ctx)
                } else if capture_device == 0 {
                    (Err(OpenAlContextError::DefaultCaptureDeviceError), ctx)
                } else {
                    (
                        Ok(RecordContext { al_capt_device: capture_device }),
                        Ok(OpenAlData { al_capt_device: capture_device, ..d }),
                    )
                }
            },
        }
    }
}

} // verus!
