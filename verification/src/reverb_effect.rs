//! Reverb effects a playback source can be routed through.
//!
//! An effect pairs a backend effect object with an auxiliary effect
//! slot. The backend creates both and applies the numeric reverb
//! parameters; the host performs those calls, and the acquisition
//! verdict and the slot handed to sources are decided here.

use crate::openal::spec_al_error_message;
use crate::openal::al_error_message;
use crate::openal::AL_NO_ERROR;
use vstd::prelude::*;

verus! {

/// A backend effect object together with the auxiliary effect slot it
/// is loaded into.
#[derive(Clone, Copy, Debug, PartialEq, Eq, Structural)]
pub struct ReverbEffect {
    pub effect_id: u32,
    pub effect_slot_id: u32,
}

/// The text that reports a failed effect acquisition.
pub open spec fn spec_reverb_new_error(context_ok: bool, error_code: i32) -> Seq<char> {
    if !context_ok {
        "Invalid OpenAL context."@
    } else {
        "ReverbEffect::new - OpenAL error: "@ + spec_al_error_message(error_code)
    }
}

impl ReverbEffect {
    /// Judge the effect acquisition: without an active context nothing
    /// was created; a pending backend error code after the two
    /// allocations fails it; otherwise the effect owns the two handles
    /// the backend returned.
    pub fn new(context_ok: bool, effect_slot_id: u32, effect_id: u32, error_code: i32) -> (r:
        Result<ReverbEffect, String>)
        ensures
            !context_ok ==> (r matches Err(m) && m@ == spec_reverb_new_error(false, error_code)),
            context_ok && error_code != AL_NO_ERROR ==> (r matches Err(m) && m@
                == spec_reverb_new_error(true, error_code)),
            context_ok && error_code == AL_NO_ERROR ==> r == Ok::<_, String>(
                ReverbEffect { effect_id, effect_slot_id },
            ),
    {
        if !context_ok {
            return Err(String::from_str("Invalid OpenAL context."));
        }
        if error_code != AL_NO_ERROR {
            let mut s = String::from_str("ReverbEffect::new - OpenAL error: ");
            let detail = al_error_message(error_code);
            s.append(detail.as_str());
            return Err(s);
        }
        Ok(ReverbEffect { effect_id, effect_slot_id })
    }

    /// The auxiliary effect slot sources connect to.
    pub fn slot(&self) -> (r: u32)
        ensures
            r == self.effect_slot_id,
    {
        self.effect_slot_id
    }
}

} // verus!
