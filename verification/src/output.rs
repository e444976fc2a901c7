//! Decisions about the audio output device: whether the device in use has
//! to be replaced, and what becomes of the background track when it is.

use vstd::prelude::*;

verus! {

/// Whether the output needs handling: it does unless there is both a
/// default output device and a device in use, and they carry the same name.
/// Each argument is the name of the device, or `None` where there is none.
pub fn needs_handle(default_device: Option<&String>, selected_device: Option<&String>) -> (r: bool)
    ensures
        r <==> !(default_device is Some && selected_device is Some
            && default_device.unwrap()@ == selected_device.unwrap()@),
{
    match default_device {
        Some(current) => match selected_device {
            Some(selected) => !(*selected == *current),
            None => true,
        },
        None => true,
    }
}

/// What to do with the output and the background track on a tick.
#[derive(Clone, Copy, Debug, PartialEq, Eq, Structural)]
pub enum OutputPlan {
    /// The output is fine: leave it.
    Keep,
    /// Nothing plays: rebuild the output.
    Rebuild,
    /// The track plays: stop it, rebuild the output, then continue the
    /// track where it stopped.
    StopRebuildContinue,
}

/// The plan for a tick: an output that needs no handling is kept; otherwise
/// it is rebuilt, and a background track that was playing is stopped before
/// and continued after.
pub fn plan_output(need_handle: bool, track_playing: bool) -> (r: OutputPlan)
    ensures
        !need_handle ==> r == OutputPlan::Keep,
        need_handle && track_playing ==> r == OutputPlan::StopRebuildContinue,
        need_handle && !track_playing ==> r == OutputPlan::Rebuild,
{
    if !need_handle {
        OutputPlan::Keep
    } else if track_playing {
        OutputPlan::StopRebuildContinue
    } else {
        OutputPlan::Rebuild
    }
}

} // verus!
