//! The save command's decisions about the cached output target.
//!
//! Saving goes to the cached output target when one is present and
//! prompts for one otherwise; a failed save drops the cached target so
//! that the next save re-prompts instead of silently retrying a broken
//! target.

use vstd::prelude::*;

verus! {

/// What the save command does first, given whether an output target is
/// cached.
#[derive(Clone, Copy, PartialEq, Eq, Structural, Debug)]
pub enum SavePlan {
    PromptForTarget,
    SaveToCurrent,
}

/// Decides the save path: save straight to the cached target when one
/// is present, otherwise prompt for a target first.
pub fn plan_save(has_target: bool) -> (r: SavePlan)
    ensures
        r == (if has_target {
            SavePlan::SaveToCurrent
        } else {
            SavePlan::PromptForTarget
        }),
{
    if has_target {
        SavePlan::SaveToCurrent
    } else {
        SavePlan::PromptForTarget
    }
}

/// Decides whether the cached output target survives a save attempt:
/// only a target that existed and saved successfully is kept, so a
/// failed save re-prompts next time.
pub fn retain_target(had_target: bool, save_succeeded: bool) -> (r: bool)
    ensures
        r == (had_target && save_succeeded),
{
    had_target && save_succeeded
}

} // verus!
