//! The window title as a beep indicator.
//!
//! The shell has no audio output; the only beep indication is the window
//! title, which is recomputed after every machine step from the beep flag
//! alone. Re-setting it with an unchanged flag is idempotent: the new title
//! never depends on the previously displayed one.

use vstd::prelude::*;

verus! {

/// The title the window shows for a given beep flag: the plain title while
/// silent, the note-decorated one while the sound timer is active.
pub open spec fn title_spec(beeping: bool) -> Seq<char> {
    if beeping {
        "♬ Chip8 ♬"@
    } else {
        "Chip8"@
    }
}

/// The title displayed after one title update, given the title displayed
/// before it: the beep flag alone decides, the old title is discarded.
pub open spec fn title_update_spec(displayed: Seq<char>, beeping: bool) -> Seq<char> {
    title_spec(beeping)
}

/// The title to show for the beep flag read right after a machine step.
pub fn title_for(beeping: bool) -> (t: &'static str)
    ensures
        t@ == title_spec(beeping),
{
    if beeping {
        "♬ Chip8 ♬"
    } else {
        "Chip8"
    }
}

/// One title update: what the window should display next, given what it
/// displays now and the current beep flag. The displayed title is passed in
/// only to mirror the update protocol; it never influences the result.
#[allow(unused_variables)]
pub fn updated_title(displayed: &str, beeping: bool) -> (t: &'static str)
    ensures
        t@ == title_update_spec(displayed@, beeping),
{
    title_for(beeping)
}

/// Updating the title twice in a row with the same beep flag displays the
/// same title as updating it once: the update is idempotent and cannot
/// toggle.
pub proof fn lemma_title_update_idempotent(displayed: Seq<char>, beeping: bool)
    ensures
        title_update_spec(title_update_spec(displayed, beeping), beeping)
            == title_update_spec(displayed, beeping),
{
}

} // verus!
