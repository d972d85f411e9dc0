use vstd::prelude::*;

verus! {

/// The index of the last gallows frame: the full figure.
pub const LAST_STAGE: usize = 6;

pub const STAGE_0: &'static str = "  +---+\n  |   |\n      |\n      |\n      |\n      |\n=========";

pub const STAGE_1: &'static str = "  +---+\n  |   |\n  O   |\n      |\n      |\n      |\n=========";

pub const STAGE_2: &'static str = "  +---+\n  |   |\n  O   |\n  |   |\n      |\n      |\n=========";

pub const STAGE_3: &'static str = "  +---+\n  |   |\n  O   |\n /|   |\n      |\n      |\n=========";

pub const STAGE_4: &'static str = "  +---+\n  |   |\n  O   |\n /|\\  |\n      |\n      |\n=========";

pub const STAGE_5: &'static str = "  +---+\n  |   |\n  O   |\n /|\\  |\n /    |\n      |\n=========";

pub const STAGE_6: &'static str = "  +---+\n  |   |\n  O   |\n /|\\  |\n / \\  |\n      |\n=========";

/// The gallows frame for `stage` wrong guesses, `stage` in 0..=6; each adds
/// one part to the figure.
pub open spec fn stage_frame(stage: int) -> &'static str {
    if stage <= 0 {
        STAGE_0
    } else if stage == 1 {
        STAGE_1
    } else if stage == 2 {
        STAGE_2
    } else if stage == 3 {
        STAGE_3
    } else if stage == 4 {
        STAGE_4
    } else if stage == 5 {
        STAGE_5
    } else {
        STAGE_6
    }
}

/// The frame for `index`, an index past the last frame clamped to it.
pub fn hangman_stage(index: usize) -> (r: &'static str)
    ensures
        r == stage_frame(if index < LAST_STAGE {
            index as int
        } else {
            LAST_STAGE as int
        }),
{
    if index == 0 {
        STAGE_0
    } else if index == 1 {
        STAGE_1
    } else if index == 2 {
        STAGE_2
    } else if index == 3 {
        STAGE_3
    } else if index == 4 {
        STAGE_4
    } else if index == 5 {
        STAGE_5
    } else {
        STAGE_6
    }
}

} // verus!
