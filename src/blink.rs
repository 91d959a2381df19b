use vstd::prelude::*;

verus! {

/// How long the light stays off for a space.
pub const WORD_PAUSE_MS: u16 = 500;

/// How long the light stays on for a dot.
pub const DOT_MS: u16 = 200;

/// How long the light stays on for a dash.
pub const DASH_MS: u16 = 700;

/// The dark gap that follows every character of the message.
pub const SYMBOL_GAP_MS: u16 = 300;

/// What the indicator light does for one character of a Morse message.
#[derive(Debug, Clone, Copy, PartialEq, Eq, Structural)]
pub enum Signal {
    /// Stay dark for this many milliseconds.
    Pause(u16),
    /// Light up for this many milliseconds.
    Flash(u16),
    /// Do nothing: the character has no meaning.
    Skip,
}

pub open spec fn signal_of(c: char) -> Signal {
    if c == ' ' {
        Signal::Pause(WORD_PAUSE_MS)
    } else if c == '.' {
        Signal::Flash(DOT_MS)
    } else if c == '-' {
        Signal::Flash(DASH_MS)
    } else {
        Signal::Skip
    }
}

/// The signal for one character: a space pauses, a dot flashes briefly, a
/// dash flashes long, anything else is skipped. Each character is followed
/// by a gap of `SYMBOL_GAP_MS`.
pub fn signal_for(c: char) -> (r: Signal)
    ensures
        r == signal_of(c),
{
    match c {
        ' ' => Signal::Pause(WORD_PAUSE_MS),
        '.' => Signal::Flash(DOT_MS),
        '-' => Signal::Flash(DASH_MS),
        _ => Signal::Skip,
    }
}

} // verus!
