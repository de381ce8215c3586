//! The per-sample signal path around the delay line: which read and which
//! advance a mode selects, and the two halves of a stereo sample step.
//!
//! A sample step has two halves with the caller's arithmetic between them.
//! [`fetch`] steps the read position once and hands out what the mode reads
//! for both channels; the caller turns that into wet samples, mixes its
//! output and the samples to feed back; [`commit`] writes back and advances.

use crate::delaybuffer::{DelayBuffer, DelayLine, Taps};
use vstd::prelude::*;

verus! {

/// The delay character: which read and which advance a sample step uses.
///
/// A mode carries no state. Whatever mode the previous step ran in, a step
/// uses the read and the advance of the mode it is given.
#[derive(Clone, Copy, Debug, PartialEq, Eq, Structural)]
pub enum Mode {
    /// Softened read, default advance.
    Interpolated,
    /// Plain read after the step of the read position, default advance.
    Legacy,
    /// Linear read, digital advance.
    Digital,
}

/// What a read hands out for one channel. Each variant carries the samples
/// that its mode's formula combines into the wet sample.
#[derive(Clone, Copy, Debug, PartialEq, Eq, Structural)]
pub enum Wet {
    /// The wet sample itself.
    Plain(u32),
    /// The sample at the read position and the one before it; the wet sample
    /// extrapolates a little from the one before through the one here.
    Softened(Taps),
    /// The sample at the read position and the one after it; the wet sample
    /// lies between them, at the fractional part of the delay.
    Linear(Taps),
}

/// What the caller mixed for one channel of a sample step.
#[derive(Clone, Copy, Debug, PartialEq, Eq, Structural)]
pub struct Feed {
    /// The wet sample.
    pub wet: u32,
    /// Input plus wet sample scaled by the feedback gain.
    pub fed: u32,
}

impl Feed {
    /// The sample that goes back into the line: while frozen the wet sample
    /// itself, so that no input enters the line; otherwise the fed sample.
    pub open spec fn chosen(self, freeze: bool) -> u32 {
        if freeze {
            self.wet
        } else {
            self.fed
        }
    }
}

impl DelayLine {
    /// What a read in `mode` finds for channel `ch` at the read position.
    pub open spec fn wet(self, mode: Mode, ch: int) -> Wet {
        match mode {
            Mode::Interpolated => Wet::Softened(self.taps_before(ch)),
            Mode::Legacy => Wet::Plain(self.peek(ch)),
            Mode::Digital => Wet::Linear(self.taps_after(ch)),
        }
    }

    /// The line after the advance that `mode` selects.
    pub open spec fn advance(self, mode: Mode, delay: nat) -> DelayLine {
        match mode {
            Mode::Digital => self.advance_digit(delay),
            _ => self.advance_to(delay),
        }
    }

    /// The line after the second half of a stereo sample step: both channels
    /// written at the one write position, then the advance of `mode`.
    pub open spec fn commit(
        self,
        mode: Mode,
        freeze: bool,
        left: Feed,
        right: Feed,
        delay: nat,
    ) -> DelayLine {
        self.put(0, left.chosen(freeze)).put(1, right.chosen(freeze)).advance(mode, delay)
    }
}

impl Mode {
    /// Steps the read position of `line` and returns what this mode reads
    /// for channel `ch_idx` there.
    pub fn read(self, line: &mut DelayBuffer, ch_idx: usize) -> (wet: Wet)
        requires
            old(line)@.wf(),
            ch_idx < old(line)@.channels.len(),
        ensures
            final(line)@ == old(line)@.step_read(),
            final(line)@.wf(),
            wet == final(line)@.wet(self, ch_idx as int),
    {
        match self {
            Mode::Interpolated => Wet::Softened(line.read_inter(ch_idx)),
            Mode::Legacy => Wet::Plain(line.read(ch_idx)),
            Mode::Digital => Wet::Linear(line.read_lin(ch_idx)),
        }
    }

    /// What this mode reads for channel `ch_idx` at the read position of
    /// `line`, without stepping it.
    pub fn peek(self, line: &DelayBuffer, ch_idx: usize) -> (wet: Wet)
        requires
            line@.wf(),
            ch_idx < line@.channels.len(),
        ensures
            wet == line@.wet(self, ch_idx as int),
    {
        match self {
            Mode::Interpolated => Wet::Softened(line.peek_inter(ch_idx)),
            Mode::Legacy => Wet::Plain(line.peek(ch_idx)),
            Mode::Digital => Wet::Linear(line.peek_lin(ch_idx)),
        }
    }

    /// Advances `line` by a delay of `delay` whole samples the way this mode
    /// does: digitally in the digital mode, by the default advance in the
    /// other two.
    pub fn advance(self, line: &mut DelayBuffer, delay: usize)
        requires
            old(line)@.wf(),
        ensures
            final(line)@ == old(line)@.advance(self, delay as nat),
            final(line)@.wf(),
    {
        match self {
            Mode::Digital => line.advance_digit(delay),
            _ => line.advance_to(delay),
        }
    }
}

/// First half of a stereo sample step: steps the read position once and
/// returns what `mode` reads there for the left and the right channel. Both
/// channels are read at the same position.
pub fn fetch(line: &mut DelayBuffer, mode: Mode) -> (wet: (Wet, Wet))
    requires
        old(line)@.wf(),
        old(line)@.channels.len() >= 2,
    ensures
        final(line)@ == old(line)@.step_read(),
        final(line)@.wf(),
        wet.0 == final(line)@.wet(mode, 0),
        wet.1 == final(line)@.wet(mode, 1),
{
    line.step_read();
    let left = mode.peek(line, 0);
    let right = mode.peek(line, 1);
    (left, right)
}

/// Second half of a stereo sample step: writes back one sample per channel
/// at the one write position, the wet sample while frozen and the fed sample
/// otherwise, then advances the way `mode` does.
pub fn commit(
    line: &mut DelayBuffer,
    mode: Mode,
    freeze: bool,
    left: Feed,
    right: Feed,
    delay: usize,
)
    requires
        old(line)@.wf(),
        old(line)@.channels.len() >= 2,
    ensures
        final(line)@ == old(line)@.commit(mode, freeze, left, right, delay as nat),
        final(line)@.wf(),
{
    let back_left: u32 = if freeze {
        left.wet
    } else {
        left.fed
    };
    let back_right: u32 = if freeze {
        right.wet
    } else {
        right.fed
    };
    line.write(0, back_left);
    line.write(1, back_right);
    mode.advance(line, delay);
}

} // verus!
