//! What holds of the delay line's model in every state: the laws that the
//! executable operations inherit through their contracts.

use crate::delaybuffer::{DelayLine, MAX_DELAY_SECONDS};
use crate::processor::{Feed, Mode};
use vstd::arithmetic::div_mod::{
    lemma_mod_add_multiples_vanish, lemma_mod_bound, lemma_small_mod, lemma_sub_mod_noop_right,
};
use vstd::prelude::*;

verus! {

/// Configuration yields exactly `num_channels` stores, each two seconds
/// long and silent throughout, with both positions at the start; such a line
/// is well formed.
pub proof fn lemma_configured(num_channels: nat, sample_rate: nat)
    requires
        num_channels >= 1,
        sample_rate >= 1,
    ensures
        ({
            let line = DelayLine::configured(num_channels, sample_rate);
            &&& line.wf()
            &&& line.sample_rate == sample_rate
            &&& line.capacity() == MAX_DELAY_SECONDS * sample_rate
            &&& line.channels.len() == num_channels
            &&& line.rp == 0
            &&& line.wp == 0
            &&& forall|ch: int|
                0 <= ch < num_channels ==> (#[trigger] line.channels[ch]).len()
                    == MAX_DELAY_SECONDS * sample_rate
            &&& forall|ch: int, pos: nat|
                0 <= ch < num_channels && pos < MAX_DELAY_SECONDS * sample_rate
                    ==> #[trigger] line.at(ch, pos) == 0
        }),
{
}

/// Every operation keeps a well-formed line well formed, with the same
/// rate, the same number of channels and the same capacity: both positions
/// stay inside the stores at every observable point.
pub proof fn lemma_wf_preserved(line: DelayLine, ch: int, sample: u32, delay: nat)
    requires
        line.wf(),
        0 <= ch < line.channels.len(),
    ensures
        line.step_read().wf(),
        line.put(ch, sample).wf(),
        line.advance_to(delay).wf(),
        line.advance_digit(delay).wf(),
        line.put(ch, sample).channels.len() == line.channels.len(),
        line.put(ch, sample).capacity() == line.capacity(),
{
    let rate = line.sample_rate as int;
    let size = line.capacity() as int;
    lemma_mod_bound(line.rp as int + 1, rate);
    lemma_mod_bound(line.wp as int + 1, rate);
    lemma_mod_bound(line.advance_to(delay).wp - delay, size);
    lemma_mod_bound(line.wp as int + delay as int, size);
    assert forall|c: int| 0 <= c < line.put(ch, sample).channels.len() implies (
    #[trigger] line.put(ch, sample).channels[c]).len() == line.capacity() by {
        assert(line.channels[c].len() == line.capacity());
    }
}

/// Reads and the default advance wrap at the sample rate, not at the
/// capacity: after a read the read position lies in the first second of the
/// stores, after a default advance the write position does.
pub proof fn lemma_first_second_window(line: DelayLine, delay: nat)
    requires
        line.wf(),
    ensures
        line.step_read().rp < line.sample_rate,
        line.advance_to(delay).wp < line.sample_rate,
        line.step_read().next_pos() == line.step_read().rp + 1,
{
    let rate = line.sample_rate as int;
    lemma_mod_bound(line.rp as int + 1, rate);
    lemma_mod_bound(line.wp as int + 1, rate);
    lemma_small_mod(line.step_read().rp + 1, line.capacity());
}

/// A sample written at the write position is the sample found there
/// afterwards, unchanged; every other sample of the line stays as it was. So
/// while the read position equals the write position, a plain read returns
/// what was just written.
pub proof fn lemma_write_then_read(line: DelayLine, ch: int, sample: u32)
    requires
        line.wf(),
        0 <= ch < line.channels.len(),
    ensures
        line.put(ch, sample).at(ch, line.wp) == sample,
        line.rp == line.wp ==> line.put(ch, sample).peek(ch) == sample,
        forall|c: int, pos: nat|
            0 <= c < line.channels.len() && pos < line.capacity() && (c != ch || pos != line.wp)
                ==> #[trigger] line.put(ch, sample).at(c, pos) == line.at(c, pos),
{
    assert(line.channels[ch].len() == line.capacity());
    assert forall|c: int, pos: nat|
        0 <= c < line.channels.len() && pos < line.capacity() && (c != ch || pos
            != line.wp) implies #[trigger] line.put(ch, sample).at(c, pos) == line.at(c, pos) by {
        assert(line.channels[c].len() == line.capacity());
    }
}

/// The interpolated and the legacy mode share the default advance; the
/// digital mode has its own, which moves the write position on by the whole
/// delay and puts the read position onto it.
pub proof fn lemma_mode_advance(line: DelayLine, delay: nat)
    requires
        line.wf(),
    ensures
        line.advance(Mode::Interpolated, delay) == line.advance_to(delay),
        line.advance(Mode::Legacy, delay) == line.advance_to(delay),
        line.advance(Mode::Digital, delay) == line.advance_digit(delay),
        line.advance_digit(delay).rp == line.advance_digit(delay).wp,
        line.advance_digit(delay).wp == (line.wp as int + delay as int) % (line.capacity() as int),
{
    lemma_mod_bound(line.wp as int + delay as int, line.capacity() as int);
}

/// The digital advance diverges from the default one: unless the delay is a
/// whole number of capacities, the default advance leaves the read position
/// apart from the write position, where the digital advance makes them
/// coincide. A step in the digital mode therefore leaves positions that no
/// step in another mode would have left.
pub proof fn lemma_digital_diverges(line: DelayLine, delay: nat)
    requires
        line.wf(),
        delay % line.capacity() != 0,
    ensures
        line.advance(Mode::Digital, delay).rp == line.advance(Mode::Digital, delay).wp,
        line.advance(Mode::Legacy, delay).rp != line.advance(Mode::Legacy, delay).wp,
        line.advance(Mode::Interpolated, delay).rp != line.advance(Mode::Interpolated, delay).wp,
        line.advance(Mode::Digital, delay) != line.advance(Mode::Legacy, delay),
        line.advance(Mode::Digital, delay) != line.advance(Mode::Interpolated, delay),
{
    let size = line.capacity() as int;
    let rate = line.sample_rate as int;
    let wp = line.advance_to(delay).wp as int;
    let back = (delay as int) % size;
    lemma_mod_bound(line.wp as int + 1, rate);
    lemma_mod_bound(delay as int, size);
    lemma_mod_bound(line.wp as int + delay as int, size);
    lemma_sub_mod_noop_right(wp, delay as int, size);
    if wp >= back {
        lemma_small_mod((wp - back) as nat, size as nat);
    } else {
        lemma_mod_add_multiples_vanish(wp - back, size);
        lemma_small_mod((wp - back + size) as nat, size as nat);
    }
}

/// While frozen, what is written back depends on the wet samples alone: the
/// fed samples, and with them the input, never reach the line.
pub proof fn lemma_frozen_admits_no_input(
    line: DelayLine,
    mode: Mode,
    left: Feed,
    right: Feed,
    other_left: Feed,
    other_right: Feed,
    delay: nat,
)
    requires
        left.wet == other_left.wet,
        right.wet == other_right.wet,
    ensures
        line.commit(mode, true, left, right, delay) == line.commit(
            mode,
            true,
            other_left,
            other_right,
            delay,
        ),
{
}

/// While frozen in the legacy mode the content recirculates: a sample step
/// writes, at the write position of each of the two channels, the very
/// sample it read at the read position, so every sample that the two
/// channels hold afterwards is one that the same channel held before.
pub proof fn lemma_frozen_legacy_recirculates(line: DelayLine, left: Feed, right: Feed, delay: nat)
    requires
        line.wf(),
        line.channels.len() >= 2,
        left.wet == line.peek(0),
        right.wet == line.peek(1),
    ensures
        ({
            let after = line.commit(Mode::Legacy, true, left, right, delay);
            &&& after.at(0, line.wp) == line.at(0, line.rp)
            &&& after.at(1, line.wp) == line.at(1, line.rp)
            &&& forall|ch: int, pos: nat|
                0 <= ch < 2 && pos < line.capacity() ==> #[trigger] after.at(ch, pos) == line.at(
                    ch,
                    pos,
                ) || after.at(ch, pos) == line.at(ch, line.rp)
            &&& forall|ch: int|
                2 <= ch < line.channels.len() ==> #[trigger] after.channels[ch]
                    == line.channels[ch]
        }),
{
    assert(line.channels[0].len() == line.capacity());
    assert(line.channels[1].len() == line.capacity());
}

} // verus!
