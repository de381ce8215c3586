//! The delay line: per-channel circular stores behind one shared read position
//! and one shared write position.

use vstd::prelude::*;

verus! {

/// Seconds of audio that every channel store can hold.
pub const MAX_DELAY_SECONDS: usize = 2;

/// Mathematical model of a delay line.
///
/// Every channel is read at `rp` and written at `wp`: the two positions are
/// shared, so the channels can never be delayed independently.
pub struct DelayLine {
    /// Whole samples per second.
    pub sample_rate: nat,
    /// One store per channel, each holding sample bit patterns.
    pub channels: Seq<Seq<u32>>,
    /// Position that reads take their sample from.
    pub rp: nat,
    /// Position that writes place their sample at.
    pub wp: nat,
}

impl DelayLine {
    /// Length of every channel store.
    pub open spec fn capacity(self) -> nat {
        MAX_DELAY_SECONDS as nat * self.sample_rate
    }

    /// A line that can process samples: at least one channel, a positive
    /// rate, stores of equal length, and both positions inside the stores.
    pub open spec fn wf(self) -> bool {
        &&& self.sample_rate >= 1
        &&& self.channels.len() >= 1
        &&& forall|ch: int|
            0 <= ch < self.channels.len() ==> (#[trigger] self.channels[ch]).len()
                == self.capacity()
        &&& self.rp < self.capacity()
        &&& self.wp < self.capacity()
    }

    /// A line that has not been configured yet: no rate, no channels.
    pub open spec fn unconfigured() -> DelayLine {
        DelayLine { sample_rate: 0, channels: Seq::empty(), rp: 0, wp: 0 }
    }

    /// The line right after configuration: `num_channels` silent stores of
    /// two seconds each, both positions at the start.
    pub open spec fn configured(num_channels: nat, sample_rate: nat) -> DelayLine {
        DelayLine {
            sample_rate,
            channels: Seq::new(
                num_channels,
                |ch: int| Seq::new(MAX_DELAY_SECONDS as nat * sample_rate, |i: int| 0u32),
            ),
            rp: 0,
            wp: 0,
        }
    }

    /// The read position one step on, wrapped at the sample rate rather
    /// than at the capacity: reads stay inside the first second of a store.
    pub open spec fn stepped_rp(self) -> nat {
        ((self.rp as int + 1) % (self.sample_rate as int)) as nat
    }

    /// The line after a read has stepped its read position.
    pub open spec fn step_read(self) -> DelayLine {
        DelayLine { rp: self.stepped_rp(), ..self }
    }

    /// Position just before the read position, wrapped at the capacity.
    pub open spec fn prev_pos(self) -> nat {
        ((self.rp as int - 1) % (self.capacity() as int)) as nat
    }

    /// Position just after the read position, wrapped at the capacity.
    pub open spec fn next_pos(self) -> nat {
        ((self.rp as int + 1) % (self.capacity() as int)) as nat
    }

    /// The sample of channel `ch` at position `pos`.
    pub open spec fn at(self, ch: int, pos: nat) -> u32 {
        self.channels[ch][pos as int]
    }

    /// The sample of channel `ch` at the read position.
    pub open spec fn peek(self, ch: int) -> u32 {
        self.at(ch, self.rp)
    }

    /// The sample of channel `ch` at the read position together with the
    /// one before it.
    pub open spec fn taps_before(self, ch: int) -> Taps {
        Taps { here: self.peek(ch), beside: self.at(ch, self.prev_pos()) }
    }

    /// The sample of channel `ch` at the read position together with the
    /// one after it.
    pub open spec fn taps_after(self, ch: int) -> Taps {
        Taps { here: self.peek(ch), beside: self.at(ch, self.next_pos()) }
    }

    /// The line after `sample` has been placed at the write position of
    /// channel `ch`. Nothing else changes.
    pub open spec fn put(self, ch: int, sample: u32) -> DelayLine {
        DelayLine {
            channels: self.channels.update(ch, self.channels[ch].update(self.wp as int, sample)),
            ..self
        }
    }

    /// The line after the default advance by a delay of `delay` whole
    /// samples: the write position steps on, wrapped at the sample rate, and
    /// the read position follows it `delay` samples behind, wrapped at the
    /// capacity.
    pub open spec fn advance_to(self, delay: nat) -> DelayLine {
        let wp = ((self.wp as int + 1) % (self.sample_rate as int)) as nat;
        let rp = ((wp as int - delay as int) % (self.capacity() as int)) as nat;
        DelayLine { wp, rp, ..self }
    }

    /// The line after the digital advance by a delay of `delay` whole
    /// samples: the write position jumps on by the whole delay, wrapped at
    /// the capacity, and the read position lands on it.
    pub open spec fn advance_digit(self, delay: nat) -> DelayLine {
        let wp = ((self.wp as int + delay as int) % (self.capacity() as int)) as nat;
        DelayLine { wp, rp: wp, ..self }
    }
}

/// The two samples that an interpolating read hands out.
#[derive(Clone, Copy, Debug, PartialEq, Eq, Structural)]
pub struct Taps {
    /// The sample at the read position.
    pub here: u32,
    /// The sample beside it: the one before for the softened read, the one
    /// after for the linear read.
    pub beside: u32,
}

/// A delay line over heap-allocated channel stores.
///
/// A fresh line is unconfigured: it has no channels and cannot process
/// samples until [`DelayBuffer::resize`] has configured it.
#[derive(Debug)]
pub struct DelayBuffer {
    sample_rate: usize,
    buffer: Vec<Vec<u32>>,
    buffer_size: usize,
    rp: usize,
    wp: usize,
}

impl View for DelayBuffer {
    type V = DelayLine;

    closed spec fn view(&self) -> DelayLine {
        DelayLine {
            sample_rate: self.sample_rate as nat,
            channels: Seq::new(self.buffer@.len(), |ch: int| self.buffer@[ch]@),
            rp: self.rp as nat,
            wp: self.wp as nat,
        }
    }
}

impl Default for DelayBuffer {
    /// An unconfigured line.
    fn default() -> (line: DelayBuffer)
        ensures
            line@ == DelayLine::unconfigured(),
    {
        let line = DelayBuffer { sample_rate: 0, buffer: Vec::new(), buffer_size: 0, rp: 0, wp: 0 };
        assert(line@.channels =~= DelayLine::unconfigured().channels);
        line
    }
}

impl DelayBuffer {
    /// Every value of the type is either unconfigured or a well-formed line
    /// whose cached store length is in step with its rate.
    #[verifier::type_invariant]
    spec fn inv(&self) -> bool {
        &&& self.buffer_size == MAX_DELAY_SECONDS * self.sample_rate
        &&& forall|ch: int|
            0 <= ch < self.buffer@.len() ==> (#[trigger] self.buffer@[ch])@.len()
                == self.buffer_size
        &&& if self.sample_rate == 0 {
            self.buffer@.len() == 0 && self.rp == 0 && self.wp == 0
        } else {
            self.buffer@.len() >= 1 && self.rp < self.buffer_size && self.wp < self.buffer_size
        }
    }

    /// Whether the line has been configured and can process samples.
    pub fn is_configured(&self) -> (configured: bool)
        ensures
            configured == self@.wf(),
    {
        proof {
            use_type_invariant(self);
            self.lemma_view();
        }
        self.sample_rate >= 1
    }

    /// Whole samples per second that the line was configured for.
    pub fn sample_rate(&self) -> (rate: usize)
        ensures
            rate == self@.sample_rate,
    {
        self.sample_rate
    }

    /// Number of channels.
    pub fn num_channels(&self) -> (count: usize)
        ensures
            count == self@.channels.len(),
    {
        self.buffer.len()
    }

    /// Length of every channel store.
    pub fn capacity(&self) -> (size: usize)
        ensures
            size == self@.capacity(),
    {
        proof {
            use_type_invariant(self);
        }
        self.buffer_size
    }

    /// Position that reads take their sample from.
    pub fn read_position(&self) -> (rp: usize)
        ensures
            rp == self@.rp,
    {
        self.rp
    }

    /// Position that writes place their sample at.
    pub fn write_position(&self) -> (wp: usize)
        ensures
            wp == self@.wp,
    {
        self.wp
    }

    /// Configures the line for `num_channels` channels at `sample_rate` whole
    /// samples per second: every store is allocated afresh and silent, both
    /// positions return to the start.
    pub fn resize(&mut self, num_channels: usize, sample_rate: usize)
        requires
            num_channels >= 1,
            sample_rate >= 1,
            MAX_DELAY_SECONDS * sample_rate <= usize::MAX,
        ensures
            final(self)@ == DelayLine::configured(num_channels as nat, sample_rate as nat),
            final(self)@.wf(),
    {
        let size: usize = MAX_DELAY_SECONDS * sample_rate;
        let mut stores: Vec<Vec<u32>> = Vec::new();
        let mut ch: usize = 0;
        while ch < num_channels
            invariant
                ch <= num_channels,
                stores@.len() == ch,
                forall|c: int|
                    0 <= c < ch ==> (#[trigger] stores@[c])@ == Seq::new(
                        size as nat,
                        |i: int| 0u32,
                    ),
            decreases num_channels - ch,
        {
            let store: Vec<u32> = Self::silent_store(size);
            stores.push(store);
            ch = ch + 1;
        }
        *self = DelayBuffer { sample_rate, buffer: stores, buffer_size: size, rp: 0, wp: 0 };
        assert(self@.channels =~= DelayLine::configured(
            num_channels as nat,
            sample_rate as nat,
        ).channels);
    }

    /// Configures the line as [`DelayBuffer::resize`] does where it can, and
    /// rejects what it cannot: no channel, a rate below one sample per
    /// second, or stores too long to address. A rejected line is left
    /// unconfigured and cannot process samples until it is configured anew.
    pub fn configure(&mut self, num_channels: usize, sample_rate: usize) -> (accepted: bool)
        ensures
            accepted == (num_channels >= 1 && sample_rate >= 1 && MAX_DELAY_SECONDS * sample_rate
                <= usize::MAX),
            accepted ==> final(self)@ == DelayLine::configured(
                num_channels as nat,
                sample_rate as nat,
            ),
            !accepted ==> final(self)@ == DelayLine::unconfigured(),
            accepted == final(self)@.wf(),
    {
        if num_channels >= 1 && sample_rate >= 1 && sample_rate <= usize::MAX / MAX_DELAY_SECONDS {
            self.resize(num_channels, sample_rate);
            true
        } else {
            *self = DelayBuffer::default();
            false
        }
    }

    /// Steps the read position and returns the sample of channel `ch_idx`
    /// found there.
    pub fn read(&mut self, ch_idx: usize) -> (sample: u32)
        requires
            old(self)@.wf(),
            ch_idx < old(self)@.channels.len(),
        ensures
            final(self)@ == old(self)@.step_read(),
            final(self)@.wf(),
            sample == final(self)@.peek(ch_idx as int),
    {
        self.step_read();
        self.read_wrong(ch_idx)
    }

    /// Returns the sample of channel `ch_idx` at the read position and
    /// leaves the line as it is.
    pub fn read_wrong(&mut self, ch_idx: usize) -> (sample: u32)
        requires
            old(self)@.wf(),
            ch_idx < old(self)@.channels.len(),
        ensures
            final(self)@ == old(self)@,
            sample == old(self)@.peek(ch_idx as int),
    {
        self.peek(ch_idx)
    }

    /// Steps the read position and returns, for channel `ch_idx`, the sample
    /// found there together with the one before it.
    pub fn read_inter(&mut self, ch_idx: usize) -> (taps: Taps)
        requires
            old(self)@.wf(),
            ch_idx < old(self)@.channels.len(),
        ensures
            final(self)@ == old(self)@.step_read(),
            final(self)@.wf(),
            taps == final(self)@.taps_before(ch_idx as int),
    {
        self.step_read();
        self.peek_inter(ch_idx)
    }

    /// Steps the read position and returns, for channel `ch_idx`, the sample
    /// found there together with the one after it.
    pub fn read_lin(&mut self, ch_idx: usize) -> (taps: Taps)
        requires
            old(self)@.wf(),
            ch_idx < old(self)@.channels.len(),
        ensures
            final(self)@ == old(self)@.step_read(),
            final(self)@.wf(),
            taps == final(self)@.taps_after(ch_idx as int),
    {
        self.step_read();
        self.peek_lin(ch_idx)
    }

    /// Places `sample` at the write position of channel `ch_idx`.
    pub fn write(&mut self, ch_idx: usize, sample: u32)
        requires
            old(self)@.wf(),
            ch_idx < old(self)@.channels.len(),
        ensures
            final(self)@ == old(self)@.put(ch_idx as int, sample),
            final(self)@.wf(),
    {
        proof {
            use_type_invariant(&*self);
            self.lemma_view();
        }
        let wp: usize = self.wp;
        Self::store_sample(&mut self.buffer, ch_idx, wp, sample);
        proof {
            self.lemma_view();
            assert(self@.channels =~= old(self)@.put(ch_idx as int, sample).channels);
        }
    }

    /// Default advance by a delay of `delay` whole samples: steps the write
    /// position, wrapped at the sample rate, and sets the read position
    /// `delay` samples behind it, wrapped at the capacity.
    pub fn advance_to(&mut self, delay: usize)
        requires
            old(self)@.wf(),
        ensures
            final(self)@ == old(self)@.advance_to(delay as nat),
            final(self)@.wf(),
    {
        proof {
            use_type_invariant(&*self);
            self.lemma_view();
        }
        let size: usize = self.buffer_size;
        let wp: usize = (self.wp + 1) % self.sample_rate;
        let back: usize = delay % size;
        let rp: usize = if wp >= back {
            wp - back
        } else {
            size - (back - wp)
        };
        proof {
            vstd::arithmetic::div_mod::lemma_sub_mod_noop_right(
                wp as int,
                delay as int,
                size as int,
            );
            if wp < back {
                vstd::arithmetic::div_mod::lemma_mod_add_multiples_vanish(
                    wp - back,
                    size as int,
                );
            }
            vstd::arithmetic::div_mod::lemma_small_mod(rp as nat, size as nat);
        }
        self.wp = wp;
        self.rp = rp;
        proof {
            self.lemma_view();
        }
    }

    /// Digital advance by a delay of `delay` whole samples: moves the write
    /// position on by the whole delay, wrapped at the capacity, and sets the
    /// read position onto it.
    pub fn advance_digit(&mut self, delay: usize)
        requires
            old(self)@.wf(),
        ensures
            final(self)@ == old(self)@.advance_digit(delay as nat),
            final(self)@.wf(),
    {
        proof {
            use_type_invariant(&*self);
            self.lemma_view();
        }
        let size: usize = self.buffer_size;
        let step: usize = delay % size;
        let room: usize = size - self.wp;
        let wp: usize = if step >= room {
            step - room
        } else {
            self.wp + step
        };
        proof {
            vstd::arithmetic::div_mod::lemma_add_mod_noop_right(
                self.wp as int,
                delay as int,
                size as int,
            );
            if step >= room {
                vstd::arithmetic::div_mod::lemma_mod_sub_multiples_vanish(
                    self.wp + step,
                    size as int,
                );
            }
            vstd::arithmetic::div_mod::lemma_small_mod(wp as nat, size as nat);
        }
        self.wp = wp;
        self.rp = wp;
        proof {
            self.lemma_view();
        }
    }

    /// Moves the read position one step on, wrapped at the sample rate.
    pub fn step_read(&mut self)
        requires
            old(self)@.wf(),
        ensures
            final(self)@ == old(self)@.step_read(),
            final(self)@.wf(),
    {
        proof {
            use_type_invariant(&*self);
            self.lemma_view();
        }
        self.rp = (self.rp + 1) % self.sample_rate;
        proof {
            self.lemma_view();
        }
    }

    /// Returns the sample of channel `ch_idx` at position `pos`.
    pub fn sample(&self, ch_idx: usize, pos: usize) -> (sample: u32)
        requires
            self@.wf(),
            ch_idx < self@.channels.len(),
            pos < self@.capacity(),
        ensures
            sample == self@.at(ch_idx as int, pos as nat),
    {
        proof {
            use_type_invariant(self);
            self.lemma_view();
        }
        self.buffer[ch_idx][pos]
    }

    /// Returns the sample of channel `ch_idx` at the read position.
    pub fn peek(&self, ch_idx: usize) -> (sample: u32)
        requires
            self@.wf(),
            ch_idx < self@.channels.len(),
        ensures
            sample == self@.peek(ch_idx as int),
    {
        proof {
            use_type_invariant(self);
            self.lemma_view();
        }
        self.buffer[ch_idx][self.rp]
    }

    /// Returns, for channel `ch_idx`, the sample at the read position
    /// together with the one before it, and leaves the line as it is.
    pub fn peek_inter(&self, ch_idx: usize) -> (taps: Taps)
        requires
            self@.wf(),
            ch_idx < self@.channels.len(),
        ensures
            taps == self@.taps_before(ch_idx as int),
    {
        proof {
            use_type_invariant(self);
            self.lemma_view();
        }
        let before: usize = if self.rp == 0 {
            self.buffer_size - 1
        } else {
            self.rp - 1
        };
        proof {
            if self.rp == 0 {
                vstd::arithmetic::div_mod::lemma_mod_add_multiples_vanish(
                    -1,
                    self.buffer_size as int,
                );
            }
            vstd::arithmetic::div_mod::lemma_small_mod(before as nat, self.buffer_size as nat);
        }
        Taps { here: self.buffer[ch_idx][self.rp], beside: self.buffer[ch_idx][before] }
    }

    /// Returns, for channel `ch_idx`, the sample at the read position
    /// together with the one after it, and leaves the line as it is.
    pub fn peek_lin(&self, ch_idx: usize) -> (taps: Taps)
        requires
            self@.wf(),
            ch_idx < self@.channels.len(),
        ensures
            taps == self@.taps_after(ch_idx as int),
    {
        proof {
            use_type_invariant(self);
            self.lemma_view();
        }
        let after: usize = if self.rp == self.buffer_size - 1 {
            0
        } else {
            self.rp + 1
        };
        proof {
            if self.rp == self.buffer_size - 1 {
                vstd::arithmetic::div_mod::lemma_mod_sub_multiples_vanish(
                    self.buffer_size as int,
                    self.buffer_size as int,
                );
            }
            vstd::arithmetic::div_mod::lemma_small_mod(after as nat, self.buffer_size as nat);
        }
        Taps { here: self.buffer[ch_idx][self.rp], beside: self.buffer[ch_idx][after] }
    }

    /// How the model's channels mirror the stores.
    proof fn lemma_view(&self)
        ensures
            self@.channels.len() == self.buffer@.len(),
            forall|ch: int|
                0 <= ch < self.buffer@.len() ==> #[trigger] self@.channels[ch]
                    == self.buffer@[ch]@,
            self@.sample_rate == self.sample_rate,
            self@.rp == self.rp,
            self@.wp == self.wp,
    {
    }

    /// Places `sample` at position `pos` of store `ch` and leaves every
    /// other sample and every length as it is.
    fn store_sample(stores: &mut Vec<Vec<u32>>, ch: usize, pos: usize, sample: u32)
        requires
            ch < old(stores)@.len(),
            pos < old(stores)@[ch as int]@.len(),
        ensures
            final(stores)@.len() == old(stores)@.len(),
            final(stores)@[ch as int]@ == old(stores)@[ch as int]@.update(pos as int, sample),
            forall|c: int|
                0 <= c < old(stores)@.len() && c != ch ==> #[trigger] final(stores)@[c] == old(
                    stores,
                )@[c],
        no_unwind
    {
        stores[ch][pos] = sample;
    }

    /// A store of `size` silent samples.
    fn silent_store(size: usize) -> (store: Vec<u32>)
        ensures
            store@ == Seq::new(size as nat, |i: int| 0u32),
    {
        let mut store: Vec<u32> = Vec::new();
        let mut i: usize = 0;
        while i < size
            invariant
                i <= size,
                store@ == Seq::new(i as nat, |k: int| 0u32),
            decreases size - i,
        {
            store.push(0u32);
            i = i + 1;
        }
        store
    }
}

} // verus!
