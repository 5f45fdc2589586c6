//! Feeding decoded samples to the serial audio controller, one frame per step.

use vstd::prelude::*;
use crate::i2s::{I2s, frame_commands};
use crate::wav::Samples;

verus! {

/// A 16-bit sample placed in the high half of a 32-bit slot, low half zero:
/// its two's-complement bits shifted left by sixteen.
pub open spec fn widened(sample: i16) -> u32 {
    (if sample < 0 {
        (sample + 65536) * 65536
    } else {
        sample * 65536
    }) as u32
}

/// Widens a sample to the slot width.
pub fn widen(sample: i16) -> (r: u32)
    ensures
        r == widened(sample),
        r % 65536 == 0,
        (r >= 0x8000_0000) == (sample < 0),
{
    let bits: u32 = if sample < 0 {
        (sample as i32 + 65536) as u32
    } else {
        sample as u32
    };
    bits * 65536
}

/// Index of the sample that the next frame comes from: the one at `pos` while
/// any is left, else the first one when cycling through a non-empty source.
pub open spec fn frame_index(n: nat, pos: nat, cycle: bool) -> Option<nat> {
    if pos < n {
        Some(pos)
    } else if cycle && n > 0 {
        Some(0)
    } else {
        None
    }
}

/// A mono sample sent on both channels.
pub open spec fn stereo(sample: i16) -> (u32, u32) {
    (widened(sample), widened(sample))
}

/// The frames that `k` passes of playback send, starting at `pos`; fewer
/// where the samples run out.
pub open spec fn played(samples: Seq<i16>, pos: nat, cycle: bool, k: nat) -> Seq<(u32, u32)>
    decreases k,
{
    if k == 0 {
        Seq::empty()
    } else {
        match frame_index(samples.len(), pos, cycle) {
            Some(i) => seq![stereo(samples[i as int])] + played(samples, i + 1, cycle, (k - 1) as nat),
            None => Seq::empty(),
        }
    }
}

proof fn lemma_played_from(samples: Seq<i16>, pos: nat, k: nat)
    requires
        0 < samples.len(),
        pos <= samples.len(),
    ensures
        played(samples, pos, true, k) == Seq::new(
            k,
            |j: int| stereo(samples[(pos + j) % (samples.len() as int)]),
        ),
    decreases k,
{
    let n = samples.len() as int;
    if k > 0 {
        let i: nat = if pos < n { pos } else { 0 };
        lemma_played_from(samples, i + 1, (k - 1) as nat);
        assert forall|j: int| 0 <= j < k implies #[trigger] played(samples, pos, true, k)[j]
            == stereo(samples[(pos + j) % n]) by {
            if pos < n {
                vstd::arithmetic::div_mod::lemma_small_mod(pos, n as nat);
            } else {
                vstd::arithmetic::div_mod::lemma_mod_add_multiples_vanish(j, n);
                vstd::arithmetic::div_mod::lemma_mod_self_0(n);
                if j > 0 {
                    vstd::arithmetic::div_mod::lemma_mod_add_multiples_vanish(j, n);
                }
            }
        }
        assert(played(samples, pos, true, k) =~= Seq::new(
            k,
            |j: int| stereo(samples[(pos + j) % n]),
        ));
    }
}

/// Cycling through a non-empty source from its first sample, the `j`-th frame
/// sent is sample `j` modulo the number of samples, on both channels: after the
/// last sample playback starts over at the first.
pub proof fn lemma_cycling_wraps(samples: Seq<i16>, k: nat)
    requires
        0 < samples.len(),
    ensures
        played(samples, 0, true, k) == Seq::new(
            k,
            |j: int| stereo(samples[j % (samples.len() as int)]),
        ),
{
    lemma_played_from(samples, 0, k);
    assert(played(samples, 0, true, k) =~= Seq::new(
        k,
        |j: int| stereo(samples[j % (samples.len() as int)]),
    ));
}

/// The playback loop's state: where it stands in the samples, and whether
/// it starts over after the last one.
pub struct Player<'a> {
    source: Samples<'a>,
    cycle: bool,
}

impl<'a> Player<'a> {
    /// The samples played.
    pub closed spec fn samples(&self) -> Seq<i16> {
        self.source.samples()
    }

    /// Index of the sample that plays next, unless the end was reached.
    pub closed spec fn position(&self) -> nat {
        self.source.position()
    }

    /// Whether playback starts over after the last sample.
    pub closed spec fn cycles(&self) -> bool {
        self.cycle
    }

    /// Plays `source` from where it stands, once or over and over.
    pub fn new(source: Samples<'a>, cycle: bool) -> (r: Self)
        ensures
            r.samples() == source.samples(),
            r.position() == source.position(),
            r.cycles() == cycle,
    {
        Player { source, cycle }
    }

    /// The next frame: the next sample widened and duplicated to both
    /// channels; `None` at the end when not cycling or with no samples.
    pub fn next_frame(&mut self) -> (r: Option<(u32, u32)>)
        ensures
            final(self).samples() == old(self).samples(),
            final(self).cycles() == old(self).cycles(),
            match frame_index(old(self).samples().len(), old(self).position(), old(self).cycles()) {
                Some(i) => r == Some(stereo(old(self).samples()[i as int]))
                    && final(self).position() == i + 1,
                None => r is None && final(self).position() == old(self).position(),
            },
    {
        match self.source.next() {
            Some(s) => {
                let w: u32 = widen(s);
                Some((w, w))
            },
            None => {
                if self.cycle && self.source.len() > 0 {
                    self.source.restart();
                    match self.source.next() {
                        Some(s) => {
                            let w: u32 = widen(s);
                            Some((w, w))
                        },
                        None => None,
                    }
                } else {
                    None
                }
            },
        }
    }

    /// One pass of the playback loop. While `play` holds, the next frame goes
    /// to the controller and the result is whether there was one; otherwise
    /// nothing moves and nothing is sent.
    pub fn step(&mut self, out: &mut I2s, play: bool) -> (r: bool)
        requires
            old(out).is_enabled_spec(),
        ensures
            final(self).samples() == old(self).samples(),
            final(self).cycles() == old(self).cycles(),
            final(out).registers_spec() == old(out).registers_spec(),
            !play ==> !r && final(self).position() == old(self).position()
                && final(out).commands() == old(out).commands(),
            play ==> match frame_index(
                old(self).samples().len(),
                old(self).position(),
                old(self).cycles(),
            ) {
                Some(i) => {
                    let (left, right) = stereo(old(self).samples()[i as int]);
                    &&& r
                    &&& final(self).position() == i + 1
                    &&& final(out).commands() == old(out).commands() + frame_commands(left, right)
                },
                None => {
                    &&& !r
                    &&& final(self).position() == old(self).position()
                    &&& final(out).commands() == old(out).commands()
                },
            },
    {
        if !play {
            return false;
        }
        match self.next_frame() {
            Some((left, right)) => {
                out.write(left, right);
                true
            },
            None => false,
        }
    }
}

} // verus!
