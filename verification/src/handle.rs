use vstd::prelude::*;

verus! {

use crate::config::Config;
use crate::config::ConfigError;
use crate::model::StreamCall;
use crate::model::StreamOp;
use crate::model::StretchModel;

/// The verified core of a time-stretch handle.
///
/// A full handle owns exactly one opaque native engine instance; that
/// instance and the float sample buffers that flow through it live with the
/// caller, outside this crate. This core owns everything else: the
/// configuration the engine was built from, and the accounting that turns
/// each streaming call into the exact frame counts the engine is given. The
/// caller performs each engine call with precisely the values returned here,
/// so the values the engine sees are the ones these contracts pin down.
///
/// A handle may be moved freely across threads; driving one handle from two
/// threads at once needs caller-supplied mutual exclusion, since calls that
/// take `&mut self` advance the recorded stream state.
pub struct Stretch {
    config: Config,
    channel_count: usize,
    history: Ghost<Seq<StreamOp>>,
}

impl View for Stretch {
    type V = StretchModel;

    closed spec fn view(&self) -> StretchModel {
        StretchModel { config: self.config, ops: self.history@ }
    }
}

impl Stretch {
    /// Constructors establish this and every method keeps it: the cached
    /// channel count is the configuration's, and it is at least one.
    pub closed spec fn wf(self) -> bool {
        &&& self.config.valid()
        &&& self.channel_count == self.config.spec_channel_count() as usize
    }

    /// Creates a handle core with an explicit FFT window size
    /// (`block_length`) and hop size (`interval`), both in samples, passed
    /// to the engine without derivation. A zero channel count is rejected:
    /// every frame-count derivation divides by the channel count.
    pub fn new(channel_count: u32, block_length: usize, interval: usize) -> (r: Result<
        Stretch,
        ConfigError,
    >)
        ensures
            r is Ok <==> channel_count >= 1,
            r matches Ok(h) ==> h.wf() && h@ == StretchModel::fresh(
                (Config::Explicit { channel_count, block_length, interval }),
            ),
            r matches Err(e) ==> e == ConfigError::ZeroChannelCount,
    {
        if channel_count == 0 {
            return Err(ConfigError::ZeroChannelCount);
        }
        Ok(
            Stretch {
                config: Config::Explicit { channel_count, block_length, interval },
                channel_count: channel_count as usize,
                history: Ghost(Seq::empty()),
            },
        )
    }

    /// Creates a handle core whose window and hop the engine derives from
    /// `sample_rate`, balanced for quality. A zero channel count is rejected.
    pub fn preset_default(channel_count: u32, sample_rate: u32) -> (r: Result<
        Stretch,
        ConfigError,
    >)
        ensures
            r is Ok <==> channel_count >= 1,
            r matches Ok(h) ==> h.wf() && h@ == StretchModel::fresh(
                (Config::PresetDefault { channel_count, sample_rate }),
            ),
            r matches Err(e) ==> e == ConfigError::ZeroChannelCount,
    {
        if channel_count == 0 {
            return Err(ConfigError::ZeroChannelCount);
        }
        Ok(
            Stretch {
                config: Config::PresetDefault { channel_count, sample_rate },
                channel_count: channel_count as usize,
                history: Ghost(Seq::empty()),
            },
        )
    }

    /// Creates a handle core whose window and hop the engine derives from
    /// `sample_rate`, biased toward lower computational cost. A zero channel
    /// count is rejected.
    pub fn preset_cheaper(channel_count: u32, sample_rate: u32) -> (r: Result<
        Stretch,
        ConfigError,
    >)
        ensures
            r is Ok <==> channel_count >= 1,
            r matches Ok(h) ==> h.wf() && h@ == StretchModel::fresh(
                (Config::PresetCheaper { channel_count, sample_rate }),
            ),
            r matches Err(e) ==> e == ConfigError::ZeroChannelCount,
    {
        if channel_count == 0 {
            return Err(ConfigError::ZeroChannelCount);
        }
        Ok(
            Stretch {
                config: Config::PresetCheaper { channel_count, sample_rate },
                channel_count: channel_count as usize,
                history: Ghost(Seq::empty()),
            },
        )
    }

    /// The configuration the handle was constructed with.
    pub fn config(&self) -> (r: Config)
        ensures
            r == self@.config,
    {
        self.config
    }

    /// The channel count every buffer length is divided by.
    pub fn channel_count(&self) -> (r: usize)
        requires
            self.wf(),
        ensures
            r == self@.channels(),
            r >= 1,
    {
        self.channel_count
    }

    /// Duplication: the duplicate carries the same configuration but starts
    /// from freshly rebuilt engine state, not from this handle's accumulated
    /// history. The caller rebuilds the engine by replaying the returned
    /// core's configuration through its matching constructor.
    pub fn duplicate(&self) -> (r: Stretch)
        requires
            self.wf(),
        ensures
            r.wf(),
            r@ == self@.duplicated(),
    {
        Stretch {
            config: self.config,
            channel_count: self.channel_count,
            history: Ghost(Seq::empty()),
        }
    }

    /// Returns the handle to its just-constructed state, discarding the
    /// recorded stream history but not the configuration.
    pub fn reset(&mut self)
        requires
            old(self).wf(),
        ensures
            final(self).wf(),
            final(self)@.config == old(self)@.config,
            final(self)@ == old(self)@.after_call(StreamCall::Reset),
    {
        self.history = Ghost(Seq::empty());
    }

    /// Frame accounting for a pre-roll call made with an interleaved buffer
    /// of `input_len` samples: returns the frame count the engine is given,
    /// the floor of `input_len / channel_count`, and records the pre-roll.
    pub fn seek(&mut self, input_len: usize) -> (frames: usize)
        requires
            old(self).wf(),
        ensures
            final(self).wf(),
            final(self)@.config == old(self)@.config,
            frames == old(self)@.frames_of_len(input_len as nat),
            final(self)@ == old(self)@.after_call((StreamCall::Seek { input_len })),
    {
        let frames: usize = input_len / self.channel_count;
        self.history = Ghost(self.history@.push(StreamOp::Seek { frames: frames as nat }));
        frames
    }

    /// Frame accounting for a pre-roll call whose caller already knows the
    /// exact frame count: the count is passed through unchanged and the
    /// pre-roll is recorded.
    pub fn seek_raw(&mut self, frame_count: usize) -> (frames: usize)
        requires
            old(self).wf(),
        ensures
            final(self).wf(),
            final(self)@.config == old(self)@.config,
            frames == frame_count,
            final(self)@ == old(self)@.after_call((StreamCall::SeekRaw { frames: frame_count })),
    {
        self.history = Ghost(self.history@.push(StreamOp::Seek { frames: frame_count as nat }));
        frame_count
    }

    /// Frame accounting for the core streaming call: an input buffer of
    /// `input_len` samples and an output buffer of `output_len` samples
    /// become independent input and output frame counts, each the floor of
    /// length over channel count; their difference, amortized over a stream,
    /// is the time-stretch effect.
    pub fn process(&mut self, input_len: usize, output_len: usize) -> (r: (usize, usize))
        requires
            old(self).wf(),
        ensures
            final(self).wf(),
            final(self)@.config == old(self)@.config,
            r.0 == old(self)@.frames_of_len(input_len as nat),
            r.1 == old(self)@.frames_of_len(output_len as nat),
            final(self)@ == old(self)@.after_call((StreamCall::Process { input_len, output_len })),
    {
        let input_frames: usize = input_len / self.channel_count;
        let output_frames: usize = output_len / self.channel_count;
        self.history = Ghost(
            self.history@.push(
                StreamOp::Process {
                    input_frames: input_frames as nat,
                    output_frames: output_frames as nat,
                },
            ),
        );
        (input_frames, output_frames)
    }

    /// Frame accounting for a streaming call whose caller already knows both
    /// frame counts: the counts are passed through unchanged and the call is
    /// recorded.
    pub fn process_raw(&mut self, frame_count: usize, output_frame_count: usize) -> (r: (
        usize,
        usize,
    ))
        requires
            old(self).wf(),
        ensures
            final(self).wf(),
            final(self)@.config == old(self)@.config,
            r.0 == frame_count,
            r.1 == output_frame_count,
            final(self)@ == old(self)@.after_call(
                (StreamCall::ProcessRaw {
                    input_frames: frame_count,
                    output_frames: output_frame_count,
                }),
            ),
    {
        self.history = Ghost(
            self.history@.push(
                StreamOp::Process {
                    input_frames: frame_count as nat,
                    output_frames: output_frame_count as nat,
                },
            ),
        );
        (frame_count, output_frame_count)
    }

    /// Frame accounting for draining buffered output at stream end with a
    /// buffer of `output_len` samples: returns the frame count the engine is
    /// asked to emit, the floor of `output_len / channel_count`.
    pub fn flush(&mut self, output_len: usize) -> (frames: usize)
        requires
            old(self).wf(),
        ensures
            final(self).wf(),
            final(self)@.config == old(self)@.config,
            frames == old(self)@.frames_of_len(output_len as nat),
            final(self)@ == old(self)@.after_call((StreamCall::Flush { output_len })),
    {
        let frames: usize = output_len / self.channel_count;
        self.history = Ghost(self.history@.push(StreamOp::Flush { frames: frames as nat }));
        frames
    }

    /// Frame accounting for a drain whose caller already knows the exact
    /// frame count: the count is passed through unchanged and the drain is
    /// recorded.
    pub fn flush_raw(&mut self, frame_count: usize) -> (frames: usize)
        requires
            old(self).wf(),
        ensures
            final(self).wf(),
            final(self)@.config == old(self)@.config,
            frames == frame_count,
            final(self)@ == old(self)@.after_call((StreamCall::FlushRaw { frames: frame_count })),
    {
        self.history = Ghost(self.history@.push(StreamOp::Flush { frames: frame_count as nat }));
        frame_count
    }

    /// The buffer length, in samples, that drains exactly `output_latency`
    /// frames: sized this way, a terminal drain under-produces nothing.
    /// `None` only when that length does not fit in a `usize`.
    pub fn flush_buffer_len(&self, output_latency: usize) -> (r: Option<usize>)
        requires
            self.wf(),
        ensures
            r matches Some(len) ==> len == output_latency * self@.channels()
                && self@.frames_of_len(len as nat) == output_latency,
            r is None ==> output_latency * self@.channels() > usize::MAX,
    {
        if output_latency <= usize::MAX / self.channel_count {
            proof {
                let c = self.channel_count as int;
                let m = usize::MAX as int;
                vstd::arithmetic::div_mod::lemma_fundamental_div_mod(m, c);
                vstd::arithmetic::div_mod::lemma_mod_division_less_than_divisor(m, c);
                vstd::arithmetic::mul::lemma_mul_inequality(output_latency as int, m / c, c);
                vstd::arithmetic::mul::lemma_mul_is_commutative(m / c, c);
                vstd::arithmetic::div_mod::lemma_fundamental_div_mod_converse(
                    (output_latency as int) * c,
                    c,
                    output_latency as int,
                    0,
                );
            }
            let len: usize = output_latency * self.channel_count;
            Some(len)
        } else {
            proof {
                let c = self.channel_count as int;
                let m = usize::MAX as int;
                vstd::arithmetic::div_mod::lemma_fundamental_div_mod(m, c);
                vstd::arithmetic::div_mod::lemma_mod_division_less_than_divisor(m, c);
                vstd::arithmetic::mul::lemma_mul_inequality(m / c + 1, output_latency as int, c);
                vstd::arithmetic::mul::lemma_mul_is_distributive_add_other_way(c, m / c, 1);
                vstd::arithmetic::mul::lemma_mul_is_commutative(m / c, c);
            }
            None
        }
    }

    /// The multiplier and tonality limit handed to the engine by a direct
    /// transpose-factor call: the multiplier unchanged, and the limit itself
    /// when one is given, else the engine's `no_limit` sentinel encoding of
    /// an absent limit. Transpose calls leave the recorded stream state
    /// untouched.
    pub fn set_transpose_factor<T>(
        &mut self,
        multiplier: T,
        tonality_limit: Option<T>,
        no_limit: T,
    ) -> (r: (T, T))
        requires
            old(self).wf(),
        ensures
            final(self).wf(),
            *final(self) == *old(self),
            r.0 == multiplier,
            tonality_limit matches Some(t) ==> r.1 == t,
            tonality_limit is None ==> r.1 == no_limit,
    {
        let limit: T = match tonality_limit {
            Some(t) => t,
            None => no_limit,
        };
        (multiplier, limit)
    }

    /// The semitone count and tonality limit handed to the engine by a
    /// semitone-expressed transpose call: the same sentinel rule as
    /// `set_transpose_factor`, applied to the semitone entry point.
    pub fn set_transpose_factor_semitones<T>(
        &mut self,
        semitones: T,
        tonality_limit: Option<T>,
        no_limit: T,
    ) -> (r: (T, T))
        requires
            old(self).wf(),
        ensures
            final(self).wf(),
            *final(self) == *old(self),
            r.0 == semitones,
            tonality_limit matches Some(t) ==> r.1 == t,
            tonality_limit is None ==> r.1 == no_limit,
    {
        let limit: T = match tonality_limit {
            Some(t) => t,
            None => no_limit,
        };
        (semitones, limit)
    }
}

} // verus!
