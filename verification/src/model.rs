use vstd::prelude::*;

verus! {

use crate::config::Config;

/// One operation fed to the owned engine, abstracted to the values the
/// engine actually receives: frame counts. A call made with a buffer whose
/// length is not a multiple of the channel count records the same operation
/// as one made with the truncated exact length, because the engine is only
/// ever handed the floor-divided frame count.
pub enum StreamOp {
    /// Pre-roll: frames fed to warm up internal history, producing no output.
    Seek { frames: nat },
    /// Frames consumed from the input stream and frames produced on the
    /// output stream in one call.
    Process { input_frames: nat, output_frames: nat },
    /// Frames drained from buffered output at stream end.
    Flush { frames: nat },
}

/// One streaming call as the caller makes it: interleaved variants carry
/// buffer lengths in samples, raw variants carry explicit frame counts.
pub enum StreamCall {
    Seek { input_len: usize },
    SeekRaw { frames: usize },
    Process { input_len: usize, output_len: usize },
    ProcessRaw { input_frames: usize, output_frames: usize },
    Flush { output_len: usize },
    FlushRaw { frames: usize },
    Reset,
}

/// The abstract state of a handle: its immutable configuration and the
/// sequence of operations fed to the owned engine since construction or the
/// last reset. The engine's signal state is a function of exactly these two,
/// so two handles with equal models are interchangeable for every later call.
pub struct StretchModel {
    pub config: Config,
    pub ops: Seq<StreamOp>,
}

impl StretchModel {
    /// The state of a handle that was just constructed: the chosen
    /// configuration and no accumulated history.
    pub open spec fn fresh(config: Config) -> StretchModel {
        StretchModel { config, ops: Seq::empty() }
    }

    /// The model is usable only when its configuration is.
    pub open spec fn valid(self) -> bool {
        self.config.valid()
    }

    /// The channel count all frame arithmetic divides by.
    pub open spec fn channels(self) -> nat {
        self.config.spec_channel_count() as nat
    }

    /// Frames carried by an interleaved buffer of `len` samples: floor
    /// division, so a trailing remainder of fewer than `channels()` samples
    /// is silently ignored.
    pub open spec fn frames_of_len(self, len: nat) -> nat {
        len / self.channels()
    }

    /// The state after duplication: the duplicate keeps the configuration
    /// and starts from engine state rebuilt by that configuration's
    /// constructor, not from the original's accumulated history.
    pub open spec fn duplicated(self) -> StretchModel {
        StretchModel::fresh(self.config)
    }

    /// The state with one more engine operation recorded.
    pub open spec fn push_op(self, op: StreamOp) -> StretchModel {
        StretchModel { config: self.config, ops: self.ops.push(op) }
    }

    /// The state after one streaming call. Buffer lengths are reduced to
    /// frame counts here, so calls that differ only in a sub-frame trailing
    /// remainder lead to the same state.
    pub open spec fn after_call(self, call: StreamCall) -> StretchModel {
        match call {
            StreamCall::Seek { input_len } => self.push_op(
                StreamOp::Seek { frames: self.frames_of_len(input_len as nat) },
            ),
            StreamCall::SeekRaw { frames } => self.push_op(
                StreamOp::Seek { frames: frames as nat },
            ),
            StreamCall::Process { input_len, output_len } => self.push_op(
                StreamOp::Process {
                    input_frames: self.frames_of_len(input_len as nat),
                    output_frames: self.frames_of_len(output_len as nat),
                },
            ),
            StreamCall::ProcessRaw { input_frames, output_frames } => self.push_op(
                StreamOp::Process {
                    input_frames: input_frames as nat,
                    output_frames: output_frames as nat,
                },
            ),
            StreamCall::Flush { output_len } => self.push_op(
                StreamOp::Flush { frames: self.frames_of_len(output_len as nat) },
            ),
            StreamCall::FlushRaw { frames } => self.push_op(
                StreamOp::Flush { frames: frames as nat },
            ),
            StreamCall::Reset => StretchModel::fresh(self.config),
        }
    }

    /// The state after a whole call sequence, first call first.
    pub open spec fn after_calls(self, calls: Seq<StreamCall>) -> StretchModel
        decreases calls.len(),
    {
        if calls.len() == 0 {
            self
        } else {
            self.after_call(calls[0]).after_calls(calls.drop_first())
        }
    }
}

} // verus!
