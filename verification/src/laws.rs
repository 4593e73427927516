use vstd::prelude::*;

verus! {

use vstd::arithmetic::div_mod::lemma_fundamental_div_mod;
use vstd::arithmetic::div_mod::lemma_fundamental_div_mod_converse;
use vstd::arithmetic::mul::lemma_mul_is_commutative;
use crate::config::Config;
use crate::model::StreamCall;
use crate::model::StreamOp;
use crate::model::StretchModel;

/// Construction determinism: a handle's state is a function of its
/// configuration and the calls made on it alone. Two handles built from the
/// same configuration and driven by the same call sequence are in the same
/// state, and each method's contract pins every value handed to the engine
/// as a function of that state and the call's arguments.
pub proof fn lemma_construction_deterministic(
    config: Config,
    a: StretchModel,
    b: StretchModel,
    calls: Seq<StreamCall>,
)
    requires
        a == StretchModel::fresh(config),
        b == StretchModel::fresh(config),
    ensures
        a.after_calls(calls) == b.after_calls(calls),
{
}

/// Duplication resets state, not configuration: a duplicate keeps the
/// configuration verbatim, starts with no accumulated history, and behaves
/// on every later call sequence exactly as a freshly constructed handle of
/// the same configuration does — not as a continuation of the original.
pub proof fn lemma_duplicate_resets_state_not_config(m: StretchModel, calls: Seq<StreamCall>)
    ensures
        m.duplicated().config == m.config,
        m.duplicated().ops == Seq::<StreamOp>::empty(),
        m.duplicated().after_calls(calls) == StretchModel::fresh(m.config).after_calls(calls),
{
}

/// Latency sizing: a drain buffer of exactly `latency × channels()` samples
/// asks the engine for exactly `latency` frames — the floor division of the
/// accounting drops nothing, so a flush sized by the reported output latency
/// never under-produces.
pub proof fn lemma_flush_latency_sizing(m: StretchModel, latency: nat)
    requires
        m.valid(),
    ensures
        m.frames_of_len(latency * m.channels()) == latency,
{
    lemma_fundamental_div_mod_converse(
        (latency * m.channels()) as int,
        m.channels() as int,
        latency as int,
        0,
    );
}

/// Frame-count floor division: a call whose buffer carries a trailing
/// remainder shorter than one frame is the same call as one made with the
/// exact whole-frame length — the remainder is ignored, no error is raised,
/// and the resulting state is identical.
pub proof fn lemma_remainder_ignored(
    m: StretchModel,
    exact_len: usize,
    rem: usize,
    other_len: usize,
)
    requires
        m.valid(),
        exact_len as int % (m.channels() as int) == 0,
        rem < m.channels(),
        exact_len + rem <= usize::MAX,
    ensures
        m.frames_of_len((exact_len + rem) as nat) == m.frames_of_len(exact_len as nat),
        m.after_call((StreamCall::Seek { input_len: (exact_len + rem) as usize }))
            == m.after_call((StreamCall::Seek { input_len: exact_len })),
        m.after_call(
            (StreamCall::Process { input_len: (exact_len + rem) as usize, output_len: other_len }),
        ) == m.after_call((StreamCall::Process { input_len: exact_len, output_len: other_len })),
        m.after_call(
            (StreamCall::Process { input_len: other_len, output_len: (exact_len + rem) as usize }),
        ) == m.after_call((StreamCall::Process { input_len: other_len, output_len: exact_len })),
        m.after_call((StreamCall::Flush { output_len: (exact_len + rem) as usize }))
            == m.after_call((StreamCall::Flush { output_len: exact_len })),
{
    let c = m.channels() as int;
    let q = exact_len as int / c;
    lemma_fundamental_div_mod(exact_len as int, c);
    lemma_mul_is_commutative(c, q);
    lemma_fundamental_div_mod_converse(exact_len as int + rem as int, c, q, rem as int);
}

/// Idempotent reset: resetting returns the handle to the state of a freshly
/// constructed handle of the same configuration, so a drain right after a
/// reset is the same call, against the same state, as a drain right after
/// construction.
pub proof fn lemma_reset_like_fresh(m: StretchModel, output_len: usize)
    ensures
        m.after_call(StreamCall::Reset) == StretchModel::fresh(m.config),
        m.after_call(StreamCall::Reset).after_call((StreamCall::Flush { output_len }))
            == StretchModel::fresh(m.config).after_call((StreamCall::Flush { output_len })),
{
}

} // verus!
