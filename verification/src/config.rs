//! Framebuffer configuration selection.
//!
//! The platform reports a sequence of candidate configurations; the selector
//! folds over them from the left and keeps the candidate that either first
//! brings transparency support or strictly raises the sample count. The fold
//! is intentionally non-lexicographic: a later opaque candidate with more
//! samples displaces an accumulator that has transparency, because the two
//! tests are evaluated independently on each step.

use vstd::prelude::*;

use crate::error::LifecycleError;

verus! {

/// What the selector reads of a platform framebuffer configuration: the
/// multisample count, whether the configuration supports transparency, and
/// the candidate's position in the sequence the platform handed out (so the
/// host can map the winner back to the platform object it stands for).
#[derive(Clone, Copy, Debug, PartialEq, Eq, Structural)]
pub struct GlConfig {
    /// Number of multisample buffers samples.
    pub samples: u8,
    /// Whether the configuration supports window transparency.
    pub transparent: bool,
    /// Position of this candidate in the enumeration it came from.
    pub index: usize,
}

/// One step of the selection fold: the candidate displaces the accumulator
/// when it adds transparency the accumulator lacks, or when it has strictly
/// more samples.
pub open spec fn prefer(accum: GlConfig, candidate: GlConfig) -> GlConfig {
    if (candidate.transparent && !accum.transparent) || candidate.samples > accum.samples {
        candidate
    } else {
        accum
    }
}

/// The configuration a left fold of [`prefer`] over `s` settles on, starting
/// from the first element.
pub open spec fn pick_from(s: Seq<GlConfig>) -> GlConfig
    recommends
        s.len() > 0,
    decreases s.len(),
{
    if s.len() <= 1 {
        s[0]
    } else {
        prefer(pick_from(s.drop_last()), s.last())
    }
}

/// Selects the configuration to use for the whole process lifetime.
///
/// Returns the fold result for a non-empty sequence and
/// `ConfigSelectionEmpty` for an empty one.
pub fn gl_config_picker(configs: &Vec<GlConfig>) -> (r: Result<GlConfig, LifecycleError>)
    ensures
        configs@.len() > 0 <==> r is Ok,
        r matches Ok(c) ==> c == pick_from(configs@),
        r matches Err(e) ==> e == LifecycleError::ConfigSelectionEmpty,
{
    if configs.len() == 0 {
        return Err(LifecycleError::ConfigSelectionEmpty);
    }
    let mut accum: GlConfig = configs[0];
    let mut i: usize = 1;
    while i < configs.len()
        invariant
            1 <= i <= configs@.len(),
            accum == pick_from(configs@.take(i as int)),
        decreases configs@.len() - i,
    {
        let candidate = configs[i];
        proof {
            assert(configs@.take(i + 1).drop_last() =~= configs@.take(i as int));
            assert(configs@.take(i + 1).last() == configs@[i as int]);
        }
        if (candidate.transparent && !accum.transparent) || candidate.samples > accum.samples {
            accum = candidate;
        }
        i = i + 1;
    }
    proof {
        assert(configs@.take(configs@.len() as int) =~= configs@);
    }
    Ok(accum)
}

/// The selector is deterministic: equal input sequences settle on the same
/// configuration. (The executable selector is pinned to [`pick_from`], so two
/// calls on equal inputs return the same value.)
pub proof fn lemma_picker_deterministic(a: Seq<GlConfig>, b: Seq<GlConfig>)
    requires
        a == b,
    ensures
        pick_from(a) == pick_from(b),
{
}

/// The selector never invents a configuration: for a non-empty sequence the
/// fold result is one of its elements.
pub proof fn lemma_pick_from_is_member(s: Seq<GlConfig>)
    requires
        s.len() > 0,
    ensures
        s.contains(pick_from(s)),
    decreases s.len(),
{
    if s.len() <= 1 {
        assert(s[0] == pick_from(s));
    } else {
        lemma_pick_from_is_member(s.drop_last());
        let prev = pick_from(s.drop_last());
        if pick_from(s) == s.last() {
            assert(s[s.len() - 1] == pick_from(s));
        } else {
            assert(pick_from(s) == prev);
            let j = choose|j: int| 0 <= j < s.drop_last().len() && s.drop_last()[j] == prev;
            assert(s[j] == prev);
        }
    }
}

} // verus!
