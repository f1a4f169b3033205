//! The polling watcher: the variant that probes the session state at a
//! fixed interval and de-duplicates, so that one notification is emitted
//! per actual transition.
//!
//! The probe itself (reading the session's state dictionary and testing
//! for the lock marker) is the embedding application's business; this
//! module decides, for each probe result, whether it must be emitted.

use vstd::prelude::*;

verus! {

/// The values a polling watcher emits over a sequence of probe results:
/// the first observation always, and after that exactly the observations
/// that differ from their predecessor.
pub open spec fn collapse_repeats(obs: Seq<bool>) -> Seq<bool>
    decreases obs.len(),
{
    if obs.len() == 0 {
        Seq::empty()
    } else if obs.len() == 1 {
        seq![obs[0]]
    } else if obs[obs.len() - 1] == obs[obs.len() - 2] {
        collapse_repeats(obs.drop_last())
    } else {
        collapse_repeats(obs.drop_last()).push(obs.last())
    }
}

/// What one probe makes the watcher emit, given the value it last
/// emitted (`None` before the first probe): the observation itself when
/// it differs from that memory, nothing otherwise.
pub open spec fn poll_step_notify(last: Option<bool>, locked: bool) -> Option<bool> {
    if last != Some(locked) {
        Some(locked)
    } else {
        None
    }
}

/// The watcher's memory after it has consumed a sequence of probe
/// results: the most recent observation, or `None` before the first.
pub open spec fn poll_memory(obs: Seq<bool>) -> Option<bool> {
    if obs.len() == 0 {
        None
    } else {
        Some(obs.last())
    }
}

/// The state a polling watcher keeps between probes.
pub struct PollWatcher {
    /// The last value emitted, or `None` before the first observation.
    pub last: Option<bool>,
}

impl PollWatcher {
    /// A watcher that has not observed anything yet.
    pub fn new() -> (w: PollWatcher)
        ensures
            w.last is None,
    {
        PollWatcher { last: None }
    }

    /// Consumes one probe result. A notification comes back exactly when
    /// the observation differs from the last emitted value; the very
    /// first observation is always emitted, whatever it is.
    pub fn observe(&mut self, locked: bool) -> (notify: Option<bool>)
        ensures
            notify == poll_step_notify(old(self).last, locked),
            final(self).last == Some(locked),
    {
        let changed = match self.last {
            None => true,
            Some(prev) => prev != locked,
        };
        self.last = Some(locked);
        if changed {
            Some(locked)
        } else {
            None
        }
    }
}

/// Runs a fresh polling watcher over a whole sequence of probe results
/// and collects what it emits: the de-duplicated observation stream.
pub fn run_polls(observations: &Vec<bool>) -> (notifies: Vec<bool>)
    ensures
        notifies@ == collapse_repeats(observations@),
{
    let mut w = PollWatcher::new();
    let mut notifies: Vec<bool> = Vec::new();
    let mut i: usize = 0;
    while i < observations.len()
        invariant
            i <= observations@.len(),
            notifies@ == collapse_repeats(observations@.take(i as int)),
            w.last == poll_memory(observations@.take(i as int)),
        decreases observations@.len() - i,
    {
        proof {
            lemma_collapse_repeats_step(observations@, i as int);
            if i > 0 {
                assert(observations@.take(i as int).last() == observations@[i as int - 1]);
            }
        }
        let notify = w.observe(observations[i]);
        if let Some(v) = notify {
            notifies.push(v);
        }
        i = i + 1;
        proof {
            assert(observations@.take(i as int).last() == observations@[i as int - 1]);
        }
    }
    proof {
        assert(observations@.take(observations@.len() as int) =~= observations@);
    }
    notifies
}

/// Extending the observations by one element extends the emitted stream
/// by that observation exactly when it is the first or differs from its
/// predecessor.
proof fn lemma_collapse_repeats_step(obs: Seq<bool>, i: int)
    requires
        0 <= i < obs.len(),
    ensures
        collapse_repeats(obs.take(i + 1)) == (if i == 0 || obs[i] != obs[i - 1] {
            collapse_repeats(obs.take(i)).push(obs[i])
        } else {
            collapse_repeats(obs.take(i))
        }),
{
    let t = obs.take(i + 1);
    assert(t.len() == i + 1);
    if i == 0 {
        assert(collapse_repeats(t) == seq![t[0]]);
        assert(obs.take(0) =~= Seq::<bool>::empty());
        assert(collapse_repeats(obs.take(0)) == Seq::<bool>::empty());
        assert(seq![t[0]] =~= Seq::<bool>::empty().push(obs[0]));
    } else {
        assert(t.drop_last() =~= obs.take(i));
        assert(t.last() == obs[i]);
        assert(t[t.len() - 2] == obs[i - 1]);
        if obs[i] == obs[i - 1] {
            assert(collapse_repeats(t) == collapse_repeats(t.drop_last()));
        } else {
            assert(collapse_repeats(t) == collapse_repeats(t.drop_last()).push(t.last()));
        }
    }
}

/// With the history `obs.take(i)` consumed, the i-th observation is
/// emitted if and only if it is the very first one or differs from the
/// observation before it, and the emitted value is the observation
/// itself.
pub proof fn lemma_poll_emits_iff_changed(obs: Seq<bool>, i: int)
    requires
        0 <= i < obs.len(),
    ensures
        poll_step_notify(poll_memory(obs.take(i)), obs[i]) == (if i == 0 || obs[i] != obs[i - 1] {
            Some(obs[i])
        } else {
            None::<bool>
        }),
{
    if i == 0 {
        assert(obs.take(0).len() == 0);
    } else {
        assert(obs.take(i).last() == obs[i - 1]);
    }
}

/// The emitted stream is empty only for an empty observation stream,
/// starts with the first observation, ends with the last one, and never
/// repeats a value in adjacent positions: one notification per actual
/// transition.
pub proof fn lemma_collapse_repeats_properties(obs: Seq<bool>)
    ensures
        (collapse_repeats(obs).len() == 0) <==> (obs.len() == 0),
        obs.len() > 0 ==> collapse_repeats(obs)[0] == obs[0],
        obs.len() > 0 ==> collapse_repeats(obs).last() == obs.last(),
        forall|i: int|
            0 <= i && i + 1 < collapse_repeats(obs).len() ==> #[trigger] collapse_repeats(obs)[i]
                != collapse_repeats(obs)[i + 1],
    decreases obs.len(),
{
    if obs.len() == 0 {
    } else if obs.len() == 1 {
        assert(collapse_repeats(obs) == seq![obs[0]]);
    } else {
        let pre = obs.drop_last();
        lemma_collapse_repeats_properties(pre);
        assert(pre.last() == obs[obs.len() - 2]);
        if obs.last() == obs[obs.len() - 2] {
            assert(collapse_repeats(obs) == collapse_repeats(pre));
        } else {
            let c = collapse_repeats(pre);
            assert(collapse_repeats(obs) == c.push(obs.last()));
            assert(c.len() > 0);
            assert forall|i: int|
                0 <= i && i + 1 < collapse_repeats(obs).len() implies #[trigger] collapse_repeats(
                obs,
            )[i] != collapse_repeats(obs)[i + 1] by {
                if i + 1 < c.len() {
                } else {
                    assert(i + 1 == c.len());
                    assert(collapse_repeats(obs)[i] == c.last());
                    assert(collapse_repeats(obs)[i + 1] == obs.last());
                }
            }
        }
    }
}

} // verus!
