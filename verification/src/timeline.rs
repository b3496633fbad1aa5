use vstd::prelude::*;

verus! {

/// The order in which the waves of a level come. The caller keeps the waves (what each
/// spawns and how long after it the next one comes) and the clock; the timeline says which
/// wave is due when the clock finishes.
pub struct WaveTimeline {
    len: usize,
    index: usize,
    finished: bool,
    skipping: bool,
}

/// The wave that a tick brings out of a timeline with `len` waves at position `index`, the new
/// position, and whether the timeline is finished after it.
pub open spec fn wave_step(len: nat, index: nat, finished: bool, just_finished: bool) -> (Option<nat>, nat, bool) {
    if !just_finished {
        (None, index, finished)
    } else if index < len {
        (Some(index), index + 1, finished)
    } else {
        (None, index, true)
    }
}

/// The waves brought out by `n` ticks on which the clock finished, from position `index`.
pub open spec fn waves_released(len: nat, index: nat, n: nat) -> Seq<Option<nat>>
    decreases n,
{
    if n == 0 {
        Seq::empty()
    } else {
        let (w, next, _) = wave_step(len, index, false, true);
        seq![w] + waves_released(len, next, (n - 1) as nat)
    }
}

impl WaveTimeline {
    #[verifier::type_invariant]
    spec fn inv(self) -> bool {
        self.index <= self.len
    }

    /// The number of waves.
    pub closed spec fn spec_len(self) -> nat {
        self.len as nat
    }

    /// How many waves have been released.
    pub closed spec fn spec_index(self) -> nat {
        self.index as nat
    }

    /// Whether a tick has found no wave left.
    pub closed spec fn spec_finished(self) -> bool {
        self.finished
    }

    /// Whether the timeline is being fast-forwarded.
    pub closed spec fn spec_skipping(self) -> bool {
        self.skipping
    }

    /// A timeline of `len` waves, none released yet.
    pub fn new(len: usize) -> (t: Self)
        ensures
            t.spec_len() == len,
            t.spec_index() == 0,
            !t.spec_finished(),
            !t.spec_skipping(),
    {
        WaveTimeline { len, index: 0, finished: false, skipping: false }
    }

    /// The same timeline, fast-forwarded until the caller's skip clock runs out.
    pub fn skip(self) -> (t: Self)
        ensures
            t.spec_len() == self.spec_len(),
            t.spec_index() == self.spec_index(),
            t.spec_finished() == self.spec_finished(),
            t.spec_skipping(),
    {
        proof {
            use_type_invariant(&self);
        }
        WaveTimeline { skipping: true, ..self }
    }

    /// Ends the fast-forward.
    pub fn stop_skipping(&mut self)
        ensures
            final(self).spec_len() == old(self).spec_len(),
            final(self).spec_index() == old(self).spec_index(),
            final(self).spec_finished() == old(self).spec_finished(),
            !final(self).spec_skipping(),
    {
        proof {
            use_type_invariant(&*self);
        }
        self.skipping = false;
    }

    /// Whether the timeline is being fast-forwarded.
    pub fn is_skipping(&self) -> (r: bool)
        ensures
            r == self.spec_skipping(),
    {
        self.skipping
    }

    /// Whether a tick has found no wave left.
    pub fn finished(&self) -> (r: bool)
        ensures
            r == self.spec_finished(),
    {
        self.finished
    }

    /// The wave due now, given whether the clock just finished. A due wave is released and
    /// the clock's next duration is that wave's; a finished clock with no wave left finishes
    /// the timeline.
    pub fn next(&mut self, just_finished: bool) -> (wave: Option<usize>)
        ensures
            final(self).spec_len() == old(self).spec_len(),
            final(self).spec_skipping() == old(self).spec_skipping(),
            ({
                let (w, i, f) = wave_step(old(self).spec_len(), old(self).spec_index(), old(self).spec_finished(), just_finished);
                &&& final(self).spec_index() == i
                &&& final(self).spec_finished() == f
                &&& wave == match w {
                    Some(k) => Some(k as usize),
                    None => None::<usize>,
                }
            }),
    {
        proof {
            use_type_invariant(&*self);
        }
        if just_finished {
            if self.index < self.len {
                let wave = self.index;
                self.index = self.index + 1;
                Some(wave)
            } else {
                self.finished = true;
                None
            }
        } else {
            None
        }
    }
}

/// Waves come in order, each once: from the start, the clock's first `len` finishes release
/// waves 0, 1, ... in turn, and every later finish releases none.
pub proof fn law_waves_in_order(len: nat, index: nat, n: nat)
    requires
        index <= len,
    ensures
        waves_released(len, index, n).len() == n,
        forall|k: int| 0 <= k < n ==> #[trigger] waves_released(len, index, n)[k] == if index + k < len {
            Some((index + k) as nat)
        } else {
            None::<nat>
        },
    decreases n,
{
    if n > 0 {
        let (_, next, _) = wave_step(len, index, false, true);
        law_waves_in_order(len, next, (n - 1) as nat);
        let rest = waves_released(len, next, (n - 1) as nat);
        assert forall|k: int| 0 <= k < n implies #[trigger] waves_released(len, index, n)[k] == if index + k < len {
            Some((index + k) as nat)
        } else {
            None::<nat>
        } by {
            if k > 0 {
                assert(waves_released(len, index, n)[k] == rest[k - 1]);
            }
        }
    }
}

} // verus!
