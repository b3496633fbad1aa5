use vstd::prelude::*;

verus! {

/// What an animation does once its frames run out.
#[derive(Debug, Clone, Copy, PartialEq, Eq, Structural)]
pub enum AnimationMode {
    /// Start over from the first frame.
    Repeat,
    /// Stop on the last frame.
    Once,
    /// Stop, and remove the animated entity.
    Despawn,
}

/// The position reached and the frame shown by one advance of an animation at `index`.
///
/// Within the frames, the frame at `index` is shown and the position moves on by one. Past the
/// end, a repeating animation shows its first frame and goes back to position 0 (so that frame
/// is shown twice in a row); the others show nothing and stay.
pub open spec fn step(mode: AnimationMode, index: nat, seq: Seq<usize>) -> (nat, Option<usize>) {
    if index < seq.len() {
        (index + 1, Some(seq[index as int]))
    } else {
        match mode {
            AnimationMode::Repeat => (0, Some(seq[0])),
            _ => (index, None),
        }
    }
}

/// The frames shown by `n` advances from position `index`.
pub open spec fn outputs(mode: AnimationMode, index: nat, seq: Seq<usize>, n: nat) -> Seq<Option<usize>>
    decreases n,
{
    if n == 0 {
        Seq::empty()
    } else {
        let (next, shown) = step(mode, index, seq);
        seq![shown] + outputs(mode, next, seq, (n - 1) as nat)
    }
}

/// A sequence of atlas indices played one after another.
pub struct AnimationIndices {
    mode: AnimationMode,
    index: usize,
    seq: Vec<usize>,
}

impl AnimationIndices {
    #[verifier::type_invariant]
    spec fn inv(self) -> bool {
        &&& self.seq@.len() > 0
        &&& self.index <= self.seq@.len()
    }

    /// What happens when the frames run out.
    pub closed spec fn mode(self) -> AnimationMode {
        self.mode
    }

    /// How many frames have been shown since the start or the last wrap.
    pub closed spec fn position(self) -> nat {
        self.index as nat
    }

    /// The atlas indices, in playing order.
    pub closed spec fn frames(self) -> Seq<usize> {
        self.seq@
    }

    /// The frames are not empty and the position lies within them or just past the end.
    pub open spec fn well_placed(self) -> bool {
        self.frames().len() > 0 && self.position() <= self.frames().len()
    }

    /// An animation of `seq` in `mode`, at its start. The frames must not be empty.
    pub fn new(mode: AnimationMode, seq: Vec<usize>) -> (a: Self)
        requires
            seq@.len() > 0,
        ensures
            a.mode() == mode,
            a.position() == 0,
            a.frames() == seq@,
            a.well_placed(),
    {
        AnimationIndices { mode, index: 0, seq }
    }

    /// An animation that starts over when its frames run out.
    pub fn repeating(seq: Vec<usize>) -> (a: Self)
        requires
            seq@.len() > 0,
        ensures
            a.mode() == AnimationMode::Repeat,
            a.position() == 0,
            a.frames() == seq@,
            a.well_placed(),
    {
        Self::new(AnimationMode::Repeat, seq)
    }

    /// An animation whose entity is removed when its frames run out.
    pub fn once_despawn(seq: Vec<usize>) -> (a: Self)
        requires
            seq@.len() > 0,
        ensures
            a.mode() == AnimationMode::Despawn,
            a.position() == 0,
            a.frames() == seq@,
            a.well_placed(),
    {
        Self::new(AnimationMode::Despawn, seq)
    }

    /// What happens when the frames run out.
    pub fn mode_of(&self) -> (m: AnimationMode)
        ensures
            m == self.mode(),
    {
        self.mode
    }

    /// The first frame.
    pub fn start(&self) -> (first: usize)
        ensures
            first == self.frames()[0],
    {
        proof {
            use_type_invariant(self);
        }
        self.seq[0]
    }

    /// Advances the animation by one frame and returns the frame to show, if any.
    pub fn next(&mut self) -> (shown: Option<usize>)
        ensures
            final(self).mode() == old(self).mode(),
            final(self).frames() == old(self).frames(),
            (final(self).position(), shown) == step(old(self).mode(), old(self).position(), old(self).frames()),
            final(self).well_placed(),
    {
        proof {
            use_type_invariant(&*self);
        }
        if self.index < self.seq.len() {
            let frame = self.seq[self.index];
            self.index = self.index + 1;
            Some(frame)
        } else {
            match self.mode {
                AnimationMode::Repeat => {
                    self.index = 0;
                    Some(self.seq[0])
                },
                _ => None,
            }
        }
    }

    /// Advances the animation when its frame timer finishes, and says what to do with the sprite.
    pub fn advance(&mut self) -> (act: AnimationStep)
        ensures
            final(self).mode() == old(self).mode(),
            final(self).frames() == old(self).frames(),
            ({
                let (p, shown) = step(old(self).mode(), old(self).position(), old(self).frames());
                &&& final(self).position() == p
                &&& act == match shown {
                    Some(f) => AnimationStep::Frame(f),
                    None => if old(self).mode() == AnimationMode::Despawn {
                        AnimationStep::Despawn
                    } else {
                        AnimationStep::Hold
                    },
                }
            }),
            final(self).well_placed(),
    {
        match self.next() {
            Some(f) => AnimationStep::Frame(f),
            None => if self.mode == AnimationMode::Despawn {
                AnimationStep::Despawn
            } else {
                AnimationStep::Hold
            },
        }
    }
}

impl Clone for AnimationIndices {
    fn clone(&self) -> (c: Self)
        ensures
            c.mode() == self.mode(),
            c.position() == self.position(),
            c.frames() == self.frames(),
    {
        proof {
            use_type_invariant(self);
        }
        let seq = self.seq.clone();
        assert(seq@ =~= self.seq@);
        AnimationIndices { mode: self.mode, index: self.index, seq }
    }
}

/// What to do with an animated sprite when its frame timer finishes.
#[derive(Debug, Clone, Copy, PartialEq, Eq, Structural)]
pub enum AnimationStep {
    /// Show this atlas index.
    Frame(usize),
    /// The animation is over: remove the entity.
    Despawn,
    /// The animation is over: keep the last frame.
    Hold,
}

/// A repeating animation never runs dry: every advance from a valid position shows a frame.
pub proof fn law_repeating_never_ends(index: nat, seq: Seq<usize>, n: nat)
    requires
        seq.len() > 0,
        index <= seq.len(),
    ensures
        outputs(AnimationMode::Repeat, index, seq, n).len() == n,
        forall|k: int| 0 <= k < n ==> #[trigger] outputs(AnimationMode::Repeat, index, seq, n)[k] is Some,
    decreases n,
{
    if n > 0 {
        let (next, _) = step(AnimationMode::Repeat, index, seq);
        law_repeating_never_ends(next, seq, (n - 1) as nat);
        let rest = outputs(AnimationMode::Repeat, next, seq, (n - 1) as nat);
        assert forall|k: int| 0 <= k < n implies #[trigger] outputs(AnimationMode::Repeat, index, seq, n)[k] is Some by {
            if k > 0 {
                assert(outputs(AnimationMode::Repeat, index, seq, n)[k] == rest[k - 1]);
            }
        }
    }
}

/// An animation that does not repeat, played from position `index`, shows its remaining
/// frames in order and then nothing at all.
pub proof fn law_single_run_plays_frames_then_stops(mode: AnimationMode, index: nat, seq: Seq<usize>, n: nat)
    requires
        mode != AnimationMode::Repeat,
        index <= seq.len(),
    ensures
        outputs(mode, index, seq, n).len() == n,
        forall|k: int| 0 <= k < n ==> #[trigger] outputs(mode, index, seq, n)[k] == if index + k < seq.len() {
            Some(seq[index + k])
        } else {
            None::<usize>
        },
    decreases n,
{
    if n > 0 {
        let (next, _) = step(mode, index, seq);
        law_single_run_plays_frames_then_stops(mode, next, seq, (n - 1) as nat);
        let rest = outputs(mode, next, seq, (n - 1) as nat);
        assert forall|k: int| 0 <= k < n implies #[trigger] outputs(mode, index, seq, n)[k] == if index + k < seq.len() {
            Some(seq[index + k])
        } else {
            None::<usize>
        } by {
            if k > 0 {
                assert(outputs(mode, index, seq, n)[k] == rest[k - 1]);
            }
        }
    }
}

} // verus!
