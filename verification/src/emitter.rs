use vstd::prelude::*;

verus! {

/// Where a pulse timer is in its cycle: waiting, or shooting the given shot of a burst.
#[derive(Debug, Clone, Copy, PartialEq, Eq, Structural)]
pub enum PulseState {
    Wait,
    Bullet(usize),
}

/// Which of a pulse timer's two clocks runs in a state.
#[derive(Debug, Clone, Copy, PartialEq, Eq, Structural)]
pub enum PulseClock {
    /// The pause between bursts.
    Wait,
    /// The gap between the shots of a burst.
    Bullet,
}

/// The state after a tick of the running clock in `state`, given whether that clock finished.
///
/// A finished wait starts a burst at shot 1; a finished gap moves to the next shot, and back to
/// waiting once `pulses` shots have been fired.
pub open spec fn pulse_step(state: PulseState, pulses: usize, finished: bool) -> PulseState {
    if !finished {
        state
    } else {
        match state {
            PulseState::Wait => PulseState::Bullet(1),
            PulseState::Bullet(count) => if count + 1 >= pulses {
                PulseState::Wait
            } else {
                PulseState::Bullet((count + 1) as usize)
            },
        }
    }
}

/// Which clock must be reset after a tick: the gap clock when a burst starts, the wait clock
/// when a burst ends.
pub open spec fn pulse_reset(state: PulseState, pulses: usize, finished: bool) -> Option<PulseClock> {
    if !finished {
        None
    } else {
        match state {
            PulseState::Wait => Some(PulseClock::Bullet),
            PulseState::Bullet(count) => if count + 1 >= pulses {
                Some(PulseClock::Wait)
            } else {
                None
            },
        }
    }
}

/// The state after `n` consecutive ticks on which the running clock finished.
pub open spec fn pulse_run(state: PulseState, pulses: usize, n: nat) -> PulseState
    decreases n,
{
    if n == 0 {
        state
    } else {
        pulse_run(pulse_step(state, pulses, true), pulses, (n - 1) as nat)
    }
}

/// The burst-and-wait state of an emitter that fires `pulses` shots per burst.
///
/// The clocks themselves belong to the caller: it ticks the clock that [`PulseTimer::clock`]
/// names, hands [`PulseTimer::tick`] whether it finished, and resets the clock that the tick
/// names.
pub struct PulseTimer {
    pulses: usize,
    state: PulseState,
    shoot: bool,
}

impl PulseTimer {
    #[verifier::type_invariant]
    spec fn inv(self) -> bool {
        &&& self.pulses > 1
        &&& self.state matches PulseState::Bullet(c) ==> 1 <= c < self.pulses
    }

    /// Shots per burst.
    pub closed spec fn spec_pulses(self) -> usize {
        self.pulses
    }

    /// The position in the cycle.
    pub closed spec fn spec_state(self) -> PulseState {
        self.state
    }

    /// Whether the last tick fired.
    pub closed spec fn spec_shoot(self) -> bool {
        self.shoot
    }

    /// More than one shot per burst, and a shooting state counts a shot of the burst.
    pub open spec fn well_formed(self) -> bool {
        &&& self.spec_pulses() > 1
        &&& self.spec_state() matches PulseState::Bullet(c) ==> 1 <= c < self.spec_pulses()
    }

    /// A timer that fires `pulses` shots per burst, starting with a wait. A burst must hold
    /// more than one shot.
    pub fn new(pulses: usize) -> (t: Self)
        requires
            pulses > 1,
        ensures
            t.spec_pulses() == pulses,
            t.spec_state() == PulseState::Wait,
            !t.spec_shoot(),
            t.well_formed(),
    {
        PulseTimer { pulses, state: PulseState::Wait, shoot: false }
    }

    /// A timer like [`PulseTimer::new`] whose first wait is already over: the caller sets the
    /// wait clock to its full duration.
    pub fn ready(pulses: usize) -> (t: Self)
        requires
            pulses > 1,
        ensures
            t.spec_pulses() == pulses,
            t.spec_state() == PulseState::Wait,
            !t.spec_shoot(),
            t.well_formed(),
    {
        let mut t = Self::new(pulses);
        t.reset_active();
        t
    }

    /// Shots per burst.
    pub fn pulses(&self) -> (p: usize)
        ensures
            p == self.spec_pulses(),
    {
        self.pulses
    }

    /// Whether the timer is between bursts.
    pub fn is_waiting(&self) -> (r: bool)
        ensures
            r == (self.spec_state() == PulseState::Wait),
    {
        matches!(self.state, PulseState::Wait)
    }

    /// The clock to tick now.
    pub fn clock(&self) -> (c: PulseClock)
        ensures
            c == (if self.spec_state() == PulseState::Wait { PulseClock::Wait } else { PulseClock::Bullet }),
    {
        match self.state {
            PulseState::Wait => PulseClock::Wait,
            PulseState::Bullet(_) => PulseClock::Bullet,
        }
    }

    /// Records a tick of the running clock; `finished` tells whether it just finished. Returns
    /// the clock to reset, if any.
    pub fn tick(&mut self, finished: bool) -> (reset: Option<PulseClock>)
        ensures
            final(self).spec_pulses() == old(self).spec_pulses(),
            final(self).spec_state() == pulse_step(old(self).spec_state(), old(self).spec_pulses(), finished),
            final(self).spec_shoot() == finished,
            reset == pulse_reset(old(self).spec_state(), old(self).spec_pulses(), finished),
            !finished ==> final(self).spec_state() == old(self).spec_state() && reset is None,
            final(self).well_formed(),
    {
        proof {
            use_type_invariant(&*self);
        }
        let mut reset = None;
        match self.state {
            PulseState::Wait => {
                if finished {
                    self.state = PulseState::Bullet(1);
                    reset = Some(PulseClock::Bullet);
                }
                self.shoot = finished;
            },
            PulseState::Bullet(count) => {
                if finished {
                    if count + 1 >= self.pulses {
                        self.state = PulseState::Wait;
                        reset = Some(PulseClock::Wait);
                    } else {
                        self.state = PulseState::Bullet(count + 1);
                    }
                }
                self.shoot = finished;
            },
        }
        reset
    }

    /// Whether the last tick fired a shot.
    pub fn just_finished(&self) -> (r: bool)
        ensures
            r == self.spec_shoot(),
    {
        self.shoot
    }

    /// Whether the last tick ended a burst.
    pub fn finished_pulse(&self) -> (r: bool)
        ensures
            r == (self.spec_shoot() && self.spec_state() == PulseState::Wait),
    {
        self.just_finished() && self.is_waiting()
    }

    /// Goes back to waiting; the caller sets the wait clock to its full duration, so that the
    /// next tick starts a burst.
    pub fn reset_active(&mut self)
        ensures
            final(self).spec_pulses() == old(self).spec_pulses(),
            final(self).spec_state() == PulseState::Wait,
            final(self).spec_shoot() == old(self).spec_shoot(),
            final(self).well_formed(),
    {
        proof {
            use_type_invariant(&*self);
        }
        self.state = PulseState::Wait;
    }

    /// The shot of the current burst: 0 while waiting.
    pub fn current_pulse(&self) -> (p: usize)
        ensures
            p == match self.spec_state() {
                PulseState::Wait => 0,
                PulseState::Bullet(c) => c,
            },
    {
        match self.state {
            PulseState::Wait => 0,
            PulseState::Bullet(pulse) => pulse,
        }
    }
}

/// From waiting, the first `m` finished ticks (`m < pulses`) lead to shot `m` of the burst.
proof fn lemma_pulse_run_prefix(pulses: usize, m: nat)
    requires
        pulses > 1,
        1 <= m < pulses,
    ensures
        pulse_run(PulseState::Wait, pulses, m) == PulseState::Bullet(m as usize),
    decreases m,
{
    if m == 1 {
        assert(pulse_run(PulseState::Bullet(1), pulses, 0) == PulseState::Bullet(1));
    } else {
        lemma_pulse_run_prefix(pulses, (m - 1) as nat);
        lemma_pulse_run_split(PulseState::Wait, pulses, (m - 1) as nat);
    }
}

/// Running `n + 1` finished ticks is one more tick after running `n`.
proof fn lemma_pulse_run_split(state: PulseState, pulses: usize, n: nat)
    ensures
        pulse_run(state, pulses, n + 1) == pulse_step(pulse_run(state, pulses, n), pulses, true),
    decreases n,
{
    if n > 0 {
        lemma_pulse_run_split(pulse_step(state, pulses, true), pulses, (n - 1) as nat);
    } else {
        assert(pulse_run(pulse_step(state, pulses, true), pulses, 0) == pulse_step(state, pulses, true));
    }
}

/// A burst fires `pulses` shots: from waiting, each of `pulses` finished ticks fires, the
/// timer is mid-burst after fewer of them, and after all of them it waits again.
pub proof fn law_burst_returns_to_wait(pulses: usize)
    requires
        pulses > 1,
    ensures
        forall|m: nat| 1 <= m < pulses ==> #[trigger] pulse_run(PulseState::Wait, pulses, m) == PulseState::Bullet(m as usize),
        pulse_run(PulseState::Wait, pulses, pulses as nat) == PulseState::Wait,
{
    assert forall|m: nat| 1 <= m < pulses implies #[trigger] pulse_run(PulseState::Wait, pulses, m) == PulseState::Bullet(m as usize) by {
        lemma_pulse_run_prefix(pulses, m);
    }
    lemma_pulse_run_prefix(pulses, (pulses - 1) as nat);
    lemma_pulse_run_split(PulseState::Wait, pulses, (pulses - 1) as nat);
}

/// The state after a sequence of ticks, each flag telling whether the running clock finished.
pub open spec fn pulse_ticks(state: PulseState, pulses: usize, finished: Seq<bool>) -> PulseState
    decreases finished.len(),
{
    if finished.len() == 0 {
        state
    } else {
        pulse_step(pulse_ticks(state, pulses, finished.drop_last()), pulses, finished.last())
    }
}

/// How many of the flags are set.
pub open spec fn count_finished(finished: Seq<bool>) -> nat
    decreases finished.len(),
{
    if finished.len() == 0 {
        0
    } else {
        count_finished(finished.drop_last()) + if finished.last() { 1nat } else { 0nat }
    }
}

/// Only finished clocks move the cycle on: a tick on which the running clock did not finish
/// leaves the state as it was and resets no clock, so any sequence of ticks ends where the
/// finished ones alone would have led. A burst therefore fires all of its shots however many
/// frames pass between them.
pub proof fn law_only_finished_ticks_advance(state: PulseState, pulses: usize, finished: Seq<bool>)
    ensures
        pulse_step(state, pulses, false) == state,
        pulse_reset(state, pulses, false) is None,
        pulse_ticks(state, pulses, finished) == pulse_run(state, pulses, count_finished(finished)),
    decreases finished.len(),
{
    if finished.len() > 0 {
        law_only_finished_ticks_advance(state, pulses, finished.drop_last());
        lemma_pulse_run_split(state, pulses, count_finished(finished.drop_last()));
    }
}

/// Whether an emitter fires.
pub struct EmitterState {
    pub enabled: bool,
}

impl Default for EmitterState {
    fn default() -> (s: Self)
        ensures
            s.enabled,
    {
        EmitterState { enabled: true }
    }
}

/// How an emitter's rate modifier sets the period between its shots: as a factor by which the
/// base period is divided, or as a period of its own in seconds.
#[derive(Debug, Clone, Copy, PartialEq, Eq, Structural)]
pub enum RateKind {
    Factor,
    Secs,
}

/// The kind of rate that an emitter's rate takes on when its parent's rate is laid over it: a
/// period in seconds when either of them is one (scaled by the other's factor), else a factor
/// (the product of the two). Two periods in seconds cannot be joined.
pub fn join_rate_kind(parent: RateKind, child: RateKind) -> (kind: RateKind)
    requires
        !(parent == RateKind::Secs && child == RateKind::Secs),
    ensures
        kind == (if parent == RateKind::Secs || child == RateKind::Secs {
            RateKind::Secs
        } else {
            RateKind::Factor
        }),
{
    match (parent, child) {
        (RateKind::Factor, RateKind::Factor) => RateKind::Factor,
        _ => RateKind::Secs,
    }
}

/// The shots an emitter has fired.
pub struct Shots(pub usize);

/// The most shots an emitter may fire.
pub struct ShotLimit(pub usize);

/// The bursts an emitter has completed.
pub struct Pulses(pub usize);

/// The most bursts an emitter may complete.
pub struct PulseLimit(pub usize);

/// An emitter under a shot limit stays enabled while it has fired fewer shots than the limit.
pub fn shots_allowed(shots: &Shots, limit: &ShotLimit) -> (enabled: bool)
    ensures
        enabled == (shots.0 < limit.0),
{
    shots.0 < limit.0
}

/// An emitter under a burst limit stays enabled while it has completed fewer bursts than the
/// limit.
pub fn pulses_allowed(pulses: &Pulses, limit: &PulseLimit) -> (enabled: bool)
    ensures
        enabled == (pulses.0 < limit.0),
{
    pulses.0 < limit.0
}

/// The outcome of one tick of an emitter's timer.
#[derive(Debug, Clone, Copy, PartialEq, Eq, Structural)]
pub struct TickBook {
    /// Bullets are to be spawned.
    pub spawn: bool,
    /// The emitter's shot count after the tick, if it keeps one.
    pub shots: Option<usize>,
    /// The emitter's burst count after the tick, if it keeps one.
    pub pulses: Option<usize>,
}

/// Books one tick of an emitter's timer: a completed burst is counted in `pulses`, a fired
/// shot in `shots`, and bullets are spawned when the timer fired.
pub fn record_tick(shoot: bool, finished_pulse: bool, shots: Option<usize>, pulses: Option<usize>) -> (book: TickBook)
    requires
        shots matches Some(s) ==> s < usize::MAX,
        pulses matches Some(p) ==> p < usize::MAX,
    ensures
        book.spawn == shoot,
        book.shots == match shots {
            Some(s) => Some(if shoot { (s + 1) as usize } else { s }),
            None => None::<usize>,
        },
        book.pulses == match pulses {
            Some(p) => Some(if finished_pulse { (p + 1) as usize } else { p }),
            None => None::<usize>,
        },
{
    let pulses = match pulses {
        Some(p) => Some(if finished_pulse { p + 1 } else { p }),
        None => None,
    };
    if !shoot {
        return TickBook { spawn: false, shots, pulses };
    }
    let shots = match shots {
        Some(s) => Some(s + 1),
        None => None,
    };
    TickBook { spawn: true, shots, pulses }
}

/// The pattern a crisscross emitter fires in.
#[derive(Debug, Clone, Copy, PartialEq, Eq, Structural)]
pub enum CrisscrossState {
    /// Diagonal shots.
    Cross,
    /// Straight shots.
    Plus,
}

impl Default for CrisscrossState {
    fn default() -> (s: Self)
        ensures
            s == CrisscrossState::Cross,
    {
        CrisscrossState::Cross
    }
}

impl CrisscrossState {
    /// The pattern after a tick of `timer`: it swaps when the tick ended a burst.
    pub fn swivel(self, timer: &PulseTimer) -> (next: Self)
        ensures
            next == if timer.spec_shoot() && timer.spec_state() == PulseState::Wait {
                match self {
                    CrisscrossState::Cross => CrisscrossState::Plus,
                    CrisscrossState::Plus => CrisscrossState::Cross,
                }
            } else {
                self
            },
    {
        if timer.just_finished() && timer.is_waiting() {
            match self {
                CrisscrossState::Cross => CrisscrossState::Plus,
                CrisscrossState::Plus => CrisscrossState::Cross,
            }
        } else {
            self
        }
    }
}

} // verus!
