use vstd::prelude::*;

verus! {

/// An attack pattern of the boss.
#[derive(Debug, Clone, Copy, PartialEq, Eq, Structural)]
pub enum BossAttack {
    /// The first laser dance, which opens the fight.
    SoloA,
    /// The later laser dance.
    SoloB,
    /// The first wave of guns.
    WavesA,
    /// The later waves of guns.
    WavesB,
}

/// A change of attack: the attack to start, and whether the other kind is to be removed.
#[derive(Debug, Clone, Copy, PartialEq, Eq, Structural)]
pub struct BossStep {
    pub start: BossAttack,
    /// Remove the running laser dance.
    pub end_solo: bool,
    /// Remove the running wave of guns.
    pub end_waves: bool,
}

/// The boss's alternation between laser dances and waves of guns.
pub struct BossSchedule {
    in_waves: bool,
    waves_entered: usize,
}

/// The attack started by the phase change after `waves_entered` waves, from the given phase.
pub open spec fn boss_step(in_waves: bool, waves_entered: nat) -> BossStep {
    if !in_waves {
        BossStep {
            start: if waves_entered > 0 { BossAttack::WavesB } else { BossAttack::WavesA },
            end_solo: true,
            end_waves: false,
        }
    } else {
        BossStep { start: BossAttack::SoloB, end_solo: false, end_waves: true }
    }
}

impl BossSchedule {
    /// Whether the guns are out.
    pub closed spec fn spec_in_waves(self) -> bool {
        self.in_waves
    }

    /// How many waves of guns have started.
    pub closed spec fn spec_waves_entered(self) -> nat {
        self.waves_entered as nat
    }

    /// Whether the guns are out.
    pub fn in_waves(&self) -> (r: bool)
        ensures
            r == self.spec_in_waves(),
    {
        self.in_waves
    }

    /// How many waves of guns have started.
    pub fn waves_entered(&self) -> (r: usize)
        ensures
            r == self.spec_waves_entered(),
    {
        self.waves_entered
    }

    /// The fight opens with the first laser dance.
    pub fn new() -> (s: (Self, BossAttack))
        ensures
            !s.0.spec_in_waves(),
            s.0.spec_waves_entered() == 0,
            s.1 == BossAttack::SoloA,
    {
        (BossSchedule { in_waves: false, waves_entered: 0 }, BossAttack::SoloA)
    }

    /// The phase clock finished: a dance gives way to guns (the first wave differs from the
    /// later ones), guns give way to the later dance.
    pub fn switch(&mut self) -> (step: BossStep)
        requires
            !old(self).spec_in_waves() ==> old(self).spec_waves_entered() < usize::MAX,
        ensures
            step == boss_step(old(self).spec_in_waves(), old(self).spec_waves_entered()),
            final(self).spec_in_waves() == !old(self).spec_in_waves(),
            final(self).spec_waves_entered() == if old(self).spec_in_waves() {
                old(self).spec_waves_entered()
            } else {
                old(self).spec_waves_entered() + 1
            },
    {
        if !self.in_waves {
            self.in_waves = true;
            let start = if self.waves_entered > 0 { BossAttack::WavesB } else { BossAttack::WavesA };
            self.waves_entered = self.waves_entered + 1;
            BossStep { start, end_solo: true, end_waves: false }
        } else {
            self.in_waves = false;
            BossStep { start: BossAttack::SoloB, end_solo: false, end_waves: true }
        }
    }
}

/// The attack running after `n` phase changes from the opening dance.
pub open spec fn attack_after(n: nat) -> BossAttack {
    if n == 0 {
        BossAttack::SoloA
    } else if n == 1 {
        BossAttack::WavesA
    } else if n % 2 == 1 {
        BossAttack::WavesB
    } else {
        BossAttack::SoloB
    }
}

/// The schedule after `n` phase changes from the opening.
pub open spec fn schedule_after(n: nat) -> (bool, nat)
    decreases n,
{
    if n == 0 {
        (false, 0)
    } else {
        let (w, k) = schedule_after((n - 1) as nat);
        if w { (false, k) } else { (true, k + 1) }
    }
}

/// Dances and guns alternate: after an odd number of changes the guns are out (the first
/// time the first wave, later the later one), after an even number a dance runs; each change
/// starts what `attack_after` names and `ceil(n / 2)` waves have started.
pub proof fn law_dances_and_guns_alternate(n: nat)
    ensures
        schedule_after(n) == ((n % 2 == 1), (n + 1) / 2),
        n > 0 ==> boss_step(schedule_after((n - 1) as nat).0, schedule_after((n - 1) as nat).1).start == attack_after(n),
    decreases n,
{
    if n > 0 {
        law_dances_and_guns_alternate((n - 1) as nat);
    }
}

/// Which pair of lasers of a dance is firing.
#[derive(Debug, Clone, Copy, PartialEq, Eq, Structural)]
pub enum SoloSet {
    A,
    B,
}

impl SoloSet {
    /// The other pair.
    pub fn toggle(self) -> (s: Self)
        ensures
            s != self,
    {
        match self {
            SoloSet::A => SoloSet::B,
            SoloSet::B => SoloSet::A,
        }
    }
}

/// How many later dances have started; each one switches its lasers faster.
pub struct DanceCount(usize);

impl DanceCount {
    /// The number started.
    pub closed spec fn spec_get(self) -> nat {
        self.0 as nat
    }

    /// The number started.
    pub fn get(&self) -> (r: usize)
        ensures
            r == self.spec_get(),
    {
        self.0
    }

    /// None started.
    pub fn new() -> (c: Self)
        ensures
            c.spec_get() == 0,
    {
        DanceCount(0)
    }

    /// A later dance starts: returns how many started before it, which sets its pace.
    pub fn start(&mut self) -> (before: usize)
        requires
            old(self).spec_get() < usize::MAX,
        ensures
            before == old(self).spec_get(),
            final(self).spec_get() == old(self).spec_get() + 1,
    {
        let before = self.0;
        self.0 = self.0 + 1;
        before
    }
}

} // verus!
