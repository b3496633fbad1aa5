use vstd::prelude::*;
use crate::pickups::{PickupKind, count_parts, parts_collected};

verus! {

/// Points for destroying an enemy.
pub const ENEMY_POINTS: usize = 20;

/// Points for letting an enemy bullet pass close by.
pub const GRAZE_POINTS: usize = 5;

/// Points for destroying a mine.
pub const MINE_POINTS: usize = 10;

/// Points for each enemy bullet cleared by a bomb.
pub const BOMB_BULLET_POINTS: usize = 2;

/// The score of the current game.
pub struct Points(usize);

impl Points {
    /// The score.
    pub closed spec fn spec_get(self) -> nat {
        self.0 as nat
    }

    /// A score of zero.
    pub fn new() -> (p: Self)
        ensures
            p.spec_get() == 0,
    {
        Points(0)
    }

    /// The score.
    pub fn get(&self) -> (n: usize)
        ensures
            n == self.spec_get(),
    {
        self.0
    }

    /// Scores `points` more.
    pub fn add(&mut self, points: usize)
        requires
            old(self).spec_get() + points <= usize::MAX,
        ensures
            final(self).spec_get() == old(self).spec_get() + points,
    {
        self.0 = self.0 + points;
    }
}

/// What to do with the flashing of the score text.
#[derive(Debug, Clone, Copy, PartialEq, Eq, Structural)]
pub enum FlashCommand {
    /// Start flashing.
    Start,
    /// Stop flashing.
    Stop,
    /// Leave it as it is.
    Keep,
}

/// The score shown on screen, which counts up to the real score one point per frame.
pub struct PointAccumulator(usize);

/// The shown score after one frame, towards the score `points`.
pub open spec fn count_up(shown: nat, points: nat) -> nat {
    if shown < points { shown + 1 } else { shown }
}

/// The shown score after `n` frames.
pub open spec fn count_up_n(shown: nat, points: nat, n: nat) -> nat
    decreases n,
{
    if n == 0 { shown } else { count_up_n(count_up(shown, points), points, (n - 1) as nat) }
}

impl PointAccumulator {
    /// The shown score.
    pub closed spec fn spec_get(self) -> nat {
        self.0 as nat
    }

    /// A shown score of zero.
    pub fn new() -> (a: Self)
        ensures
            a.spec_get() == 0,
    {
        PointAccumulator(0)
    }

    /// The shown score.
    pub fn get(&self) -> (n: usize)
        ensures
            n == self.spec_get(),
    {
        self.0
    }

    /// One frame: the shown score moves one point towards `points`. While it is behind, the
    /// text flashes; once it has caught up, the flashing stops.
    pub fn accumulate(&mut self, points: usize, flashing: bool) -> (cmd: FlashCommand)
        ensures
            final(self).spec_get() == count_up(old(self).spec_get(), points as nat),
            cmd == if old(self).spec_get() < points {
                if flashing { FlashCommand::Keep } else { FlashCommand::Start }
            } else {
                if flashing { FlashCommand::Stop } else { FlashCommand::Keep }
            },
    {
        if self.0 < points {
            self.0 = self.0 + 1;
            if flashing { FlashCommand::Keep } else { FlashCommand::Start }
        } else if flashing {
            FlashCommand::Stop
        } else {
            FlashCommand::Keep
        }
    }
}

/// The shown score never passes the score, and catches up with it after as many frames as it
/// was behind.
pub proof fn law_shown_score_catches_up(shown: nat, points: nat, n: nat)
    requires
        shown <= points,
    ensures
        count_up_n(shown, points, n) <= points,
        count_up_n(shown, points, n) == if shown + n <= points { shown + n } else { points },
    decreases n,
{
    if n > 0 {
        law_shown_score_catches_up(count_up(shown, points), points, (n - 1) as nat);
    }
}

/// A run of materials collected in quick succession; each pickup in the run sounds a little
/// higher than the one before.
pub struct PickupCombo(usize);

impl PickupCombo {
    /// The length of the current run, not counting its first pickup.
    pub closed spec fn spec_get(self) -> nat {
        self.0 as nat
    }

    /// No run.
    pub fn new() -> (c: Self)
        ensures
            c.spec_get() == 0,
    {
        PickupCombo(0)
    }

    /// The length of the current run.
    pub fn get(&self) -> (n: usize)
        ensures
            n == self.spec_get(),
    {
        self.0
    }

    /// Books a pickup; `in_window` tells whether it came within the run's time window of the
    /// previous one. A pickup in the window extends the run, any other starts over. Returns the
    /// run length that sets the pitch (0 for the normal pitch).
    pub fn pickup(&mut self, in_window: bool) -> (step: usize)
        requires
            in_window ==> old(self).spec_get() < usize::MAX,
        ensures
            final(self).spec_get() == if in_window { old(self).spec_get() + 1 } else { 0 },
            step == final(self).spec_get(),
    {
        if in_window {
            self.0 = self.0 + 1;
        } else {
            self.0 = 0;
        }
        self.0
    }
}

/// The counters shown on the end screen (the play time is kept by the caller's clock).
pub struct Stats {
    pub kills: usize,
    pub materials: usize,
}

impl Stats {
    /// All counters at zero.
    pub fn new() -> (s: Self)
        ensures
            s.kills == 0,
            s.materials == 0,
    {
        Stats { kills: 0, materials: 0 }
    }

    /// Books a frame's enemy deaths and collected pickups; only parts count as materials.
    pub fn record(&mut self, kills: usize, pickups: &Vec<PickupKind>)
        requires
            old(self).kills + kills <= usize::MAX,
            old(self).materials + count_parts(pickups@) <= usize::MAX,
        ensures
            final(self).kills == old(self).kills + kills,
            final(self).materials == old(self).materials + count_parts(pickups@),
    {
        self.kills = self.kills + kills;
        let parts = parts_collected(pickups);
        self.materials = self.materials + parts;
    }
}

impl Default for Stats {
    fn default() -> (s: Self)
        ensures
            s.kills == 0,
            s.materials == 0,
    {
        Stats::new()
    }
}

} // verus!
