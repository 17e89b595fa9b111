//! The round: a needle turning about a ring, a target zone on it, and the
//! player's commits that either score or end the game.
//!
//! Angles are microradians in `[0, TURN)`; speeds are signed milliradians per
//! second, positive speeds turning the needle towards smaller angles; times are
//! milliseconds.
use vstd::prelude::*;
use vstd::arithmetic::div_mod::{lemma_fundamental_div_mod, lemma_mod_multiples_vanish};
use rand::Rng;

verus! {

/// Microradians in a full turn (2 pi, rounded to the nearest microradian).
pub const TURN: u32 = 6_283_185;

/// Speed of the needle at the start of a round: 1 rad/s.
pub const INITIAL_SPEED: i32 = 1_000;

/// Gain in speed on every score: 0.5 rad/s.
pub const SPEED_STEP: i32 = 500;

/// The needle never turns faster than 10 rad/s.
pub const SPEED_CAP: i32 = 10_000;

/// Signed angular speed of the needle, in milliradians per second.
#[derive(Clone, Copy, Debug, PartialEq, Eq, Structural)]
pub struct RotationSpeed(pub i32);

/// The zone the needle must overlap when the player commits.
#[derive(Clone, Copy, Debug, PartialEq, Eq, Structural)]
pub struct TargetZone {
    /// Orientation in microradians.
    pub orientation: u32,
}

/// The rotating needle.
#[derive(Clone, Copy, Debug, PartialEq, Eq, Structural)]
pub struct Needle {
    /// Rotation in microradians.
    pub angle: u32,
    pub speed: RotationSpeed,
}

#[derive(Clone, Copy, Debug, PartialEq, Eq, Structural)]
pub enum GamePhase {
    Playing,
    GameOver,
}

/// A notification of the collision backend about the needle and the target zone.
#[derive(Clone, Copy, Debug, PartialEq, Eq, Structural)]
pub enum CollisionEvent {
    Started,
    Stopped,
}

/// What a commit did, for the presentation to show.
#[derive(Clone, Copy, Debug, PartialEq, Eq, Structural)]
pub enum CommitOutcome {
    /// The game was already over: nothing changed.
    Ignored,
    /// The needle was on the target: the score is now the value held.
    Scored(u64),
    /// The needle missed the target: the game is over.
    GameOver,
}

/// The whole state of a round.
#[derive(Clone, Copy, Debug, PartialEq, Eq, Structural)]
pub struct Game {
    pub phase: GamePhase,
    pub score: u64,
    /// Whether the needle and the target zone overlap, as last reported.
    pub overlapping: bool,
    pub needle: Needle,
    pub target: TargetZone,
}

/// Absolute value.
pub open spec fn magnitude(s: int) -> int {
    if s < 0 { -s } else { s }
}

/// The speed `s` made faster by one step, keeping its sign, up to the cap.
pub open spec fn ramped(s: int) -> int {
    let m = if magnitude(s) + SPEED_STEP > SPEED_CAP { SPEED_CAP as int } else { magnitude(s) + SPEED_STEP };
    if s < 0 { -m } else { m }
}

/// The needle's angle after turning at `speed` for `dt` milliseconds.
pub open spec fn rotated_angle(angle: int, speed: int, dt: int) -> int {
    (angle - speed * dt) % (TURN as int)
}

impl Game {
    /// The state of a fresh round.
    pub open spec fn initial() -> Game {
        Game {
            phase: GamePhase::Playing,
            score: 0,
            overlapping: false,
            needle: Needle { angle: 0, speed: RotationSpeed(INITIAL_SPEED) },
            target: TargetZone { orientation: 0 },
        }
    }

    pub open spec fn wf(self) -> bool {
        &&& self.needle.angle < TURN
        &&& self.target.orientation < TURN
        &&& 0 < magnitude(self.needle.speed.0 as int) <= SPEED_CAP
    }

    /// The state after a commit, where a score moves the target zone to `new_target`.
    pub open spec fn after_commit(self, new_target: u32) -> Game {
        if self.phase == GamePhase::GameOver {
            self
        } else if self.overlapping {
            Game {
                score: (self.score + 1) as u64,
                needle: Needle {
                    speed: RotationSpeed(ramped(-self.needle.speed.0) as i32),
                    ..self.needle
                },
                target: TargetZone { orientation: new_target },
                ..self
            }
        } else {
            Game {
                phase: GamePhase::GameOver,
                needle: Needle { speed: RotationSpeed(-self.needle.speed.0 as i32), ..self.needle },
                ..self
            }
        }
    }

    /// What a commit in this state reports.
    pub open spec fn commit_outcome(self) -> CommitOutcome {
        if self.phase == GamePhase::GameOver {
            CommitOutcome::Ignored
        } else if self.overlapping {
            CommitOutcome::Scored((self.score + 1) as u64)
        } else {
            CommitOutcome::GameOver
        }
    }

    /// The state after one notification of the collision backend.
    pub open spec fn after_event(self, e: CollisionEvent) -> Game {
        Game { overlapping: e == CollisionEvent::Started, ..self }
    }

    /// The state after the notifications of a tick: the last one decides.
    pub open spec fn after_events(self, events: Seq<CollisionEvent>) -> Game {
        if events.len() == 0 {
            self
        } else {
            self.after_event(events.last())
        }
    }

    /// The state after the needle has turned for `dt` milliseconds.
    pub open spec fn after_rotation(self, dt: u32) -> Game {
        if self.phase == GamePhase::Playing {
            Game {
                needle: Needle {
                    angle: rotated_angle(
                        self.needle.angle as int,
                        self.needle.speed.0 as int,
                        dt as int,
                    ) as u32,
                    ..self.needle
                },
                ..self
            }
        } else {
            self
        }
    }

    /// A fresh round: playing, no score, needle and target at angle zero,
    /// the needle turning at 1 rad/s.
    pub fn new() -> (r: Game)
        ensures
            r == Game::initial(),
            r.wf(),
    {
        Game {
            phase: GamePhase::Playing,
            score: 0,
            overlapping: false,
            needle: Needle { angle: 0, speed: RotationSpeed(INITIAL_SPEED) },
            target: TargetZone { orientation: 0 },
        }
    }
}

/// Relies on rand's `thread_rng` and `Rng::gen_range`: a value drawn from the
/// non-empty range `0..TURN` lies in it. `thread_rng` panics only if the
/// operating system's random source cannot seed it.
#[verifier::external_body]
fn random_orientation() -> (r: u32)
    ensures
        r < TURN,
{
    rand::thread_rng().gen_range(0..TURN)
}

impl Game {
    /// The player commits: while playing, the needle reverses. If it overlaps
    /// the target zone the score goes up by one, the target zone moves to
    /// `new_target` and the needle speeds up by 0.5 rad/s, up to 10 rad/s;
    /// otherwise the game is over. Once over, a commit changes nothing.
    pub fn commit_with_target(&mut self, new_target: u32) -> (r: CommitOutcome)
        requires
            old(self).wf(),
            new_target < TURN,
            old(self).score < u64::MAX,
        ensures
            *final(self) == old(self).after_commit(new_target),
            r == old(self).commit_outcome(),
            final(self).wf(),
    {
        if self.phase == GamePhase::GameOver {
            return CommitOutcome::Ignored;
        }
        let reversed: i32 = -self.needle.speed.0;
        if self.overlapping {
            self.score = self.score + 1;
            self.target.orientation = new_target;
            let m: i32 = if reversed < 0 { -reversed } else { reversed };
            let faster: i32 = if m + SPEED_STEP > SPEED_CAP { SPEED_CAP } else { m + SPEED_STEP };
            self.needle.speed = RotationSpeed(if reversed < 0 { -faster } else { faster });
            CommitOutcome::Scored(self.score)
        } else {
            self.needle.speed = RotationSpeed(reversed);
            self.phase = GamePhase::GameOver;
            CommitOutcome::GameOver
        }
    }

    /// The player commits, as `commit_with_target` does, with the target zone
    /// moved on a score to an orientation drawn at random from `[0, TURN)`.
    pub fn commit(&mut self) -> (r: CommitOutcome)
        requires
            old(self).wf(),
            old(self).score < u64::MAX,
        ensures
            exists|t: u32| t < TURN && *final(self) == old(self).after_commit(t),
            r == old(self).commit_outcome(),
            final(self).wf(),
    {
        let t: u32 = if self.phase == GamePhase::Playing && self.overlapping {
            random_orientation()
        } else {
            self.target.orientation
        };
        self.commit_with_target(t)
    }

    /// Takes in one notification of the collision backend: a start sets the
    /// overlap flag, a stop clears it, and a repeated one changes nothing.
    pub fn apply_collision_event(&mut self, e: CollisionEvent)
        ensures
            *final(self) == old(self).after_event(e),
    {
        self.overlapping = match e {
            CollisionEvent::Started => true,
            CollisionEvent::Stopped => false,
        };
    }

    /// Takes in the notifications of one tick in order: the overlap flag ends
    /// as the last one says, or as it was if there is none.
    pub fn apply_collision_events(&mut self, events: &Vec<CollisionEvent>)
        ensures
            *final(self) == old(self).after_events(events@),
    {
        let mut i: usize = 0;
        while i < events.len()
            invariant
                i <= events@.len(),
                self.overlapping == if i == 0 {
                    old(self).overlapping
                } else {
                    events@[i - 1] == CollisionEvent::Started
                },
                *self == (Game { overlapping: self.overlapping, ..*old(self) }),
            decreases events@.len() - i,
        {
            self.apply_collision_event(events[i]);
            i = i + 1;
        }
    }

    /// Turns the needle for `dt` milliseconds while playing:
    /// the angle goes down by speed times time, modulo a turn.
    pub fn rotate(&mut self, dt: u32)
        requires
            old(self).wf(),
        ensures
            *final(self) == old(self).after_rotation(dt),
            final(self).wf(),
    {
        if self.phase == GamePhase::GameOver {
            return;
        }
        let s: i32 = self.needle.speed.0;
        let m: u64 = if s < 0 { (-s) as u64 } else { s as u64 };
        assert(m * (dt as int) <= (SPEED_CAP as int) * (u32::MAX as int)) by (nonlinear_arith)
            requires m <= SPEED_CAP, dt <= u32::MAX;
        let p: u64 = m * (dt as u64);
        let travel: u64 = p % (TURN as u64);
        let a: u64 = self.needle.angle as u64;
        let t: u64 = TURN as u64;
        let next: u64 = if s < 0 { (a + travel) % t } else { (a + t - travel) % t };
        proof {
            let q = (p as int) / (t as int);
            lemma_fundamental_div_mod(p as int, t as int);
            assert(p as int == t * q + travel);
            if s < 0 {
                assert((s as int) * (dt as int) == -(p as int)) by (nonlinear_arith)
                    requires m == -s, p == m * dt;
                lemma_mod_multiples_vanish(q, a + travel, t as int);
                assert(a - (s as int) * (dt as int) == t * q + (a + travel));
            } else {
                assert((s as int) * (dt as int) == p as int) by (nonlinear_arith)
                    requires m == s, p == m * dt;
                lemma_mod_multiples_vanish(-(q + 1), a + t - travel, t as int);
                assert(a - (s as int) * (dt as int) == t * (-(q + 1)) + (a + t - travel)) by (nonlinear_arith)
                    requires p == t * q + travel, (s as int) * (dt as int) == p as int;
            }
        }
        self.needle.angle = next as u32;
    }

    /// One tick of the round, in the fixed order: the collision notifications,
    /// then the player's commit if one was pressed, then the needle's turn.
    pub fn tick(&mut self, events: &Vec<CollisionEvent>, commit_pressed: bool, dt: u32) -> (r:
        Option<CommitOutcome>)
        requires
            old(self).wf(),
            old(self).score < u64::MAX,
        ensures
            final(self).wf(),
            ({
                let seen = old(self).after_events(events@);
                if commit_pressed {
                    &&& r == Some(seen.commit_outcome())
                    &&& exists|t: u32|
                        t < TURN && *final(self) == seen.after_commit(t).after_rotation(dt)
                } else {
                    &&& r is None
                    &&& *final(self) == seen.after_rotation(dt)
                }
            }),
    {
        self.apply_collision_events(events);
        let ghost seen = *self;
        if commit_pressed {
            let outcome = self.commit();
            let ghost t = choose|t: u32| t < TURN && *self == seen.after_commit(t);
            self.rotate(dt);
            assert(t < TURN && *self == seen.after_commit(t).after_rotation(dt));
            Some(outcome)
        } else {
            self.rotate(dt);
            None
        }
    }
}

} // verus!
