//! What holds of a round over any sequence of commits.
//!
//! A step is the overlap flag as the collision backend last reported it when
//! the player commits, and the orientation the target zone moves to should
//! the commit score.
use vstd::prelude::*;
use crate::game::{magnitude, Game, GamePhase, SPEED_CAP, SPEED_STEP, TURN};

verus! {

/// One commit, made while the overlap flag reads `overlapping`.
pub open spec fn step(g: Game, overlapping: bool, new_target: u32) -> Game {
    Game { overlapping, ..g }.after_commit(new_target)
}

/// The state after each step of `steps` in turn.
pub open spec fn after_commits(g: Game, steps: Seq<(bool, u32)>) -> Game
    decreases steps.len(),
{
    if steps.len() == 0 {
        g
    } else {
        let h = after_commits(g, steps.drop_last());
        step(h, steps.last().0, steps.last().1)
    }
}

/// Every target orientation in the steps is a valid angle.
pub open spec fn targets_valid(steps: Seq<(bool, u32)>) -> bool {
    forall|i: int| 0 <= i < steps.len() ==> (#[trigger] steps[i]).1 < TURN
}

/// A commit keeps the state well formed; the score rises by at most one and
/// only while playing.
pub proof fn lemma_commit_score(g: Game, overlapping: bool, new_target: u32)
    requires
        g.wf(),
        new_target < TURN,
        g.score < u64::MAX,
    ensures
        step(g, overlapping, new_target).wf(),
        g.score <= step(g, overlapping, new_target).score <= g.score + 1,
        step(g, overlapping, new_target).score != g.score ==> g.phase == GamePhase::Playing,
{
}

/// Over any sequence of commits the score never falls, rises by at most one
/// per commit, and does not move once the game is over.
pub proof fn lemma_score_never_falls(g: Game, steps: Seq<(bool, u32)>)
    requires
        g.wf(),
        targets_valid(steps),
        g.score + steps.len() <= u64::MAX,
    ensures
        after_commits(g, steps).wf(),
        g.score <= after_commits(g, steps).score <= g.score + steps.len(),
        g.phase == GamePhase::GameOver ==> after_commits(g, steps).score == g.score,
    decreases steps.len(),
{
    if steps.len() > 0 {
        let init = steps.drop_last();
        assert(targets_valid(init)) by {
            assert forall|i: int| 0 <= i < init.len() implies (#[trigger] init[i]).1 < TURN by {
                assert(init[i] == steps[i]);
            }
        }
        lemma_score_never_falls(g, init);
        assert(steps[steps.len() - 1].1 < TURN);
        lemma_commit_score(after_commits(g, init), steps.last().0, steps.last().1);
        lemma_game_over_is_final(g, init);
    }
}

/// Once the game is over, commits change neither the phase, the score, the
/// needle nor the target zone; and a game that is playing after some commits
/// was playing before them, so the game ends at most once.
pub proof fn lemma_game_over_is_final(g: Game, steps: Seq<(bool, u32)>)
    ensures
        g.phase == GamePhase::GameOver ==> {
            let h = after_commits(g, steps);
            &&& h.phase == GamePhase::GameOver
            &&& h.score == g.score
            &&& h.needle == g.needle
            &&& h.target == g.target
        },
        after_commits(g, steps).phase == GamePhase::Playing ==> g.phase == GamePhase::Playing,
    decreases steps.len(),
{
    if steps.len() > 0 {
        lemma_game_over_is_final(g, steps.drop_last());
    }
}

/// A commit while playing reverses the needle, whether it scores or not.
pub proof fn lemma_commit_reverses(g: Game, overlapping: bool, new_target: u32)
    requires
        g.wf(),
        g.phase == GamePhase::Playing,
    ensures
        (g.needle.speed.0 < 0) <==> (step(g, overlapping, new_target).needle.speed.0 > 0),
        (g.needle.speed.0 > 0) <==> (step(g, overlapping, new_target).needle.speed.0 < 0),
{
}

/// A commit that scores raises the needle's speed by 0.5 rad/s up to the cap,
/// keeping it at the cap once there; any other commit leaves its magnitude.
pub proof fn lemma_commit_speed(g: Game, overlapping: bool, new_target: u32)
    requires
        g.wf(),
    ensures
        ({
            let m = magnitude(g.needle.speed.0 as int);
            let m2 = magnitude(step(g, overlapping, new_target).needle.speed.0 as int);
            if g.phase == GamePhase::Playing && overlapping {
                m2 == if m + SPEED_STEP > SPEED_CAP { SPEED_CAP as int } else { m + SPEED_STEP }
            } else {
                m2 == m
            }
        }),
{
}

/// Over any sequence of commits the needle's speed never slows and never
/// exceeds the cap.
pub proof fn lemma_speed_never_falls(g: Game, steps: Seq<(bool, u32)>)
    requires
        g.wf(),
        targets_valid(steps),
        g.score + steps.len() <= u64::MAX,
    ensures
        magnitude(g.needle.speed.0 as int) <= magnitude(after_commits(g, steps).needle.speed.0 as int),
        magnitude(after_commits(g, steps).needle.speed.0 as int) <= SPEED_CAP,
    decreases steps.len(),
{
    if steps.len() > 0 {
        let init = steps.drop_last();
        assert(targets_valid(init)) by {
            assert forall|i: int| 0 <= i < init.len() implies (#[trigger] init[i]).1 < TURN by {
                assert(init[i] == steps[i]);
            }
        }
        lemma_speed_never_falls(g, init);
        lemma_score_never_falls(g, init);
        lemma_commit_speed(after_commits(g, init), steps.last().0, steps.last().1);
    }
}

} // verus!
