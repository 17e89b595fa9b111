use ring_timing::game::{
    CollisionEvent, CommitOutcome, Game, GamePhase, RotationSpeed, INITIAL_SPEED, SPEED_CAP, TURN,
};

fn hit(g: &mut Game, new_target: u32) -> CommitOutcome {
    g.apply_collision_event(CollisionEvent::Started);
    g.commit_with_target(new_target)
}

#[test]
fn fresh_game_starts_playing() {
    let g = Game::new();
    assert_eq!(g.phase, GamePhase::Playing);
    assert_eq!(g.score, 0);
    assert!(!g.overlapping);
    assert_eq!(g.needle.speed, RotationSpeed(INITIAL_SPEED));
    assert_eq!(g.needle.angle, 0);
    assert_eq!(g.target.orientation, 0);
}

#[test]
fn miss_on_fresh_game_ends_it() {
    let mut g = Game::new();
    let r = g.commit_with_target(123);
    assert_eq!(r, CommitOutcome::GameOver);
    assert_eq!(g.phase, GamePhase::GameOver);
    assert_eq!(g.score, 0);
    assert_eq!(g.needle.speed, RotationSpeed(-1000));
    assert_eq!(g.target.orientation, 0);
}

#[test]
fn hit_on_fresh_game_scores() {
    let mut g = Game::new();
    let r = hit(&mut g, 1_000_000);
    assert_eq!(r, CommitOutcome::Scored(1));
    assert_eq!(g.score, 1);
    assert_eq!(g.needle.speed, RotationSpeed(-1500));
    assert_eq!(g.target.orientation, 1_000_000);
    assert_ne!(g.target.orientation, Game::new().target.orientation);
    assert_eq!(g.phase, GamePhase::Playing);
}

#[test]
fn random_commit_moves_target_within_a_turn() {
    let mut g = Game::new();
    g.apply_collision_event(CollisionEvent::Started);
    let r = g.commit();
    assert_eq!(r, CommitOutcome::Scored(1));
    assert!(g.target.orientation < TURN);
    assert_eq!(g.needle.speed, RotationSpeed(-1500));
    let mut seen_elsewhere = false;
    for _ in 0..20 {
        g.commit();
        if g.target.orientation != 0 {
            seen_elsewhere = true;
        }
        assert!(g.target.orientation < TURN);
    }
    assert!(seen_elsewhere);
    assert_eq!(g.score, 21);
}

#[test]
fn miss_by_random_commit_keeps_target() {
    let mut g = Game::new();
    g.target.orientation = 777;
    assert_eq!(g.commit(), CommitOutcome::GameOver);
    assert_eq!(g.target.orientation, 777);
}

#[test]
fn five_hits_ramp_speed_and_alternate_sign() {
    let mut g = Game::new();
    let expected = [-1500, 2000, -2500, 3000, -3500];
    for (i, e) in expected.iter().enumerate() {
        let r = hit(&mut g, 10 * i as u32);
        assert_eq!(r, CommitOutcome::Scored(i as u64 + 1));
        assert_eq!(g.needle.speed, RotationSpeed(*e));
    }
    assert_eq!(g.score, 5);
    assert_eq!(g.needle.speed.0.abs(), 3500);
}

#[test]
fn speed_stays_at_cap() {
    let mut g = Game::new();
    let mut previous = g.needle.speed.0.abs();
    for _ in 0..25 {
        hit(&mut g, 5);
        let m = g.needle.speed.0.abs();
        assert!(m >= previous);
        assert!(m <= SPEED_CAP);
        previous = m;
    }
    assert_eq!(previous, SPEED_CAP);
    hit(&mut g, 5);
    assert_eq!(g.needle.speed.0.abs(), 10_000);
}

#[test]
fn game_over_freezes_state() {
    let mut g = Game::new();
    hit(&mut g, 42);
    g.apply_collision_event(CollisionEvent::Stopped);
    assert_eq!(g.commit_with_target(7), CommitOutcome::GameOver);
    let frozen = g;
    g.apply_collision_event(CollisionEvent::Started);
    assert_eq!(g.commit_with_target(99), CommitOutcome::Ignored);
    assert_eq!(g.commit(), CommitOutcome::Ignored);
    assert_eq!(g.phase, GamePhase::GameOver);
    assert_eq!(g.score, frozen.score);
    assert_eq!(g.needle, frozen.needle);
    assert_eq!(g.target, frozen.target);
}

#[test]
fn score_never_falls_over_mixed_commits() {
    let mut g = Game::new();
    let flags = [true, true, false, true, false];
    let mut last = g.score;
    for (i, f) in flags.iter().enumerate() {
        let before = g;
        g.overlapping = *f;
        g.commit_with_target(i as u32);
        assert!(g.score >= last);
        if g.score != last {
            assert_eq!(before.phase, GamePhase::Playing);
        }
        last = g.score;
    }
    assert_eq!(g.score, 2);
    assert_eq!(g.phase, GamePhase::GameOver);
}

#[test]
fn each_commit_while_playing_flips_sign() {
    let mut g = Game::new();
    hit(&mut g, 1);
    assert!(g.needle.speed.0 < 0);
    hit(&mut g, 2);
    assert!(g.needle.speed.0 > 0);
    g.apply_collision_event(CollisionEvent::Stopped);
    g.commit_with_target(3);
    assert!(g.needle.speed.0 < 0);
}

#[test]
fn overlap_ended_in_same_tick_counts_as_miss() {
    let mut g = Game::new();
    assert_eq!(g.tick(&vec![CollisionEvent::Started], false, 16), None);
    assert!(g.overlapping);
    let r = g.tick(&vec![CollisionEvent::Stopped], true, 16);
    assert_eq!(r, Some(CommitOutcome::GameOver));
    assert_eq!(g.phase, GamePhase::GameOver);
    assert_eq!(g.score, 0);
}

#[test]
fn overlap_started_in_same_tick_counts_as_hit() {
    let mut g = Game::new();
    let r = g.tick(&vec![CollisionEvent::Stopped, CollisionEvent::Started], true, 16);
    assert_eq!(r, Some(CommitOutcome::Scored(1)));
    assert!(g.target.orientation < TURN);
}

#[test]
fn collision_events_last_one_wins() {
    let mut g = Game::new();
    g.apply_collision_events(&vec![]);
    assert!(!g.overlapping);
    g.apply_collision_events(&vec![CollisionEvent::Started, CollisionEvent::Started]);
    assert!(g.overlapping);
    g.apply_collision_events(&vec![]);
    assert!(g.overlapping);
    g.apply_collision_events(&vec![CollisionEvent::Started, CollisionEvent::Stopped]);
    assert!(!g.overlapping);
    g.apply_collision_event(CollisionEvent::Stopped);
    assert!(!g.overlapping);
}

#[test]
fn rotation_turns_against_speed_and_wraps() {
    let mut g = Game::new();
    g.rotate(16);
    assert_eq!(g.needle.angle, TURN - 16_000);
    g.needle.speed = RotationSpeed(-2000);
    g.rotate(10);
    assert_eq!(g.needle.angle, TURN - 16_000 + 20_000 - TURN);
    g.needle.angle = 0;
    g.needle.speed = RotationSpeed(SPEED_CAP);
    g.rotate(u32::MAX);
    let expected = ((-(10_000i128) * u32::MAX as i128).rem_euclid(TURN as i128)) as u32;
    assert_eq!(g.needle.angle, expected);
}

#[test]
fn rotation_stops_after_game_over() {
    let mut g = Game::new();
    g.commit_with_target(0);
    let before = g.needle.angle;
    g.rotate(500);
    assert_eq!(g.needle.angle, before);
}
