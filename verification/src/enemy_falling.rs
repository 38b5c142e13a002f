//! Enemies falling off the platform, and coming back.

use vstd::prelude::*;
use crate::actor::{Body, PARKED_HEIGHT};
use crate::enemy::{Enemy, EnemyState, HOVER_HEIGHT};
use crate::movement::{apply_fall_acceleration, spec_fall_acceleration, FALL_THRESHOLD};
use crate::score::{after_fall, BearScore};
use crate::timer::TimerMode;
use crate::vector::Vec3;

verus! {

/// An enemy with its body and its score.
pub struct FallState {
    pub enemy: Enemy,
    pub body: Body,
    pub score: int,
}

impl FallState {
    /// The state after one frame of `elapsed` microseconds.
    ///
    /// An enemy that has not fallen is pulled down where it has left the
    /// platform.  Below the fall threshold it falls: it is flagged, loses a
    /// point, is parked far below the arena and held still, and its respawn
    /// timer starts over.  A fallen enemy's respawn timer advances, in the
    /// frame of the fall too; once it has run out the enemy is back on
    /// patrol, held still at the respawn point.
    pub open spec fn step(self, elapsed: u32) -> FallState {
        let pulled = if self.enemy.is_fallen {
            self
        } else {
            FallState {
                body: Body {
                    velocity: spec_fall_acceleration(self.body.velocity, self.body.position.y, elapsed),
                    ..self.body
                },
                ..self
            }
        };
        let fallen = if !pulled.enemy.is_fallen && pulled.body.position.y < FALL_THRESHOLD {
            FallState {
                enemy: Enemy {
                    is_fallen: true,
                    state: EnemyState::Fallen,
                    respawn_timer: pulled.enemy.respawn_timer.restarted(),
                    ..pulled.enemy
                },
                body: pulled.body.parked(),
                score: after_fall(pulled.score),
            }
        } else {
            pulled
        };
        if fallen.enemy.is_fallen {
            let timer = fallen.enemy.respawn_timer.ticked(elapsed);
            if timer.finished {
                FallState {
                    enemy: Enemy {
                        is_fallen: false,
                        state: EnemyState::Patrol,
                        respawn_timer: timer,
                        ..fallen.enemy
                    },
                    body: fallen.body.respawned(),
                    score: fallen.score,
                }
            } else {
                FallState { enemy: Enemy { respawn_timer: timer, ..fallen.enemy }, ..fallen }
            }
        } else {
            fallen
        }
    }

    /// The state after a run of frames, first to last.
    pub open spec fn run(self, frames: Seq<u32>) -> FallState
        decreases frames.len(),
    {
        if frames.len() == 0 {
            self
        } else {
            self.run(frames.drop_last()).step(frames.last())
        }
    }

    /// Back on the platform: on patrol, held still at the respawn point.
    pub open spec fn is_back(self) -> bool {
        &&& !self.enemy.is_fallen
        &&& self.enemy.state == EnemyState::Patrol
        &&& self.body == self.body.respawned()
    }
}

/// The time that a run of frames takes.
pub open spec fn total_time(frames: Seq<u32>) -> nat
    decreases frames.len(),
{
    if frames.len() == 0 {
        0
    } else {
        total_time(frames.drop_last()) + frames.last() as nat
    }
}

/// One frame of the fall-and-respawn rules for one enemy: see
/// `FallState::step`.
pub fn handle_enemy_falls(enemy: &mut Enemy, body: &mut Body, score: &mut BearScore, elapsed: u32)
    ensures
        (FallState { enemy: *final(enemy), body: *final(body), score: final(score).value as int })
            == (FallState { enemy: *old(enemy), body: *old(body), score: old(score).value as int }).step(
            elapsed,
        ),
        final(score).name == old(score).name,
        old(enemy).wf() ==> final(enemy).wf(),
        !old(enemy).is_fallen && old(body).position.y < FALL_THRESHOLD && elapsed < old(
            enemy,
        ).respawn_timer.duration ==> {
            &&& final(enemy).is_fallen
            &&& final(enemy).state == EnemyState::Fallen
            &&& final(score).value == after_fall(old(score).value as int)
            &&& *final(body) == old(body).parked()
        },
{
    if !enemy.is_fallen {
        body.velocity = apply_fall_acceleration(body.velocity, body.position.y, elapsed);
    }
    if body.position.y < FALL_THRESHOLD && !enemy.is_fallen {
        enemy.is_fallen = true;
        enemy.state = EnemyState::Fallen;
        enemy.respawn_timer.reset();
        score.lose_point();
        body.park();
    }
    if enemy.is_fallen {
        enemy.respawn_timer.tick(elapsed);
        if enemy.respawn_timer.finished() {
            enemy.is_fallen = false;
            enemy.state = EnemyState::Patrol;
            body.position = Vec3 { x: 0, y: HOVER_HEIGHT, z: 0 };
            body.halt();
        }
    }
}

/// An enemy below the fall threshold falls: after a frame shorter than the
/// respawn delay it is flagged as fallen and in the fallen state, it has lost
/// exactly one point (unless its score was the least there is), and it is
/// held still far below the arena.
pub proof fn lemma_fall(start: FallState, elapsed: u32)
    requires
        !start.enemy.is_fallen,
        start.body.position.y < FALL_THRESHOLD,
        elapsed < start.enemy.respawn_timer.duration,
    ensures
        start.step(elapsed).enemy.is_fallen,
        start.step(elapsed).enemy.state == EnemyState::Fallen,
        start.step(elapsed).score == after_fall(start.score),
        start.score > i32::MIN ==> start.step(elapsed).score == start.score - 1,
        start.step(elapsed).body == start.body.parked(),
        start.step(elapsed).body.position.y <= PARKED_HEIGHT,
        start.step(elapsed).body.velocity == Vec3::spec_zero(),
{
}

/// The round trip of a fall.  An enemy below the fall threshold, over a run
/// of frames that takes at least its respawn delay, ends up back on patrol,
/// held still at the respawn point, with exactly one point less (unless its
/// score was the least there is).
pub proof fn lemma_fall_round_trip(start: FallState, frames: Seq<u32>)
    requires
        start.enemy.wf(),
        !start.enemy.is_fallen,
        start.body.position.y < FALL_THRESHOLD,
        start.enemy.respawn_timer.mode == TimerMode::Once,
        frames.len() > 0,
        total_time(frames) >= start.enemy.respawn_timer.duration,
    ensures
        start.run(frames).is_back(),
        start.run(frames).score == after_fall(start.score),
        start.score > i32::MIN ==> start.run(frames).score == start.score - 1,
        start.run(frames).enemy.wf(),
{
    lemma_fall_progress(start, frames);
}

/// Where an enemy that fell stands after a run of frames: still away while
/// the run is shorter than the respawn delay, with its timer at the time the
/// run took; back after that.  One point is lost either way.
pub proof fn lemma_fall_progress(start: FallState, frames: Seq<u32>)
    requires
        !start.enemy.is_fallen,
        start.body.position.y < FALL_THRESHOLD,
        start.enemy.respawn_timer.mode == TimerMode::Once,
        frames.len() > 0,
    ensures
        start.run(frames).score == after_fall(start.score),
        start.run(frames).enemy.respawn_timer.mode == TimerMode::Once,
        start.run(frames).enemy.respawn_timer.duration == start.enemy.respawn_timer.duration,
        total_time(frames) < start.enemy.respawn_timer.duration ==> {
            &&& start.run(frames).enemy.is_fallen
            &&& start.run(frames).enemy.state == EnemyState::Fallen
            &&& start.run(frames).body == start.body.parked()
            &&& !start.run(frames).enemy.respawn_timer.finished
            &&& start.run(frames).enemy.respawn_timer.elapsed == total_time(frames)
        },
        total_time(frames) >= start.enemy.respawn_timer.duration ==> start.run(frames).is_back(),
    decreases frames.len(),
{
    let before = frames.drop_last();
    if before.len() == 0 {
        assert(start.run(before) == start);
        assert(total_time(before) == 0);
    } else {
        lemma_fall_progress(start, before);
    }
}

} // verus!
