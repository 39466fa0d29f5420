//! Obstacle pairs: when they appear, where they stand and how they scroll.

use crate::geometry::{Point, RigidBody};
use crate::rng::{draw_i32, fork_rng};
use crate::timer::{elapsed_after, fires, periods_completed, RepeatingTimer};
use bevy_turborand::{GlobalRng, RngComponent};
use vstd::prelude::*;

verus! {

/// Horizontal position at which an anchor appears.
pub const SPAWN_X: i64 = 500;

/// Lowest vertical position of a new anchor.
pub const OFFSET_MIN: i32 = -200;

/// Highest vertical position of a new anchor.
pub const OFFSET_MAX: i32 = 200;

/// Distance of each bar's centre above or below its anchor.
pub const BAR_OFFSET: i64 = 350;

/// Width of a bar.
pub const BAR_WIDTH: i64 = 50;

/// Height of a bar.
pub const BAR_HEIGHT: i64 = 500;

/// Depth of a bar.
pub const BAR_DEPTH: i64 = 1;

/// Radius of the disc drawn at an anchor.
pub const ANCHOR_RADIUS: i64 = 10;

/// Distance an anchor moves to the left in one frame.
pub const SCROLL_STEP: i64 = 5;

/// One bar of an obstacle pair, placed relative to the pair's anchor.
#[derive(Clone, Copy, Debug, PartialEq, Eq, Structural)]
pub struct Bar {
    pub offset: Point,
    pub width: i64,
    pub height: i64,
    pub depth: i64,
    pub body: RigidBody,
}

/// The anchor of an obstacle pair with its two bars.
#[derive(Debug, PartialEq)]
pub struct PipeSpawner {
    pub translation: Point,
    pub radius: i64,
    pub rng: RngComponent,
    pub pipe_up: Bar,
    pub pipe_bottom: Bar,
}

/// The process-wide timer that paces the obstacle pairs.
#[derive(Debug)]
pub struct PipeSpawnerResource {
    pub timer: RepeatingTimer,
}

/// The bar whose centre stands `dy` above its anchor.
pub open spec fn bar_at(dy: i64) -> Bar {
    Bar {
        offset: Point { x: 0, y: dy },
        width: BAR_WIDTH,
        height: BAR_HEIGHT,
        depth: BAR_DEPTH,
        body: RigidBody::KinematicPositionBased,
    }
}

/// The obstacle pair that appears at height `offset` and carries `rng`.
pub open spec fn placed(offset: i32, rng: RngComponent) -> PipeSpawner {
    PipeSpawner {
        translation: Point { x: SPAWN_X, y: offset as i64 },
        radius: ANCHOR_RADIUS,
        rng,
        pipe_up: bar_at(BAR_OFFSET),
        pipe_bottom: bar_at((-BAR_OFFSET) as i64),
    }
}

/// Where an anchor at `translation` stands one frame later.
pub open spec fn scrolled_point(translation: Point) -> Point {
    Point { x: (translation.x - SCROLL_STEP) as i64, y: translation.y }
}

/// The pair `pipes` after one frame of scrolling.
pub open spec fn scrolled(pipes: PipeSpawner) -> PipeSpawner {
    PipeSpawner { translation: scrolled_point(pipes.translation), ..pipes }
}

/// The pair `pipes` after `frames` frames of scrolling.
pub open spec fn scrolled_frames(pipes: PipeSpawner, frames: nat) -> PipeSpawner
    decreases frames,
{
    if frames == 0 {
        pipes
    } else {
        scrolled(scrolled_frames(pipes, (frames - 1) as nat))
    }
}

/// Lays out a new obstacle pair at height `offset`: one anchor at the spawn
/// column and one bar at a fixed distance above and below it.
pub fn place_pipes(offset: i32, rng: RngComponent) -> (pipes: PipeSpawner)
    ensures
        pipes == placed(offset, rng),
{
    let pipe_up = Bar {
        offset: Point { x: 0, y: BAR_OFFSET },
        width: BAR_WIDTH,
        height: BAR_HEIGHT,
        depth: BAR_DEPTH,
        body: RigidBody::KinematicPositionBased,
    };
    let pipe_bottom = Bar {
        offset: Point { x: 0, y: -BAR_OFFSET },
        width: BAR_WIDTH,
        height: BAR_HEIGHT,
        depth: BAR_DEPTH,
        body: RigidBody::KinematicPositionBased,
    };
    PipeSpawner {
        translation: Point { x: SPAWN_X, y: offset as i64 },
        radius: ANCHOR_RADIUS,
        rng,
        pipe_up,
        pipe_bottom,
    }
}

/// Advances the spawn timer by one frame of `delta_nanos`. On the frame in
/// which the timer fires, draws a height and returns the new obstacle pair;
/// on every other frame returns nothing and leaves the generator alone.
pub fn spawn_pipes(
    spawner: &mut PipeSpawnerResource,
    delta_nanos: u64,
    global_rng: &mut GlobalRng,
) -> (spawned: Option<PipeSpawner>)
    requires
        periods_completed(
            old(spawner).timer.period(),
            old(spawner).timer.elapsed(),
            delta_nanos as nat,
        ) <= u32::MAX,
    ensures
        final(spawner).timer.period() == old(spawner).timer.period(),
        final(spawner).timer.elapsed() == elapsed_after(
            old(spawner).timer.period(),
            old(spawner).timer.elapsed(),
            delta_nanos as nat,
        ),
        final(spawner).timer.completed() == periods_completed(
            old(spawner).timer.period(),
            old(spawner).timer.elapsed(),
            delta_nanos as nat,
        ),
        final(spawner).timer.fired() == spawned.is_some(),
        spawned.is_some() == fires(
            old(spawner).timer.period(),
            old(spawner).timer.elapsed(),
            delta_nanos as nat,
        ),
        spawned.is_none() ==> *final(global_rng) == *old(global_rng),
        spawned matches Some(pipes) ==> OFFSET_MIN <= pipes.translation.y <= OFFSET_MAX,
        spawned matches Some(pipes) ==> pipes == placed(pipes.translation.y as i32, pipes.rng),
{
    if spawner.timer.tick(delta_nanos) {
        let offset: i32 = draw_i32(global_rng, OFFSET_MIN, OFFSET_MAX);
        let rng = fork_rng(global_rng);
        let pipes = place_pipes(offset, rng);
        Some(pipes)
    } else {
        None
    }
}

/// Whether an anchor at `translation` has room for one more frame of
/// scrolling before the coordinate runs out.
pub fn can_scroll(translation: &Point) -> (ok: bool)
    ensures
        ok == (translation.x - SCROLL_STEP >= i64::MIN),
{
    translation.x >= i64::MIN + SCROLL_STEP
}

/// Moves an anchor one frame's distance to the left.
pub fn scroll(translation: &mut Point)
    requires
        old(translation).x - SCROLL_STEP >= i64::MIN,
    ensures
        *final(translation) == scrolled_point(*old(translation)),
{
    translation.x = translation.x - SCROLL_STEP;
}

/// Moves every obstacle pair one frame's distance to the left.
pub fn move_pipes(pipes: &mut Vec<PipeSpawner>)
    requires
        forall|i: int| 0 <= i < old(pipes).len() ==> old(pipes)[i].translation.x - SCROLL_STEP >= i64::MIN,
    ensures
        final(pipes).len() == old(pipes).len(),
        forall|i: int| 0 <= i < old(pipes).len() ==> final(pipes)[i] == scrolled(old(pipes)[i]),
{
    let n: usize = pipes.len();
    let mut i: usize = 0;
    while i < n
        invariant
            i <= n,
            pipes.len() == n,
            n == old(pipes).len(),
            forall|j: int| 0 <= j < i ==> pipes[j] == scrolled(old(pipes)[j]),
            forall|j: int| i <= j < n ==> pipes[j] == old(pipes)[j],
            forall|j: int| 0 <= j < n ==> old(pipes)[j].translation.x - SCROLL_STEP >= i64::MIN,
        decreases n - i,
    {
        scroll(&mut pipes[i].translation);
        i = i + 1;
    }
}

/// An anchor moves left by the same distance in every frame: after `frames`
/// frames it stands `frames` steps to the left of where it started, at the
/// same height and otherwise unchanged.
pub proof fn lemma_scroll_displacement(pipes: PipeSpawner, frames: nat)
    requires
        pipes.translation.x - SCROLL_STEP * frames >= i64::MIN,
    ensures
        scrolled_frames(pipes, frames).translation.x == pipes.translation.x - SCROLL_STEP * frames,
        scrolled_frames(pipes, frames) == (PipeSpawner {
            translation: Point { x: scrolled_frames(pipes, frames).translation.x, y: pipes.translation.y },
            ..pipes
        }),
        frames > 0 ==> scrolled_frames(pipes, frames).translation.x < scrolled_frames(
            pipes,
            (frames - 1) as nat,
        ).translation.x,
    decreases frames,
{
    if frames > 0 {
        lemma_scroll_displacement(pipes, (frames - 1) as nat);
    }
}

} // verus!
