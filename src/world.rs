use crate::clock::GameClock;
use crate::direction::{lemma_opposite_involution, opposite_of, unit_offset, Direction};
use crate::grid::{
    grid_aligned, in_play_area, position, snap_to_cell, snapped, Position, NODE_SIZE,
    PLAY_AREA_HALF_EXTENT,
};
use crate::score::{score_label, score_text, Scoreboard};
use rand::Rng;
use vstd::prelude::*;

verus! {

/// Which directional keys are held down this frame.
#[derive(Clone, Copy, Debug, PartialEq, Eq, Structural)]
pub struct Keys {
    pub left: bool,
    pub right: bool,
    pub up: bool,
    pub down: bool,
}

/// The facing asked for by the keys: the first held key in the order Left,
/// Down, Up, Right wins; with none held, the current facing.
pub open spec fn requested(keys: Keys, current: Direction) -> Direction {
    if keys.left {
        Direction::Left
    } else if keys.down {
        Direction::Down
    } else if keys.up {
        Direction::Up
    } else if keys.right {
        Direction::Right
    } else {
        current
    }
}

/// The facing after input: the requested one, unless it would reverse the
/// current facing outright.
pub open spec fn steered(keys: Keys, current: Direction) -> Direction {
    let want = requested(keys, current);
    if want != opposite_of(current) {
        want
    } else {
        current
    }
}

/// Input never turns the head to the exact reverse of its facing.
pub proof fn lemma_no_reversal(keys: Keys, current: Direction)
    ensures
        steered(keys, current) != opposite_of(current),
{
    lemma_opposite_involution(current);
}

/// The point one cell away from `p` in facing `d`.
pub open spec fn moved(p: Position, d: Direction) -> (int, int) {
    (
        p.x + unit_offset(d).0 * (NODE_SIZE as int),
        p.y + unit_offset(d).1 * (NODE_SIZE as int),
    )
}

/// A coordinate that can move one cell either way without leaving `i64`.
pub open spec fn has_room(c: int) -> bool {
    i64::MIN + NODE_SIZE <= c <= i64::MAX - NODE_SIZE
}

/// The facing controller of the snake's head.
#[derive(Clone, Copy, Debug, PartialEq, Eq, Structural)]
pub struct DirectionController {
    pub direction: Direction,
}

impl DirectionController {
    pub fn new(direction: Direction) -> (r: DirectionController)
        ensures
            r.direction == direction,
    {
        DirectionController { direction }
    }
}

/// The snake's head: where it is and where it faces.
#[derive(Clone, Copy, Debug, PartialEq, Eq, Structural)]
pub struct SnakeHead {
    pub position: Position,
    pub controller: DirectionController,
}

impl SnakeHead {
    /// Whether the head can take a step in any facing.
    pub open spec fn room_to_move(self) -> bool {
        has_room(self.position.x as int) && has_room(self.position.y as int)
    }

    pub fn can_move(&self) -> (r: bool)
        ensures
            r == self.room_to_move(),
    {
        i64::MIN + NODE_SIZE <= self.position.x && self.position.x <= i64::MAX - NODE_SIZE
            && i64::MIN + NODE_SIZE <= self.position.y && self.position.y <= i64::MAX - NODE_SIZE
    }
}

/// Relies on rand's `thread_rng` and `Rng::gen_range` over a half-open
/// range: a value in `[lo, hi)`. It panics on an empty range.
#[verifier::external_body]
fn random_in(lo: i32, hi: i32) -> (r: i32)
    requires
        lo < hi,
    ensures
        lo <= r < hi,
{
    rand::thread_rng().gen_range(lo..hi)
}

/// A step in each facing changes exactly one coordinate, by exactly one cell
/// size: Right adds it to x, Left takes it from x, Up adds it to y, Down
/// takes it from y.
pub proof fn lemma_step_one_cell(p: Position, d: Direction)
    ensures
        d == Direction::Right ==> moved(p, d) == (p.x + NODE_SIZE, p.y as int),
        d == Direction::Left ==> moved(p, d) == (p.x - NODE_SIZE, p.y as int),
        d == Direction::Up ==> moved(p, d) == (p.x as int, p.y + NODE_SIZE),
        d == Direction::Down ==> moved(p, d) == (p.x as int, p.y - NODE_SIZE),
{
}

/// Everything the game updates: the head, the apple if there is one, the
/// score and the clock.
#[derive(Clone, Copy, Debug)]
pub struct World {
    pub head: SnakeHead,
    pub apple: Option<Position>,
    pub score: Scoreboard,
    pub clock: GameClock,
}

impl World {
    pub open spec fn wf(self) -> bool {
        self.clock.wf()
    }

    /// Whether a frame can run without a coordinate or the score leaving its
    /// integer type.
    pub open spec fn room_to_run(self) -> bool {
        self.head.room_to_move() && self.score.0 < u64::MAX
    }

    /// The game at its start: the head at the origin facing right, no apple,
    /// a zero score and a fresh half-second clock.
    pub fn new() -> (r: World)
        ensures
            r.wf(),
            r.head.position == (Position { x: 0, y: 0 }),
            r.head.controller.direction == Direction::Right,
            r.apple.is_none(),
            r.score.0 == 0,
            r.clock == GameClock::new_spec(crate::clock::TICK_PERIOD_NANOS),
    {
        World {
            head: SnakeHead {
                position: position(0, 0),
                controller: DirectionController::new(Direction::Right),
            },
            apple: None,
            score: Scoreboard(0),
            clock: GameClock::game_tick(),
        }
    }

    pub fn can_run(&self) -> (r: bool)
        ensures
            r == self.room_to_run(),
    {
        self.head.can_move() && self.score.0 < u64::MAX
    }

    /// Feeds the frame's elapsed time, in nanoseconds, to the clock.
    pub fn timer_tick_system(&mut self, delta: u64)
        requires
            old(self).wf(),
        ensures
            final(self).wf(),
            final(self).clock == old(self).clock.ticked(delta as nat),
            final(self).head == old(self).head,
            final(self).apple == old(self).apple,
            final(self).score == old(self).score,
    {
        self.clock.tick(delta);
    }

    /// Turns the head as the keys ask, refusing an outright reversal.
    pub fn snake_controls_system(&mut self, keys: Keys)
        ensures
            final(self).head.controller.direction == steered(
                keys,
                old(self).head.controller.direction,
            ),
            final(self).head.position == old(self).head.position,
            final(self).apple == old(self).apple,
            final(self).score == old(self).score,
            final(self).clock == old(self).clock,
    {
        let current = self.head.controller.direction;
        let want = if keys.left {
            Direction::Left
        } else if keys.down {
            Direction::Down
        } else if keys.up {
            Direction::Up
        } else if keys.right {
            Direction::Right
        } else {
            current
        };
        if want != current.opposite() {
            self.head.controller.direction = want;
        }
    }

    /// On a tick, moves the head one cell in its facing.
    pub fn snake_head_movement_system(&mut self)
        requires
            old(self).clock.just_finished ==> old(self).head.room_to_move(),
        ensures
            old(self).clock.just_finished ==> {
                &&& final(self).head.position.x == moved(
                    old(self).head.position,
                    old(self).head.controller.direction,
                ).0
                &&& final(self).head.position.y == moved(
                    old(self).head.position,
                    old(self).head.controller.direction,
                ).1
            },
            !old(self).clock.just_finished ==> final(self).head.position == old(
                self,
            ).head.position,
            final(self).head.controller == old(self).head.controller,
            final(self).apple == old(self).apple,
            final(self).score == old(self).score,
            final(self).clock == old(self).clock,
    {
        if !self.clock.finished() {
            return ;
        }
        match self.head.controller.direction {
            Direction::Up => self.head.position.y = self.head.position.y + NODE_SIZE,
            Direction::Right => self.head.position.x = self.head.position.x + NODE_SIZE,
            Direction::Down => self.head.position.y = self.head.position.y - NODE_SIZE,
            Direction::Left => self.head.position.x = self.head.position.x - NODE_SIZE,
        }
    }

    /// On a tick with no apple, places one at the cell that holds the sampled
    /// world point `(sx, sy)`, snapped toward zero on each axis.
    pub fn place_apple(&mut self, sx: i32, sy: i32)
        ensures
            old(self).clock.just_finished && old(self).apple.is_none() ==> final(self).apple
                == Some(Position { x: snapped(sx as int) as i64, y: snapped(sy as int) as i64 }),
            !(old(self).clock.just_finished && old(self).apple.is_none()) ==> final(self).apple
                == old(self).apple,
            final(self).head == old(self).head,
            final(self).score == old(self).score,
            final(self).clock == old(self).clock,
    {
        if !self.clock.finished() || self.apple.is_some() {
            return ;
        }
        self.apple = Some(Position { x: snap_to_cell(sx), y: snap_to_cell(sy) });
    }

    /// On a tick with no apple, places one on a random grid cell of the play
    /// area.
    pub fn apple_spawner_system(&mut self)
        ensures
            old(self).clock.just_finished && old(self).apple.is_none() ==> {
                &&& final(self).apple is Some
                &&& grid_aligned(final(self).apple->Some_0)
                &&& in_play_area(final(self).apple->Some_0.x as int)
                &&& in_play_area(final(self).apple->Some_0.y as int)
            },
            !(old(self).clock.just_finished && old(self).apple.is_none()) ==> final(self).apple
                == old(self).apple,
            final(self).head == old(self).head,
            final(self).score == old(self).score,
            final(self).clock == old(self).clock,
    {
        if !self.clock.finished() || self.apple.is_some() {
            return ;
        }
        let sx = random_in(-PLAY_AREA_HALF_EXTENT, PLAY_AREA_HALF_EXTENT);
        let sy = random_in(-PLAY_AREA_HALF_EXTENT, PLAY_AREA_HALF_EXTENT);
        self.place_apple(sx, sy);
    }

    /// On a tick, eats the apple if the head stands on it: the apple goes and
    /// the score rises by one.
    pub fn apple_eating_system(&mut self)
        requires
            old(self).clock.just_finished && old(self).apple == Some(old(self).head.position)
                ==> old(self).score.0 < u64::MAX,
        ensures
            old(self).clock.just_finished && old(self).apple == Some(old(self).head.position)
                ==> final(self).apple.is_none() && final(self).score.0 == old(self).score.0 + 1,
            !(old(self).clock.just_finished && old(self).apple == Some(old(self).head.position))
                ==> final(self).apple == old(self).apple && final(self).score == old(self).score,
            final(self).head == old(self).head,
            final(self).clock == old(self).clock,
    {
        if !self.clock.finished() {
            return ;
        }
        match self.apple {
            Some(a) => {
                if a.x == self.head.position.x && a.y == self.head.position.y {
                    self.apple = None;
                    self.score = Scoreboard(self.score.0 + 1);
                }
            },
            None => {},
        }
    }

    /// One frame of the game, in order: the clock takes the frame's time,
    /// input turns the head, and on a tick the head moves, an apple is placed
    /// if there is none, and an apple under the head is eaten. Returns the
    /// scoreboard label afterwards.
    pub fn frame(&mut self, delta: u64, keys: Keys) -> (label: String)
        requires
            old(self).wf(),
            old(self).room_to_run(),
        ensures
            final(self).wf(),
            label@ == score_label(final(self).score.0 as nat),
            final(self).clock == old(self).clock.ticked(delta as nat),
            final(self).head.controller.direction == steered(
                keys,
                old(self).head.controller.direction,
            ),
            final(self).clock.just_finished ==> {
                &&& final(self).head.position.x == moved(
                    old(self).head.position,
                    final(self).head.controller.direction,
                ).0
                &&& final(self).head.position.y == moved(
                    old(self).head.position,
                    final(self).head.controller.direction,
                ).1
            },
            !final(self).clock.just_finished ==> {
                &&& final(self).head.position == old(self).head.position
                &&& final(self).apple == old(self).apple
                &&& final(self).score == old(self).score
            },
            final(self).clock.just_finished && old(self).apple is Some ==> {
                if old(self).apple == Some(final(self).head.position) {
                    final(self).apple.is_none() && final(self).score.0 == old(self).score.0 + 1
                } else {
                    final(self).apple == old(self).apple && final(self).score == old(self).score
                }
            },
            final(self).clock.just_finished && old(self).apple is None ==> {
                ||| {
                    &&& final(self).apple is Some
                    &&& final(self).apple != Some(final(self).head.position)
                    &&& grid_aligned(final(self).apple->Some_0)
                    &&& in_play_area(final(self).apple->Some_0.x as int)
                    &&& in_play_area(final(self).apple->Some_0.y as int)
                    &&& final(self).score == old(self).score
                }
                ||| {
                    &&& final(self).apple is None
                    &&& final(self).score.0 == old(self).score.0 + 1
                }
            },
    {
        self.timer_tick_system(delta);
        self.snake_controls_system(keys);
        self.snake_head_movement_system();
        self.apple_spawner_system();
        self.apple_eating_system();
        self.scoreboard_system()
    }

    /// The scoreboard label for the current score.
    pub fn scoreboard_system(&self) -> (r: String)
        ensures
            r@ == score_label(self.score.0 as nat),
    {
        score_text(&self.score)
    }
}

} // verus!
