//! The player on the overworld: keyboard-driven movement with wall
//! collision, the random-encounter timer, the walk animation, and the
//! camera that follows the player.

use vstd::prelude::*;
use crate::{GameState, Pos, TILE, in_world};
use crate::collision::{collides_with_any, hits_any_tile, player_box_hits_any};
use crate::fadeout::{ScreenFade, create_fadeout, fresh_fade};
use crate::sprites::{AnimationTimer, Facing};
use crate::timer::Timer;

verus! {

/// Movement speed of the player, in tiles per second.
pub const PLAYER_SPEED: u32 = 4;

/// Largest speed the movement arithmetic is sized for, in tiles per second.
pub const MAX_SPEED: u32 = 1000;

/// Milliseconds the player must spend moving through encounter tiles before
/// an encounter fires.
pub const ENCOUNTER_MS: u64 = 1000;

/// The player's state outside of its position and facing.
#[derive(Clone, Copy, PartialEq, Eq, Structural, Debug)]
pub struct Player {
    /// Whether the player moved during the most recent movement update.
    pub is_moving: bool,
    /// While inactive (during a fade or in combat) the player neither moves
    /// nor animates.
    pub is_active: bool,
    /// Movement speed, in tiles per second.
    pub speed: u32,
}

impl Player {
    /// The speed is within the bound the movement arithmetic is sized for.
    pub open spec fn wf(self) -> bool {
        self.speed <= MAX_SPEED
    }

    /// A freshly spawned player: active, standing still, at the standard
    /// speed.
    pub fn new() -> (r: Player)
        ensures
            r == (Player { is_moving: false, is_active: true, speed: PLAYER_SPEED }),
            r.wf(),
    {
        Player { is_moving: false, is_active: true, speed: PLAYER_SPEED }
    }
}

/// Which movement keys are held this frame.
#[derive(Clone, Copy, PartialEq, Eq, Structural, Debug)]
pub struct MoveInput {
    pub up: bool,
    pub down: bool,
    pub left: bool,
    pub right: bool,
}

/// Accumulates the time the player has spent walking through encounter
/// tiles; each time it wraps, an encounter fires.
#[derive(Clone, Copy, PartialEq, Eq, Structural, Debug)]
pub struct EncounterTracker {
    pub timer: Timer,
}

impl EncounterTracker {
    /// The tracker's timer is a well-formed repeating timer.
    pub open spec fn wf(self) -> bool {
        self.timer.wf() && self.timer.repeating
    }

    pub fn new() -> (r: EncounterTracker)
        ensures
            r.timer == (Timer {
                elapsed_ms: 0,
                duration_ms: ENCOUNTER_MS,
                repeating: true,
                just_finished: false,
            }),
            r.wf(),
    {
        EncounterTracker { timer: Timer::new(ENCOUNTER_MS, true) }
    }
}

/// Distance walked in one frame along one axis when a key is held:
/// `speed` tiles per second for `delta_ms` milliseconds, in subunits.
pub open spec fn step_len(speed: int, delta_ms: int) -> int {
    speed * (TILE as int) * delta_ms / 1000
}

/// Net movement along one axis from its two keys.
pub open spec fn axis_delta(pos_pressed: bool, neg_pressed: bool, step: int) -> int {
    (if pos_pressed { step } else { 0 }) - (if neg_pressed { step } else { 0 })
}

/// Diagonal movement is slowed to two thirds per axis, rounding toward
/// zero.
pub open spec fn diagonal_scaled(d: int) -> int {
    if d >= 0 {
        2 * d / 3
    } else {
        -(2 * (-d) / 3)
    }
}

/// The movement the held keys ask for this frame: a step per axis, both
/// scaled down when the movement is diagonal.
pub open spec fn move_deltas(input: MoveInput, speed: int, delta_ms: int) -> (int, int) {
    let s = step_len(speed, delta_ms);
    let xd = axis_delta(input.right, input.left, s);
    let yd = axis_delta(input.up, input.down, s);
    if xd != 0 && yd != 0 {
        (diagonal_scaled(xd), diagonal_scaled(yd))
    } else {
        (xd, yd)
    }
}

/// The facing after this frame's keys: the last key checked wins, in the
/// order right, left, up, down; with no key held the facing is kept.
pub open spec fn new_facing(input: MoveInput, current: Facing) -> Facing {
    if input.down {
        Facing::Down
    } else if input.up {
        Facing::Up
    } else if input.left {
        Facing::Left
    } else if input.right {
        Facing::Right
    } else {
        current
    }
}

/// Where the player ends up: the horizontal step is taken first and kept
/// only if it hits no wall, then the vertical step likewise.
pub open spec fn moved_xy(px: int, py: int, xd: int, yd: int, walls: Seq<Pos>) -> (int, int) {
    let x1 = if !player_box_hits_any(px + xd, py, walls) {
        px + xd
    } else {
        px
    };
    let y1 = if !player_box_hits_any(x1, py + yd, walls) {
        py + yd
    } else {
        py
    };
    (x1, y1)
}

/// A player who stands clear of every wall stays clear of every wall, no
/// matter what movement a frame asks for: each axis step is taken only
/// after it is checked against all walls.
pub proof fn movement_avoids_walls(px: int, py: int, xd: int, yd: int, walls: Seq<Pos>)
    requires
        !player_box_hits_any(px, py, walls),
    ensures
        ({
            let xy = moved_xy(px, py, xd, yd, walls);
            !player_box_hits_any(xy.0, xy.1, walls)
        }),
{
}

/// One frame of player movement: read the held keys, turn the player, move
/// it axis by axis past the walls, and record whether it moved. An inactive
/// player is left untouched.
pub fn player_movement(
    player: &mut Player,
    pos: &mut Pos,
    facing: &mut Facing,
    input: MoveInput,
    delta_ms: u32,
    walls: &Vec<Pos>,
)
    requires
        old(player).wf(),
        in_world(*old(pos)),
    ensures
        final(player).wf(),
        final(player).speed == old(player).speed,
        final(player).is_active == old(player).is_active,
        old(player).is_active ==> ({
            let ds = move_deltas(input, old(player).speed as int, delta_ms as int);
            let xy = moved_xy(old(pos).x as int, old(pos).y as int, ds.0, ds.1, walls@);
            &&& final(pos).x as int == xy.0
            &&& final(pos).y as int == xy.1
            &&& *final(facing) == new_facing(input, *old(facing))
            &&& final(player).is_moving == (ds.0 != 0 || ds.1 != 0)
        }),
        !old(player).is_active ==> {
            &&& *final(pos) == *old(pos)
            &&& *final(facing) == *old(facing)
            &&& *final(player) == *old(player)
        },
{
    if !player.is_active {
        return;
    }

    proof {
        assert((player.speed as int) * (TILE as int) * (delta_ms as int) <= 100_000
            * 0x1_0000_0000) by (nonlinear_arith)
            requires
                player.speed <= 1000,
                delta_ms < 0x1_0000_0000,
        ;
        assert((player.speed as int) * (TILE as int) * (delta_ms as int) / 1000 <= 100_000
            * 0x1_0000_0000) by {
            vstd::arithmetic::div_mod::lemma_div_nonincreasing(
                (player.speed as int) * (TILE as int) * (delta_ms as int),
                1000,
            );
        }
    }
    let step: i64 = (player.speed as i64) * TILE * (delta_ms as i64) / 1000;

    let mut x_delta: i64 = 0;
    if input.right {
        *facing = Facing::Right;
        x_delta = x_delta + step;
    }
    if input.left {
        *facing = Facing::Left;
        x_delta = x_delta - step;
    }

    let mut y_delta: i64 = 0;
    if input.up {
        *facing = Facing::Up;
        y_delta = y_delta + step;
    }
    if input.down {
        *facing = Facing::Down;
        y_delta = y_delta - step;
    }

    if x_delta != 0 && y_delta != 0 {
        x_delta = if x_delta >= 0 {
            2 * x_delta / 3
        } else {
            -((2 * -x_delta) / 3)
        };
        y_delta = if y_delta >= 0 {
            2 * y_delta / 3
        } else {
            -((2 * -y_delta) / 3)
        };
    }

    let target_x = Pos { x: pos.x + x_delta, y: pos.y };
    if !collides_with_any(target_x, walls) {
        pos.x = target_x.x;
    }

    let target_y = Pos { x: pos.x, y: pos.y + y_delta };
    if !collides_with_any(target_y, walls) {
        pos.y = target_y.y;
    }

    player.is_moving = x_delta != 0 || y_delta != 0;
}

/// One frame of encounter tracking: while the player is moving through an
/// encounter tile, its tracker accumulates time; each time the tracker's
/// timer wraps, the player is deactivated and a fade toward combat begins.
pub fn player_encounter_checking(
    player: &mut Player,
    tracker: &mut EncounterTracker,
    player_pos: Pos,
    encounter_tiles: &Vec<Pos>,
    delta_ms: u32,
) -> (fade: Option<ScreenFade>)
    requires
        old(tracker).wf(),
    ensures
        final(tracker).wf(),
        final(player).speed == old(player).speed,
        final(player).is_moving == old(player).is_moving,
        ({
            let in_zone = hits_any_tile(player_pos, encounter_tiles@) && old(player).is_moving;
            let total = old(tracker).timer.elapsed_ms as int + delta_ms as int;
            let dur = old(tracker).timer.duration_ms as int;
            if in_zone {
                &&& final(tracker).timer.elapsed_ms as int == total % dur
                &&& final(tracker).timer.duration_ms == old(tracker).timer.duration_ms
                &&& final(tracker).timer.just_finished == (total >= dur)
                &&& if total >= dur {
                    &&& !final(player).is_active
                    &&& fade == Some(fresh_fade(GameState::Combat))
                } else {
                    &&& final(player).is_active == old(player).is_active
                    &&& fade is None
                }
            } else {
                &&& *final(tracker) == *old(tracker)
                &&& final(player).is_active == old(player).is_active
                &&& fade is None
            }
        }),
{
    if collides_with_any(player_pos, encounter_tiles) && player.is_moving {
        tracker.timer.tick(delta_ms);
        if tracker.timer.just_finished {
            player.is_active = false;
            return Some(create_fadeout(GameState::Combat));
        }
    }
    None
}

/// The overworld camera tracks the player's position exactly.
pub fn camera_follow(camera: &mut Pos, player_pos: Pos)
    ensures
        final(camera).x == player_pos.x,
        final(camera).y == player_pos.y,
{
    camera.x = player_pos.x;
    camera.y = player_pos.y;
}

/// Sprite-sheet index of the player standing still, facing `facing`.
pub open spec fn facing_sprite_base(facing: Facing) -> int {
    match facing {
        Facing::Right => 1,
        Facing::Left => 3,
        Facing::Up => 5,
        Facing::Down => 7,
    }
}

/// Sprite-sheet index of the player: the idle frame of its facing, or the
/// stepping frame (one past it) during the first half of each walk-animation
/// period while moving.
pub open spec fn sprite_index_spec(facing: Facing, moving: bool, in_first_half: bool) -> int {
    if moving && in_first_half {
        facing_sprite_base(facing) + 1
    } else {
        facing_sprite_base(facing)
    }
}

/// One frame of the walk animation: advance the animation timer and pick
/// the sprite for the player's facing, alternating between the idle and the
/// stepping frame each half period while the player moves. An inactive
/// player keeps its current sprite.
pub fn animate_player_sprite(
    player: &Player,
    facing: Facing,
    anim: &mut AnimationTimer,
    sprite_index: &mut usize,
    delta_ms: u32,
)
    requires
        old(anim).timer.wf(),
        old(anim).timer.repeating,
    ensures
        final(anim).timer.wf(),
        final(anim).has_moved == old(anim).has_moved,
        !player.is_active ==> {
            &&& *final(anim) == *old(anim)
            &&& *final(sprite_index) == *old(sprite_index)
        },
        player.is_active ==> ({
            let total = old(anim).timer.elapsed_ms as int + delta_ms as int;
            let dur = old(anim).timer.duration_ms as int;
            &&& final(anim).timer.elapsed_ms as int == total % dur
            &&& final(anim).timer.duration_ms == old(anim).timer.duration_ms
            &&& final(anim).timer.repeating
            &&& final(anim).timer.just_finished == (total >= dur)
            &&& *final(sprite_index) as int == sprite_index_spec(
                facing,
                player.is_moving,
                2 * (final(anim).timer.elapsed_ms as int) <= dur,
            )
        }),
{
    if !player.is_active {
        return;
    }

    anim.timer.tick(delta_ms);

    let base: usize = match facing {
        Facing::Right => 1,
        Facing::Left => 3,
        Facing::Up => 5,
        Facing::Down => 7,
    };
    if player.is_moving && 2 * anim.timer.elapsed_ms <= anim.timer.duration_ms {
        *sprite_index = base + 1;
    } else {
        *sprite_index = base;
    }
}

} // verus!
