use feiht_god::{GameState, Pos};
use feiht_god::combat::{combat_camera, test_exit_combat};
use feiht_god::player::{
    animate_player_sprite, camera_follow, player_encounter_checking, player_movement,
    EncounterTracker, MoveInput, Player, ENCOUNTER_MS, PLAYER_SPEED,
};
use feiht_god::sprites::{AnimationTimer, Facing};

fn no_keys() -> MoveInput {
    MoveInput { up: false, down: false, left: false, right: false }
}

#[test]
fn new_player_is_active_and_still() {
    let p = Player::new();
    assert!(p.is_active);
    assert!(!p.is_moving);
    assert_eq!(p.speed, PLAYER_SPEED);
}

#[test]
fn moves_right_without_walls() {
    let mut player = Player::new();
    let mut pos = Pos { x: 0, y: 0 };
    let mut facing = Facing::Down;
    let walls: Vec<Pos> = Vec::new();
    // 4 tiles/s for 250 ms is one tile: 100 subunits.
    player_movement(
        &mut player,
        &mut pos,
        &mut facing,
        MoveInput { right: true, ..no_keys() },
        250,
        &walls,
    );
    assert_eq!(pos, Pos { x: 100, y: 0 });
    assert_eq!(facing, Facing::Right);
    assert!(player.is_moving);
}

#[test]
fn blocked_by_wall_on_x_but_free_on_y() {
    let mut player = Player::new();
    let mut pos = Pos { x: 0, y: 0 };
    let mut facing = Facing::Down;
    let walls = vec![Pos { x: 150, y: 0 }];
    player_movement(
        &mut player,
        &mut pos,
        &mut facing,
        MoveInput { right: true, up: true, ..no_keys() },
        250,
        &walls,
    );
    // Diagonal step is 100 * 2 / 3 = 66 per axis; x is blocked by the wall.
    assert_eq!(pos, Pos { x: 0, y: 66 });
    assert!(player.is_moving);
    assert_eq!(facing, Facing::Up);
}

#[test]
fn diagonal_movement_is_slowed() {
    let mut player = Player::new();
    let mut pos = Pos { x: 0, y: 0 };
    let mut facing = Facing::Right;
    let walls: Vec<Pos> = Vec::new();
    player_movement(
        &mut player,
        &mut pos,
        &mut facing,
        MoveInput { left: true, down: true, ..no_keys() },
        250,
        &walls,
    );
    assert_eq!(pos, Pos { x: -66, y: -66 });
    assert_eq!(facing, Facing::Down);
}

#[test]
fn fully_walled_in_player_stays_put() {
    let mut player = Player::new();
    let mut pos = Pos { x: 0, y: 0 };
    let mut facing = Facing::Down;
    let walls = vec![Pos { x: 150, y: 0 }, Pos { x: 0, y: 150 }];
    // 375 ms gives a step of 150, scaled to 100 per axis on the diagonal;
    // both axis steps are blocked.
    player_movement(
        &mut player,
        &mut pos,
        &mut facing,
        MoveInput { right: true, up: true, ..no_keys() },
        375,
        &walls,
    );
    assert_eq!(pos, Pos { x: 0, y: 0 });
    assert!(player.is_moving);
}

#[test]
fn opposite_keys_cancel() {
    let mut player = Player::new();
    let mut pos = Pos { x: 0, y: 0 };
    let mut facing = Facing::Up;
    let walls: Vec<Pos> = Vec::new();
    player_movement(
        &mut player,
        &mut pos,
        &mut facing,
        MoveInput { left: true, right: true, ..no_keys() },
        250,
        &walls,
    );
    assert_eq!(pos, Pos { x: 0, y: 0 });
    assert!(!player.is_moving);
    assert_eq!(facing, Facing::Left);
}

#[test]
fn inactive_player_does_not_move() {
    let mut player = Player::new();
    player.is_active = false;
    let mut pos = Pos { x: 7, y: -7 };
    let mut facing = Facing::Up;
    let walls: Vec<Pos> = Vec::new();
    player_movement(
        &mut player,
        &mut pos,
        &mut facing,
        MoveInput { right: true, ..no_keys() },
        250,
        &walls,
    );
    assert_eq!(pos, Pos { x: 7, y: -7 });
    assert_eq!(facing, Facing::Up);
    assert!(!player.is_moving);
}

#[test]
fn no_keys_means_standing_still() {
    let mut player = Player::new();
    player.is_moving = true;
    let mut pos = Pos { x: 0, y: 0 };
    let mut facing = Facing::Left;
    let walls: Vec<Pos> = Vec::new();
    player_movement(&mut player, &mut pos, &mut facing, no_keys(), 250, &walls);
    assert_eq!(pos, Pos { x: 0, y: 0 });
    assert_eq!(facing, Facing::Left);
    assert!(!player.is_moving);
}

#[test]
fn encounter_fires_after_a_second_on_grass() {
    let mut player = Player::new();
    player.is_moving = true;
    let mut tracker = EncounterTracker::new();
    assert_eq!(tracker.timer.duration_ms, ENCOUNTER_MS);
    let grass = vec![Pos { x: 0, y: 0 }];
    let pos = Pos { x: 10, y: 0 };

    let fade = player_encounter_checking(&mut player, &mut tracker, pos, &grass, 400);
    assert!(fade.is_none());
    assert!(player.is_active);
    let fade = player_encounter_checking(&mut player, &mut tracker, pos, &grass, 400);
    assert!(fade.is_none());
    assert_eq!(tracker.timer.elapsed_ms, 800);
    let fade = player_encounter_checking(&mut player, &mut tracker, pos, &grass, 400);
    let fade = fade.expect("encounter should fire after 1200 ms on grass");
    assert_eq!(fade.next_state, GameState::Combat);
    assert_eq!(fade.alpha_permille, 0);
    assert!(!player.is_active);
    assert_eq!(tracker.timer.elapsed_ms, 200);
}

#[test]
fn encounter_needs_movement() {
    let mut player = Player::new();
    player.is_moving = false;
    let mut tracker = EncounterTracker::new();
    let grass = vec![Pos { x: 0, y: 0 }];
    let fade = player_encounter_checking(&mut player, &mut tracker, Pos { x: 0, y: 0 }, &grass, 5000);
    assert!(fade.is_none());
    assert_eq!(tracker.timer.elapsed_ms, 0);
    assert!(player.is_active);
}

#[test]
fn encounter_needs_grass() {
    let mut player = Player::new();
    player.is_moving = true;
    let mut tracker = EncounterTracker::new();
    let grass = vec![Pos { x: 500, y: 500 }];
    let fade = player_encounter_checking(&mut player, &mut tracker, Pos { x: 0, y: 0 }, &grass, 5000);
    assert!(fade.is_none());
    assert_eq!(tracker.timer.elapsed_ms, 0);
}

#[test]
fn walk_animation_alternates_frames() {
    let player = Player { is_moving: true, is_active: true, speed: PLAYER_SPEED };
    let mut anim = AnimationTimer::new();
    let mut sprite: usize = 0;

    // First half of the 250 ms period: the stepping frame.
    animate_player_sprite(&player, Facing::Down, &mut anim, &mut sprite, 100);
    assert_eq!(sprite, 8);
    // Second half: the idle frame.
    animate_player_sprite(&player, Facing::Down, &mut anim, &mut sprite, 100);
    assert_eq!(sprite, 7);
}

#[test]
fn idle_player_shows_idle_frame() {
    let player = Player { is_moving: false, is_active: true, speed: PLAYER_SPEED };
    let mut anim = AnimationTimer::new();
    let mut sprite: usize = 0;
    animate_player_sprite(&player, Facing::Up, &mut anim, &mut sprite, 100);
    assert_eq!(sprite, 5);
    animate_player_sprite(&player, Facing::Left, &mut anim, &mut sprite, 100);
    assert_eq!(sprite, 3);
    animate_player_sprite(&player, Facing::Right, &mut anim, &mut sprite, 100);
    assert_eq!(sprite, 1);
}

#[test]
fn inactive_player_keeps_sprite_and_timer() {
    let player = Player { is_moving: true, is_active: false, speed: PLAYER_SPEED };
    let mut anim = AnimationTimer::new();
    let mut sprite: usize = 42;
    animate_player_sprite(&player, Facing::Down, &mut anim, &mut sprite, 100);
    assert_eq!(sprite, 42);
    assert_eq!(anim.timer.elapsed_ms, 0);
}

#[test]
fn overworld_camera_follows_player() {
    let mut camera = Pos { x: 0, y: 0 };
    camera_follow(&mut camera, Pos { x: 123, y: -456 });
    assert_eq!(camera, Pos { x: 123, y: -456 });
}

#[test]
fn combat_camera_centers_on_origin() {
    let mut camera = Pos { x: 123, y: -456 };
    combat_camera(&mut camera);
    assert_eq!(camera, Pos { x: 0, y: 0 });
}

#[test]
fn exit_combat_on_keypress_only() {
    let fade = test_exit_combat(true).expect("exit key should start a fade");
    assert_eq!(fade.next_state, GameState::Overworld);
    assert!(test_exit_combat(false).is_none());
}
