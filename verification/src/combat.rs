//! The combat screen's decisions: leaving combat and parking the camera.

use vstd::prelude::*;
use crate::{GameState, Pos};
use crate::fadeout::{ScreenFade, create_fadeout, fresh_fade};

verus! {

/// Vertical position of the enemy sprite on the combat screen, in
/// subunits.
pub const ENEMY_Y: i64 = 500;

/// Leaving combat: the moment the exit key is pressed, a fade back to the
/// overworld begins.
pub fn test_exit_combat(exit_pressed: bool) -> (fade: Option<ScreenFade>)
    ensures
        fade == if exit_pressed {
            Some(fresh_fade(GameState::Overworld))
        } else {
            None::<ScreenFade>
        },
{
    if exit_pressed {
        Some(create_fadeout(GameState::Overworld))
    } else {
        None
    }
}

/// The combat camera is fixed on the origin.
pub fn combat_camera(camera: &mut Pos)
    ensures
        final(camera).x == 0,
        final(camera).y == 0,
{
    camera.x = 0;
    camera.y = 0;
}

} // verus!
