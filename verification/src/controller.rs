//! The player controller's decision logic: movement, jump permission and
//! facing direction.
//!
//! The host polls the keyboard and casts the ground-sensing ray; this
//! module only decides, from those plain values, how the player's velocity
//! and state change.  Speeds and impulses are passed in as configured
//! constants in the caller's units, like the gravity vector.

use vstd::prelude::*;

use crate::physics::Velocity;
use crate::physics::fits_i64;
use crate::vec2::Vec2;

verus! {

/// The player's controller state: which way the sprite faces, and whether
/// the jump impulse has been spent since the player last stood on ground.
#[derive(Clone, Copy, Debug, PartialEq, Eq, Structural)]
pub struct Player {
    pub flipped: bool,
    pub jumped: bool,
}

/// One frame of input, as plain values: whether the jump, move-left and
/// move-right keys are held.
#[derive(Clone, Copy, Debug, PartialEq, Eq, Structural)]
pub struct PlayerInput {
    pub jump: bool,
    pub left: bool,
    pub right: bool,
}

/// The horizontal speed the player asks for this frame: right wins over
/// left when both keys are held, and no key means standing still.
pub open spec fn move_direction_x(input: PlayerInput, speed: int) -> int {
    if input.right {
        speed
    } else if input.left {
        -speed
    } else {
        0
    }
}

/// The vertical impulse the player asks for this frame: the jump impulse
/// exactly when the jump key is held and the jump has not been spent.
pub open spec fn jump_direction_y(jumped: bool, input: PlayerInput, jump_impulse: int) -> int {
    if !jumped && input.jump {
        jump_impulse
    } else {
        0
    }
}

/// Which way the sprite faces after a frame: moving right turns a flipped
/// sprite forward again, moving left flips an unflipped one, and standing
/// still keeps the current facing.
pub open spec fn facing_after(flipped: bool, dir_x: int) -> bool {
    if flipped {
        !(dir_x > 0)
    } else {
        dir_x < 0
    }
}

/// One frame of the player controller.
///
/// The horizontal velocity is set outright to the requested direction,
/// while the jump impulse is added to the vertical velocity, so gravity
/// and collisions keep their effect on the vertical axis.  Holding the
/// jump key never fires twice: the `jumped` flag is spent on the first
/// frame and stays set until ground sensing clears it.
pub fn player_controller(
    player: &mut Player,
    vel: &mut Velocity,
    input: PlayerInput,
    speed: i64,
    jump_impulse: i64,
)
    requires
        fits_i64(-(speed as int)),
        fits_i64(old(vel).0.y + jump_direction_y(old(player).jumped, input, jump_impulse as int)),
    ensures
        final(vel).0.x as int == move_direction_x(input, speed as int),
        final(vel).0.y as int == old(vel).0.y + jump_direction_y(
            old(player).jumped,
            input,
            jump_impulse as int,
        ),
        final(player).jumped == (old(player).jumped || input.jump),
        final(player).flipped == facing_after(
            old(player).flipped,
            move_direction_x(input, speed as int),
        ),
{
    let dir_x: i64 = if input.right {
        speed
    } else if input.left {
        -speed
    } else {
        0
    };
    let dir_y: i64 = if !player.jumped && input.jump {
        jump_impulse
    } else {
        0
    };
    if input.jump {
        player.jumped = true;
    }
    if player.flipped {
        if dir_x > 0 {
            player.flipped = false;
        }
    } else if dir_x < 0 {
        player.flipped = true;
    }
    *vel = Velocity(Vec2 { x: dir_x, y: vel.0.y + dir_y });
}

/// Ground sensing: the host reports whether the downward ray hit ground
/// within reach; standing on ground returns the jump to the player.
pub fn ground_check(player: &mut Player, grounded: bool)
    ensures
        final(player).jumped == (old(player).jumped && !grounded),
        final(player).flipped == old(player).flipped,
{
    if grounded {
        player.jumped = false;
    }
}

/// Whether the player has reached the goal line: true exactly when the
/// player's x coordinate is at or past it.  Showing the victory text is
/// the host's business.
pub fn win(player_x: i64, goal_x: i64) -> (r: bool)
    ensures
        r <==> player_x >= goal_x,
{
    player_x >= goal_x
}

} // verus!
