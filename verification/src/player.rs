use vstd::prelude::*;
use crate::motion::{Anim, Sign};

verus! {

/// Which way a character faces or walks (the player's facing, an enemy's
/// patrol direction).
#[derive(Clone, Copy, Debug, PartialEq, Eq, Structural)]
pub enum Facing {
    Left,
    Right,
}

/// Air jumps the player may start before landing again (a double jump).
pub const MAX_AIR_JUMPS: usize = 1;

/// The player's controls and situation for one physics step: whether a
/// swing is under way, whether a knockback is being played, the sign of the
/// horizontal stick, whether jump is held, and how many jumps have been
/// started in the air since the player last stood on ground.
#[derive(Clone, Copy, Debug, PartialEq, Eq)]
pub struct PlayerControls {
    pub swinging: bool,
    pub knocked_back: bool,
    pub stick: Sign,
    pub jump_held: bool,
    pub air_jumps: usize,
}

/// What the player does this step: whether the stick is ignored, the
/// direction actually walked, the jump to request (`Some(allow_in_air)`),
/// the new facing, how to flip the sprite (`Some(true)` faces left, `None`
/// leaves it), and which animation to play.
#[derive(Clone, Copy, Debug, PartialEq, Eq)]
pub struct PlayerMotion {
    pub input_locked: bool,
    pub direction: Sign,
    pub jump: Option<bool>,
    pub facing: Facing,
    pub flip_x: Option<bool>,
    pub anim: Anim,
}

/// The direction the player actually walks: none while swinging or being
/// knocked back, else the stick's.
pub open spec fn walk_direction(c: PlayerControls) -> Sign {
    if c.swinging || c.knocked_back {
        Sign::Zero
    } else {
        c.stick
    }
}

/// Plans the player's movement. Input is ignored during a swing or a
/// knockback; the facing (and the sprite flip) follows the walking
/// direction and stays when the player stands; a jump is requested while
/// jump is held unless a knockback plays, and may start in the air while no
/// more than `MAX_AIR_JUMPS` air jumps have been used.
pub fn plan_player_motion(c: PlayerControls, facing: Facing) -> (m: PlayerMotion)
    ensures
        m.input_locked == (c.swinging || c.knocked_back),
        m.direction == walk_direction(c),
        m.jump == (if !c.knocked_back && c.jump_held {
            Some(c.air_jumps <= MAX_AIR_JUMPS)
        } else {
            None
        }),
        walk_direction(c) is Negative ==> m.facing == Facing::Left && m.flip_x == Some(true),
        walk_direction(c) is Positive ==> m.facing == Facing::Right && m.flip_x == Some(false),
        walk_direction(c) is Zero ==> m.facing == facing && m.flip_x is None,
        m.anim == (if walk_direction(c) is Zero {
            Anim::Idle
        } else {
            Anim::Walk
        }),
{
    let input_locked = c.swinging || c.knocked_back;
    let direction = if input_locked {
        Sign::Zero
    } else {
        c.stick
    };
    let jump = if !c.knocked_back && c.jump_held {
        Some(c.air_jumps <= MAX_AIR_JUMPS)
    } else {
        None
    };
    let (new_facing, flip_x, anim) = match direction {
        Sign::Negative => (Facing::Left, Some(true), Anim::Walk),
        Sign::Positive => (Facing::Right, Some(false), Anim::Walk),
        Sign::Zero => (facing, None, Anim::Idle),
    };
    PlayerMotion { input_locked, direction, jump, facing: new_facing, flip_x, anim }
}


/// The player walks as the stick says unless a swing or a knockback is
/// under way, in which case the player does not walk.
pub proof fn law_input_locked_means_standing(c: PlayerControls)
    ensures
        c.swinging || c.knocked_back ==> walk_direction(c) is Zero,
        !c.swinging && !c.knocked_back ==> walk_direction(c) == c.stick,
{
}

} // verus!
