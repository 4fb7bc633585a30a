//! The per-tick movement-to-animation policy: maps a movement-intent
//! vector and the last committed facing to the next animation kind, and
//! applies that decision to an entity's state.
use vstd::prelude::*;

use crate::animation::AnimationType;
use crate::animation::Direction;
use crate::animation::PlayerAnimation;

verus! {

/// Magnitude of one intent component.
pub open spec fn mag(v: int) -> int {
    if v < 0 {
        -v
    } else {
        v
    }
}

/// The cardinal direction a movement intent resolves to: the horizontal
/// axis wins only when its magnitude is strictly larger (ties go to the
/// vertical axis), and the sign of the winning component picks the
/// direction.
pub open spec fn resolve_direction_spec(x: i32, y: i32) -> Direction {
    if mag(x as int) > mag(y as int) {
        if x > 0 {
            Direction::Right
        } else {
            Direction::Left
        }
    } else {
        if y > 0 {
            Direction::Up
        } else {
            Direction::Down
        }
    }
}

pub fn resolve_direction(x: i32, y: i32) -> (d: Direction)
    ensures
        d == resolve_direction_spec(x, y),
{
    let ax: i64 = if x < 0 {
        -(x as i64)
    } else {
        x as i64
    };
    let ay: i64 = if y < 0 {
        -(y as i64)
    } else {
        y as i64
    };
    if ax > ay {
        if x > 0 {
            Direction::Right
        } else {
            Direction::Left
        }
    } else {
        if y > 0 {
            Direction::Up
        } else {
            Direction::Down
        }
    }
}

/// The next kind for a movement intent: walk toward the resolved direction
/// when the intent is non-zero, else idle toward the given facing.
pub open spec fn next_animation_spec(x: i32, y: i32, facing: Direction) -> AnimationType {
    if x == 0 && y == 0 {
        AnimationType::Idle(facing)
    } else {
        AnimationType::Walk(resolve_direction_spec(x, y))
    }
}

pub fn next_animation(x: i32, y: i32, facing: Direction) -> (k: AnimationType)
    ensures
        k == next_animation_spec(x, y, facing),
{
    if x == 0 && y == 0 {
        AnimationType::Idle(facing)
    } else {
        AnimationType::Walk(resolve_direction(x, y))
    }
}

/// The state after one policy application: a non-zero intent commits the
/// resolved direction as the new facing and transitions toward walking it;
/// a zero intent transitions toward idling at the facing on record.
pub open spec fn movement_update_spec(s: PlayerAnimation, x: i32, y: i32) -> PlayerAnimation {
    if x == 0 && y == 0 {
        s.update_state_spec(AnimationType::Idle(s.current_direction))
    } else {
        let d = resolve_direction_spec(x, y);
        let stepped = s.update_state_spec(AnimationType::Walk(d));
        PlayerAnimation {
            elapsed_ms: stepped.elapsed_ms,
            frame: stepped.frame,
            animation_type: stepped.animation_type,
            current_direction: d,
            frame_just_advanced: stepped.frame_just_advanced,
        }
    }
}

/// A non-zero intent always commits its resolved direction as the new
/// facing and leaves the entity walking that way, even when the entity
/// was already moving.
pub proof fn lemma_movement_commits_facing(s: PlayerAnimation, x: i32, y: i32)
    requires
        !(x == 0 && y == 0),
    ensures
        movement_update_spec(s, x, y).current_direction == resolve_direction_spec(x, y),
        movement_update_spec(s, x, y).animation_type == AnimationType::Walk(
            resolve_direction_spec(x, y),
        ),
{
}

/// Apply the policy to one entity for this tick. The facing is committed
/// even while the entity keeps moving, not only on the transition into
/// idling.
pub fn update_animation_movement(animation: &mut PlayerAnimation, intent_x: i32, intent_y: i32)
    requires
        old(animation).wf(),
    ensures
        *final(animation) == movement_update_spec(*old(animation), intent_x, intent_y),
        final(animation).wf(),
{
    if intent_x != 0 || intent_y != 0 {
        let new_direction = resolve_direction(intent_x, intent_y);
        animation.update_state(AnimationType::Walk(new_direction));
        animation.current_direction = new_direction;
    } else {
        let direction = animation.current_direction;
        animation.update_state(AnimationType::Idle(direction));
    }
}

} // verus!
