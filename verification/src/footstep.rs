//! Frame-exact footstep triggering: fires one audio event when a walking
//! entity's timer just crossed onto a foot-contact frame, picking a step
//! sound at random from a catalog.
use vstd::prelude::*;

use rand::Rng;

use crate::animation::AnimationType;
use crate::animation::PlayerAnimation;

verus! {

/// The fixed foot-contact set: the frames of a six-frame walk cycle on
/// which a foot strikes the ground.
pub open spec fn is_contact_frame(frame: u32) -> bool {
    frame == 2 || frame == 5
}

/// Whether a state fires a footstep this tick: it is walking, a frame
/// boundary was just crossed, and the new frame is a contact frame.
pub open spec fn footstep_fires(s: PlayerAnimation) -> bool {
    &&& s.animation_type is Walk
    &&& s.frame_just_advanced
    &&& is_contact_frame(s.frame)
}

/// Relies on rand::Rng::gen_range over rand::thread_rng: a draw from
/// `0..n` returns a value below `n` and panics only on an empty range,
/// which `n > 0` rules out.
#[verifier::external_body]
fn random_below(n: usize) -> (r: usize)
    requires
        n > 0,
    ensures
        r < n,
{
    rand::thread_rng().gen_range(0..n)
}

/// Decide the footstep side effect for one entity, read after its timer
/// advance: `Some` of a randomly drawn index into the step-sound catalog
/// exactly when the state fires and the catalog is non-empty. An empty
/// catalog degrades silently; it is not an error.
pub fn trigger_step_sound_effect(animation: &PlayerAnimation, catalog_len: usize) -> (r: Option<
    usize,
>)
    ensures
        r is Some <==> footstep_fires(*animation) && catalog_len > 0,
        r matches Some(i) ==> i < catalog_len,
{
    let is_walk = match animation.animation_type {
        AnimationType::Walk(_) => true,
        _ => false,
    };
    if is_walk && animation.changed() && (animation.frame == 2 || animation.frame == 5)
        && catalog_len > 0 {
        Some(random_below(catalog_len))
    } else {
        None
    }
}

} // verus!
