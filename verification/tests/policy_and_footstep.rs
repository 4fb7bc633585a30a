use afterhours::animation::update_animation_atlas;
use afterhours::animation::AnimationType;
use afterhours::animation::Direction;
use afterhours::animation::PlayerAnimation;
use afterhours::footstep::trigger_step_sound_effect;
use afterhours::policy::next_animation;
use afterhours::policy::resolve_direction;
use afterhours::policy::update_animation_movement;

#[test]
fn dominant_horizontal_axis() {
    assert_eq!(
        next_animation(3, -1, Direction::Down),
        AnimationType::Walk(Direction::Right)
    );
    assert_eq!(
        next_animation(-4, 2, Direction::Down),
        AnimationType::Walk(Direction::Left)
    );
}

#[test]
fn zero_intent_preserves_facing() {
    assert_eq!(
        next_animation(0, 0, Direction::Left),
        AnimationType::Idle(Direction::Left)
    );
    assert_eq!(
        next_animation(0, 0, Direction::Up),
        AnimationType::Idle(Direction::Up)
    );
}

#[test]
fn tie_breaks_to_vertical() {
    assert_eq!(
        next_animation(-1, -1, Direction::Up),
        AnimationType::Walk(Direction::Down)
    );
    assert_eq!(
        next_animation(2, 2, Direction::Left),
        AnimationType::Walk(Direction::Up)
    );
}

#[test]
fn vertical_signs_pick_up_or_down() {
    assert_eq!(resolve_direction(0, 5), Direction::Up);
    assert_eq!(resolve_direction(0, -5), Direction::Down);
    assert_eq!(resolve_direction(1, 3), Direction::Up);
}

#[test]
fn movement_commits_facing_while_moving() {
    let mut s = PlayerAnimation::with_animation(AnimationType::Idle(Direction::Down));
    update_animation_movement(&mut s, 3, -1);
    assert_eq!(s.animation_type, AnimationType::Walk(Direction::Right));
    assert_eq!(s.current_direction, Direction::Right);
}

#[test]
fn stopping_idles_toward_last_facing() {
    let mut s = PlayerAnimation::with_animation(AnimationType::Idle(Direction::Down));
    update_animation_movement(&mut s, 0, 7);
    assert_eq!(s.animation_type, AnimationType::Walk(Direction::Up));
    update_animation_movement(&mut s, 0, 0);
    assert_eq!(s.animation_type, AnimationType::Idle(Direction::Up));
}

#[test]
fn continued_movement_same_direction_keeps_progress() {
    let mut s = PlayerAnimation::with_animation(AnimationType::Walk(Direction::Up));
    s.update_timer(150);
    update_animation_movement(&mut s, 0, 2);
    assert_eq!(s.frame, 1);
    assert_eq!(s.elapsed_ms, 50);
}

#[test]
fn footstep_fires_on_contact_frames_only() {
    let sounds = 4usize;

    let mut s = PlayerAnimation::with_animation(AnimationType::Walk(Direction::Down));
    s.update_timer(200);
    assert_eq!(s.frame, 2);
    assert!(trigger_step_sound_effect(&s, sounds).is_some());

    let mut s = PlayerAnimation::with_animation(AnimationType::Walk(Direction::Down));
    s.update_timer(300);
    assert_eq!(s.frame, 3);
    assert!(trigger_step_sound_effect(&s, sounds).is_none());

    let mut s = PlayerAnimation::with_animation(AnimationType::Walk(Direction::Down));
    s.update_timer(400);
    assert_eq!(s.frame, 4);
    assert!(trigger_step_sound_effect(&s, sounds).is_none());

    let mut s = PlayerAnimation::with_animation(AnimationType::Walk(Direction::Down));
    s.update_timer(500);
    assert_eq!(s.frame, 5);
    assert!(trigger_step_sound_effect(&s, sounds).is_some());
}

#[test]
fn footstep_needs_a_fresh_boundary() {
    let mut s = PlayerAnimation::with_animation(AnimationType::Walk(Direction::Left));
    s.update_timer(200);
    assert_eq!(s.frame, 2);
    s.update_timer(10);
    assert!(!s.changed());
    assert!(trigger_step_sound_effect(&s, 4).is_none());
}

#[test]
fn footstep_silent_for_non_walk_kinds() {
    let mut s = PlayerAnimation::with_animation(AnimationType::Idle(Direction::Down));
    s.update_timer(1000);
    assert_eq!(s.frame, 2);
    assert!(s.changed());
    assert!(trigger_step_sound_effect(&s, 4).is_none());

    let mut s = PlayerAnimation::with_animation(AnimationType::Sleep);
    s.update_timer(2000);
    assert_eq!(s.frame, 2);
    assert!(trigger_step_sound_effect(&s, 4).is_none());
}

#[test]
fn footstep_empty_catalog_degrades_silently() {
    let mut s = PlayerAnimation::with_animation(AnimationType::Walk(Direction::Right));
    s.update_timer(200);
    assert!(trigger_step_sound_effect(&s, 0).is_none());
}

#[test]
fn footstep_index_stays_in_catalog() {
    let mut s = PlayerAnimation::with_animation(AnimationType::Walk(Direction::Right));
    s.update_timer(200);
    assert_eq!(trigger_step_sound_effect(&s, 1), Some(0));
    for _ in 0..20 {
        let picked = trigger_step_sound_effect(&s, 3).unwrap();
        assert!(picked < 3);
    }
}

#[test]
fn atlas_updates_only_on_boundary() {
    let mut s = PlayerAnimation::with_animation(AnimationType::Walk(Direction::Right));
    s.update_timer(50);
    assert_eq!(update_animation_atlas(&s, 7), 7);
    s.update_timer(50);
    assert_eq!(update_animation_atlas(&s, 7), 112 + 0 * 6 + 1);
}
