//! The per-entity animation state machine: kinds, profiles, frame timing,
//! and the atlas-index arithmetic that addresses the sprite sheet.
use vstd::prelude::*;

verus! {

/// A cardinal facing. Its ordinal (`Right = 0`, `Up = 1`, `Left = 2`,
/// `Down = 3`) is load-bearing: the atlas places one row segment per
/// direction, so the ordinal multiplies whole-row strides.
#[derive(PartialEq, Eq, Structural, Clone, Copy, Debug)]
pub enum Direction {
    Right,
    Up,
    Left,
    Down,
}

impl Direction {
    /// The stable numeric ordinal used for atlas layout math.
    pub open spec fn ordinal_spec(self) -> u32 {
        match self {
            Direction::Right => 0,
            Direction::Up => 1,
            Direction::Left => 2,
            Direction::Down => 3,
        }
    }

    pub fn ordinal(self) -> (r: u32)
        ensures
            r == self.ordinal_spec(),
    {
        match self {
            Direction::Right => 0,
            Direction::Up => 1,
            Direction::Left => 2,
            Direction::Down => 3,
        }
    }
}

/// What an entity is animating: idling or walking toward a facing, or
/// sleeping (which has no facing of its own and renders as facing down).
#[derive(PartialEq, Eq, Structural, Clone, Copy, Debug)]
pub enum AnimationType {
    Idle(Direction),
    Walk(Direction),
    Sleep,
}

/// The fixed per-kind profile: how many frames the cycle has, where its
/// block of rows starts in the atlas, and how long one frame is shown.
#[derive(PartialEq, Eq, Structural, Clone, Copy, Debug)]
pub struct AnimationConfig {
    pub frames: u32,
    pub row_offset: u32,
    pub frame_duration_ms: u64,
}

impl AnimationType {
    /// The profile keyed off the variant tag alone; the direction payload
    /// never changes the profile. The offsets keep the atlas-layout
    /// relationship `row_offset = frames * rows_skipped`.
    pub open spec fn config_spec(self) -> AnimationConfig {
        match self {
            AnimationType::Idle(_) => AnimationConfig {
                frames: 6,
                row_offset: 56,
                frame_duration_ms: 500,
            },
            AnimationType::Walk(_) => AnimationConfig {
                frames: 6,
                row_offset: 112,
                frame_duration_ms: 100,
            },
            AnimationType::Sleep => AnimationConfig {
                frames: 6,
                row_offset: 224,
                frame_duration_ms: 1000,
            },
        }
    }

    pub fn get_config(&self) -> (c: AnimationConfig)
        ensures
            c == self.config_spec(),
    {
        match self {
            AnimationType::Idle(_) => AnimationConfig {
                frames: 6,
                row_offset: 56,
                frame_duration_ms: 500,
            },
            AnimationType::Walk(_) => AnimationConfig {
                frames: 6,
                row_offset: 112,
                frame_duration_ms: 100,
            },
            AnimationType::Sleep => AnimationConfig {
                frames: 6,
                row_offset: 224,
                frame_duration_ms: 1000,
            },
        }
    }

    /// The row stride multiplier: the facing's ordinal for directional
    /// kinds, and 0 for Sleep, which always renders facing down.
    pub open spec fn direction_offset_spec(self) -> u32 {
        match self {
            AnimationType::Idle(dir) => dir.ordinal_spec(),
            AnimationType::Walk(dir) => dir.ordinal_spec(),
            AnimationType::Sleep => 0,
        }
    }

    pub fn get_direction_offset(&self) -> (r: u32)
        ensures
            r == self.direction_offset_spec(),
    {
        match self {
            AnimationType::Idle(dir) => dir.ordinal(),
            AnimationType::Walk(dir) => dir.ordinal(),
            AnimationType::Sleep => 0,
        }
    }

    /// Every profile has a positive frame count and a positive frame
    /// duration, so frame indices and timer periods are well defined.
    pub proof fn lemma_config_positive(self)
        ensures
            self.config_spec().frames > 0,
            self.config_spec().frame_duration_ms > 0,
            self.config_spec().frame_duration_ms <= 1000,
    {
    }
}

/// The per-entity animation state: an accumulating frame timer, the current
/// frame index, the current kind, and the last committed facing (kept so a
/// direction can be recovered after a non-directional kind such as Sleep).
#[derive(PartialEq, Eq, Structural, Clone, Copy, Debug)]
pub struct PlayerAnimation {
    /// Time accumulated toward the next frame boundary; always below the
    /// current kind's frame duration.
    pub elapsed_ms: u64,
    /// Current frame index; always below the current kind's frame count.
    pub frame: u32,
    pub animation_type: AnimationType,
    pub current_direction: Direction,
    /// Single-tick latch: true exactly when the latest timer advance
    /// crossed at least one frame boundary.
    pub frame_just_advanced: bool,
}

impl PlayerAnimation {
    /// Well-formedness: the frame index and the accumulated time stay
    /// inside the current kind's cycle and period.
    pub open spec fn wf(self) -> bool {
        &&& self.frame < self.animation_type.config_spec().frames
        &&& self.elapsed_ms < self.animation_type.config_spec().frame_duration_ms
    }

    /// The facing a kind seeds on construction: its own direction, or Down
    /// for Sleep.
    pub open spec fn initial_facing_spec(kind: AnimationType) -> Direction {
        match kind {
            AnimationType::Idle(dir) => dir,
            AnimationType::Walk(dir) => dir,
            AnimationType::Sleep => Direction::Down,
        }
    }

    /// The state produced by constructing from a kind: no time elapsed,
    /// frame 0, latch clear.
    pub open spec fn initial_spec(kind: AnimationType) -> PlayerAnimation {
        PlayerAnimation {
            elapsed_ms: 0,
            frame: 0,
            animation_type: kind,
            current_direction: Self::initial_facing_spec(kind),
            frame_just_advanced: false,
        }
    }

    pub fn with_animation(animation_type: AnimationType) -> (s: Self)
        ensures
            s == Self::initial_spec(animation_type),
            s.wf(),
    {
        let direction = match animation_type {
            AnimationType::Idle(dir) => dir,
            AnimationType::Walk(dir) => dir,
            AnimationType::Sleep => Direction::Down,
        };
        PlayerAnimation {
            elapsed_ms: 0,
            frame: 0,
            animation_type,
            current_direction: direction,
            frame_just_advanced: false,
        }
    }

    /// The spawn-time default: idle, facing down.
    pub fn new() -> (s: Self)
        ensures
            s == Self::initial_spec(AnimationType::Idle(Direction::Down)),
            s.wf(),
    {
        Self::with_animation(AnimationType::Idle(Direction::Down))
    }

    /// True exactly when the latest `update_timer` crossed a frame
    /// boundary. A single-tick latch: the next `update_timer` overwrites it.
    pub fn changed(&self) -> (r: bool)
        ensures
            r == self.frame_just_advanced,
    {
        self.frame_just_advanced
    }

    /// The sprite-sheet cell for the current state: the kind's row offset
    /// anchors its block, the facing multiplies in whole-row strides, and
    /// the frame walks within the stride.
    pub open spec fn atlas_index_spec(self) -> int {
        self.animation_type.config_spec().row_offset
            + self.animation_type.direction_offset_spec() * self.animation_type.config_spec().frames
            + self.frame
    }

    pub fn get_atlas_index(&self) -> (r: u32)
        requires
            self.wf(),
        ensures
            r == self.atlas_index_spec(),
    {
        let config = self.animation_type.get_config();
        let direction_offset = self.animation_type.get_direction_offset();
        config.row_offset + direction_offset * config.frames + self.frame
    }

    /// How many frame boundaries an advance of `delta_ms` crosses from
    /// this state.
    pub open spec fn crossings_spec(self, delta_ms: u64) -> int {
        (self.elapsed_ms + delta_ms) / (self.animation_type.config_spec().frame_duration_ms as int)
    }

    /// The state after advancing the timer: leftover time below one period
    /// is kept, the frame moves forward by the number of boundary
    /// crossings modulo the frame count, and the latch records whether any
    /// boundary was crossed.
    pub open spec fn tick_spec(self, delta_ms: u64) -> PlayerAnimation {
        let period = self.animation_type.config_spec().frame_duration_ms as int;
        let count = self.animation_type.config_spec().frames as int;
        let crossings = self.crossings_spec(delta_ms);
        PlayerAnimation {
            elapsed_ms: ((self.elapsed_ms + delta_ms) % period) as u64,
            frame: ((self.frame + crossings) % count) as u32,
            animation_type: self.animation_type,
            current_direction: self.current_direction,
            frame_just_advanced: crossings > 0,
        }
    }

    /// Advance the repeating frame timer by `delta_ms`. Every crossed
    /// boundary steps the frame, wrapping modulo the frame count; the kind
    /// and the facing never change here.
    pub fn update_timer(&mut self, delta_ms: u64)
        requires
            old(self).wf(),
            delta_ms <= u64::MAX - 1000,
        ensures
            *final(self) == old(self).tick_spec(delta_ms),
            final(self).wf(),
    {
        let config = self.animation_type.get_config();
        proof {
            self.animation_type.lemma_config_positive();
        }
        let total: u64 = self.elapsed_ms + delta_ms;
        let crossings: u64 = total / config.frame_duration_ms;
        self.elapsed_ms = total % config.frame_duration_ms;
        if crossings > 0 {
            let step: u32 = (crossings % (config.frames as u64)) as u32;
            self.frame = (self.frame + step) % config.frames;
            self.frame_just_advanced = true;
        } else {
            self.frame_just_advanced = false;
        }
        proof {
            let period = config.frame_duration_ms as int;
            let count = config.frames as int;
            vstd::arithmetic::div_mod::lemma_mod_division_less_than_divisor(total as int, period);
            vstd::arithmetic::div_mod::lemma_mod_division_less_than_divisor(
                crossings as int,
                count,
            );
            vstd::arithmetic::div_mod::lemma_add_mod_noop_right(
                old(self).frame as int,
                crossings as int,
                count,
            );
            vstd::arithmetic::div_mod::lemma_mod_division_less_than_divisor(
                old(self).frame + crossings,
                count,
            );
            if crossings == 0 {
                vstd::arithmetic::div_mod::lemma_small_mod(
                    old(self).frame as nat,
                    count as nat,
                );
            }
        }
    }

    /// The facing recovered when leaving this state: the current kind's
    /// direction if it has one, else the facing already on record (Sleep
    /// contributes no direction).
    pub open spec fn retained_facing_spec(self) -> Direction {
        match self.animation_type {
            AnimationType::Idle(dir) => dir,
            AnimationType::Walk(dir) => dir,
            AnimationType::Sleep => self.current_direction,
        }
    }

    /// The state after a kind transition: identical when the kind is
    /// unchanged; otherwise timer and frame restart from zero, the latch
    /// clears, and the facing is recovered from the outgoing kind.
    pub open spec fn update_state_spec(self, new_type: AnimationType) -> PlayerAnimation {
        if self.animation_type == new_type {
            self
        } else {
            PlayerAnimation {
                elapsed_ms: 0,
                frame: 0,
                animation_type: new_type,
                current_direction: self.retained_facing_spec(),
                frame_just_advanced: false,
            }
        }
    }

    /// Switch to `new_type`. A no-op when the kind (including its payload)
    /// is already `new_type`; otherwise partial progress through the old
    /// cycle is discarded and the state restarts as in `with_animation`,
    /// with the facing recovered from the outgoing kind.
    pub fn update_state(&mut self, new_type: AnimationType)
        requires
            old(self).wf(),
        ensures
            *final(self) == old(self).update_state_spec(new_type),
            final(self).wf(),
    {
        if self.animation_type != new_type {
            let direction = match self.animation_type {
                AnimationType::Idle(dir) => dir,
                AnimationType::Walk(dir) => dir,
                AnimationType::Sleep => self.current_direction,
            };
            self.elapsed_ms = 0;
            self.frame = 0;
            self.animation_type = new_type;
            self.current_direction = direction;
            self.frame_just_advanced = false;
        }
    }
}

/// The renderer-side frame selection: a new atlas index exactly when a
/// frame boundary was just crossed, else the index already shown.
pub fn update_animation_atlas(animation: &PlayerAnimation, atlas_index: u32) -> (r: u32)
    requires
        animation.wf(),
    ensures
        r == if animation.frame_just_advanced {
            animation.atlas_index_spec()
        } else {
            atlas_index as int
        },
{
    if animation.changed() {
        animation.get_atlas_index()
    } else {
        atlas_index
    }
}

/// Every profile has a positive frame count, and a well-formed state's
/// atlas index stays inside its kind's block of four direction rows.
pub proof fn lemma_atlas_index_in_range(s: PlayerAnimation)
    requires
        s.wf(),
    ensures
        s.animation_type.config_spec().frames > 0,
        s.animation_type.config_spec().row_offset <= s.atlas_index_spec(),
        s.atlas_index_spec() < s.animation_type.config_spec().row_offset + 4
            * s.animation_type.config_spec().frames,
{
    assert(s.animation_type.direction_offset_spec() <= 3) by {
        match s.animation_type {
            AnimationType::Idle(dir) => assert(dir.ordinal_spec() <= 3),
            AnimationType::Walk(dir) => assert(dir.ordinal_spec() <= 3),
            AnimationType::Sleep => {},
        }
    }
    assert(s.animation_type.config_spec().frames == 6);
    assert(s.animation_type.direction_offset_spec() * s.animation_type.config_spec().frames <= 3
        * 6) by (nonlinear_arith)
        requires
            s.animation_type.direction_offset_spec() <= 3,
            s.animation_type.config_spec().frames == 6,
    ;
}

/// Setting the same kind twice is the same as setting it once: after the
/// first transition the kind already matches, so the second is a no-op and
/// the timer is not reset again.
pub proof fn lemma_update_state_idempotent(s: PlayerAnimation, new_type: AnimationType)
    ensures
        s.update_state_spec(new_type).update_state_spec(new_type) == s.update_state_spec(new_type),
{
}

/// Passing through Sleep preserves the facing: leaving a directional kind
/// for Sleep records that kind's direction, and leaving Sleep keeps the
/// recorded facing, so idling again restores the earlier direction.
pub proof fn lemma_sleep_preserves_facing(s: PlayerAnimation, d: Direction)
    requires
        s.animation_type == AnimationType::Idle(d),
    ensures
        ({
            let slept = s.update_state_spec(AnimationType::Sleep);
            let woken = slept.update_state_spec(AnimationType::Idle(d));
            &&& slept.current_direction == d
            &&& woken.animation_type == AnimationType::Idle(d)
            &&& woken.current_direction == d
        }),
{
}

/// A freshly constructed state addresses the first cell of its kind's
/// block: the row offset plus the facing's whole-row stride, at frame 0.
pub proof fn lemma_new_state_atlas_index(kind: AnimationType)
    ensures
        PlayerAnimation::initial_spec(kind).atlas_index_spec() == kind.config_spec().row_offset
            + kind.direction_offset_spec() * kind.config_spec().frames,
{
}

} // verus!
