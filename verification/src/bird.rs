use vstd::prelude::*;

use crate::fixed::{advance, advanced, in_range, LIMIT};
use crate::gamestate::{box_wf, BoundingBox, GameState, Hittable, PlayState, Update, Vec2};
use crate::render::{Render, SpriteCommand, SpriteId};

verus! {

/// Milliseconds between steps of the flap animation (a quarter second).
pub const MAX_FLAP_DURATION_MS: i64 = 250;

/// Default downward acceleration, in milli-pixels per second squared.
pub const DEFAULT_GRAVITY: i64 = 600_000;

/// Default flap impulse, in milli-pixels per second.
pub const UPWARDS_FORCE: i64 = 300_000;

/// Nose-up attitude taken on the frame a flap is requested, milli-degrees.
pub const FLAP_TILT: i64 = -20_000;

/// The bird is drawn and collided at 1.5 times its texture size; this is
/// the factor from texture pixels to milli-pixels.
pub const BIRD_SCALE: i64 = 1500;

/// Ghost image of a bird: scalar state in milli-units, plus the pixel
/// sizes of the three flap textures (down, mid, up).
pub struct BirdView {
    pub texture_sizes: Seq<(u32, u32)>,
    pub y_position: int,
    pub y_velocity: int,
    pub flap_index: int,
    pub flap_duration_ms: int,
    pub rotation: int,
    pub gravity: int,
    pub upwards_force: int,
}

/// Validity of a bird: three textures, every scalar within the
/// fixed-point range, the animation index inside its 4-step cycle, and a
/// non-negative animation timer.
pub open spec fn bird_inv(v: BirdView) -> bool {
    &&& v.texture_sizes.len() == 3
    &&& in_range(v.y_position)
    &&& in_range(v.y_velocity)
    &&& 0 <= v.flap_index < 4
    &&& 0 <= v.flap_duration_ms <= LIMIT
    &&& in_range(v.rotation)
    &&& in_range(v.gravity)
    &&& in_range(v.upwards_force)
}

/// Which of the three textures (down, mid, up) the 4-step flap cycle
/// (down, mid, up, mid) shows at a given index.
pub open spec fn flap_frame(flap_index: int) -> int {
    if flap_index == 0 {
        0
    } else if flap_index == 1 {
        1
    } else if flap_index == 2 {
        2
    } else {
        1
    }
}

/// The sprite name for a flap-cycle index.
pub open spec fn flap_sprite(flap_index: int) -> SpriteId {
    if flap_frame(flap_index) == 0 {
        SpriteId::BirdDown
    } else if flap_frame(flap_index) == 1 {
        SpriteId::BirdMid
    } else {
        SpriteId::BirdUp
    }
}

/// The physics half of an update. Only the Playing phase integrates; a
/// pending flap request first overwrites velocity with the upward
/// impulse and tilts the nose up, then gravity and velocity integrate in
/// that order (so a flap tick still feels one tick of gravity).
pub open spec fn bird_physics_stepped(v: BirdView, gs: GameState, dt_ms: int) -> BirdView {
    if gs.state is Playing {
        let v0 = if gs.fly_up {
            BirdView { y_velocity: -v.upwards_force, rotation: FLAP_TILT as int, ..v }
        } else {
            v
        };
        let vel = advanced(v0.y_velocity, v0.gravity, dt_ms);
        BirdView { y_velocity: vel, y_position: advanced(v0.y_position, vel, dt_ms), ..v0 }
    } else {
        v
    }
}

/// The animation half of an update. The timer accumulates in every
/// phase (saturating at the scalar cap); each time it reaches the
/// threshold the 4-step cycle advances and the threshold is subtracted
/// rather than the timer cleared, so no time drifts away.
pub open spec fn bird_animation_stepped(v: BirdView, dt_ms: int) -> BirdView {
    let d = if v.flap_duration_ms + dt_ms > LIMIT {
        LIMIT as int
    } else {
        v.flap_duration_ms + dt_ms
    };
    if d >= MAX_FLAP_DURATION_MS {
        BirdView { flap_index: (v.flap_index + 1) % 4, flap_duration_ms: d - MAX_FLAP_DURATION_MS, ..v }
    } else {
        BirdView { flap_duration_ms: d, ..v }
    }
}

/// One whole update step: physics, then animation.
pub open spec fn bird_stepped(v: BirdView, gs: GameState, dt_ms: int) -> BirdView {
    bird_animation_stepped(bird_physics_stepped(v, gs, dt_ms), dt_ms)
}

/// The state a reset restores: vertically centered, at rest, level, at
/// the first animation frame; textures and tuning are kept.
pub open spec fn bird_reset_view(v: BirdView, viewport_height: int) -> BirdView {
    BirdView {
        y_position: viewport_height * 500,
        y_velocity: 0,
        flap_index: 0,
        flap_duration_ms: 0,
        rotation: 0,
        ..v
    }
}

/// The bird's one collision box: fixed x at a quarter of the viewport
/// width, current y, sized to the current flap frame's texture times the
/// sprite factor.
pub open spec fn bird_box(v: BirdView, gs: GameState) -> BoundingBox {
    BoundingBox {
        position: Vec2 { x: (gs.viewport_size.0 as int * 250) as i64, y: v.y_position as i64 },
        size: Vec2 {
            x: (v.texture_sizes[flap_frame(v.flap_index)].0 as int * BIRD_SCALE) as i64,
            y: (v.texture_sizes[flap_frame(v.flap_index)].1 as int * BIRD_SCALE) as i64,
        },
    }
}

/// The bird's draw list: one quad at its collision box with its current
/// attitude while Playing or GameOver (the last pose stays frozen on the
/// game-over screen), nothing on the menu.
pub open spec fn bird_commands(v: BirdView, gs: GameState) -> Seq<SpriteCommand> {
    if gs.state is Playing || gs.state is GameOver {
        seq![
            SpriteCommand {
                sprite: flap_sprite(v.flap_index),
                position: bird_box(v, gs).position,
                size: bird_box(v, gs).size,
                rotation: v.rotation as i64,
                pan: Vec2 { x: 0, y: 0 },
                flip_horizontal: false,
                flip_vertical: false,
            },
        ]
    } else {
        seq![]
    }
}

/// The player-controlled bird: vertical kinematics, the flap animation,
/// and a cosmetic attitude angle. Its horizontal position is always a
/// quarter of the viewport width. Texture handles live with the host;
/// the bird holds only the pixel sizes of its three flap frames.
pub struct Bird {
    texture_sizes: [(u32, u32); 3],
    y_position: i64,
    y_velocity: i64,
    flap_index: usize,
    flap_duration_ms: i64,
    rotation: i64,
    gravity: i64,
    upwards_force: i64,
}

impl Bird {
    pub closed spec fn view(self) -> BirdView {
        BirdView {
            texture_sizes: self.texture_sizes@,
            y_position: self.y_position as int,
            y_velocity: self.y_velocity as int,
            flap_index: self.flap_index as int,
            flap_duration_ms: self.flap_duration_ms as int,
            rotation: self.rotation as int,
            gravity: self.gravity as int,
            upwards_force: self.upwards_force as int,
        }
    }

    #[verifier::type_invariant]
    spec fn inv(self) -> bool {
        bird_inv(self.view())
    }

    /// A freshly constructed bird: vertically centered in the viewport,
    /// at rest, with the default tuning constants.
    pub fn new(texture_sizes: [(u32, u32); 3], viewport_size: (u32, u32)) -> (r: Bird)
        ensures
            r@.texture_sizes == texture_sizes@,
            r@.y_position == viewport_size.1 as int * 500,
            r@.y_velocity == 0,
            r@.flap_index == 0,
            r@.flap_duration_ms == 0,
            r@.rotation == 0,
            r@.gravity == DEFAULT_GRAVITY,
            r@.upwards_force == UPWARDS_FORCE,
            bird_inv(r@),
    {
        Bird {
            texture_sizes,
            y_position: (viewport_size.1 as i64) * 500,
            y_velocity: 0,
            flap_index: 0,
            flap_duration_ms: 0,
            rotation: 0,
            gravity: DEFAULT_GRAVITY,
            upwards_force: UPWARDS_FORCE,
        }
    }

    /// Restore the initial kinematic state for the current viewport.
    pub fn reset(&mut self, game_state: &GameState)
        ensures
            final(self)@ == bird_reset_view(old(self)@, game_state.viewport_size.1 as int),
            bird_inv(final(self)@),
    {
        proof {
            use_type_invariant(&*self);
        }
        self.y_position = (game_state.viewport_size.1 as i64) * 500;
        self.y_velocity = 0;
        self.flap_index = 0;
        self.flap_duration_ms = 0;
        self.rotation = 0;
    }

    pub fn y_position(&self) -> (r: i64)
        ensures
            r == self@.y_position,
    {
        self.y_position
    }

    pub fn y_velocity(&self) -> (r: i64)
        ensures
            r == self@.y_velocity,
    {
        self.y_velocity
    }

    pub fn rotation(&self) -> (r: i64)
        ensures
            r == self@.rotation,
    {
        self.rotation
    }

    pub fn flap_index(&self) -> (r: usize)
        ensures
            r == self@.flap_index,
    {
        self.flap_index
    }

    pub fn flap_duration_ms(&self) -> (r: i64)
        ensures
            r == self@.flap_duration_ms,
    {
        self.flap_duration_ms
    }

    pub fn gravity(&self) -> (r: i64)
        ensures
            r == self@.gravity,
    {
        self.gravity
    }

    pub fn upwards_force(&self) -> (r: i64)
        ensures
            r == self@.upwards_force,
    {
        self.upwards_force
    }

    /// Retune the downward acceleration (milli-pixels per second squared).
    pub fn set_gravity(&mut self, value: i64)
        requires
            in_range(value as int),
        ensures
            final(self)@ == (BirdView { gravity: value as int, ..old(self)@ }),
    {
        proof {
            use_type_invariant(&*self);
        }
        self.gravity = value;
    }

    /// Retune the flap impulse (milli-pixels per second).
    pub fn set_upwards_force(&mut self, value: i64)
        requires
            in_range(value as int),
        ensures
            final(self)@ == (BirdView { upwards_force: value as int, ..old(self)@ }),
    {
        proof {
            use_type_invariant(&*self);
        }
        self.upwards_force = value;
    }
}

fn flap_frame_exec(flap_index: usize) -> (r: usize)
    requires
        flap_index < 4,
    ensures
        r == flap_frame(flap_index as int),
        r < 3,
{
    match flap_index {
        0 => 0,
        1 => 1,
        2 => 2,
        _ => 1,
    }
}

impl Update for Bird {
    fn update(&mut self, dt_ms: u32, game_state: &mut GameState)
        ensures
            final(self)@ == bird_stepped(old(self)@, *old(game_state), dt_ms as int),
            *final(game_state) == *old(game_state),
            bird_inv(final(self)@),
    {
        proof {
            use_type_invariant(&*self);
        }
        if matches!(game_state.state, PlayState::Playing) {
            if game_state.fly_up {
                self.y_velocity = -self.upwards_force;
                self.rotation = FLAP_TILT;
            }
            self.y_velocity = advance(self.y_velocity, self.gravity, dt_ms);
            self.y_position = advance(self.y_position, self.y_velocity, dt_ms);
        }
        let summed: i64 = self.flap_duration_ms + dt_ms as i64;
        let d: i64 = if summed > LIMIT {
            LIMIT
        } else {
            summed
        };
        if d >= MAX_FLAP_DURATION_MS {
            self.flap_index = (self.flap_index + 1) % 4;
            self.flap_duration_ms = d - MAX_FLAP_DURATION_MS;
        } else {
            self.flap_duration_ms = d;
        }
    }
}

impl Hittable for Bird {
    fn bounding_boxes(&self, game_state: &GameState) -> (r: Vec<BoundingBox>)
        ensures
            r@.len() == 1,
            r@[0] == bird_box(self@, *game_state),
            box_wf(r@[0]),
    {
        proof {
            use_type_invariant(&*self);
        }
        let idx = flap_frame_exec(self.flap_index);
        let (tw, th) = self.texture_sizes[idx];
        let position = Vec2 { x: (game_state.viewport_size.0 as i64) * 250, y: self.y_position };
        let size = Vec2 { x: (tw as i64) * BIRD_SCALE, y: (th as i64) * BIRD_SCALE };
        let boxes = vec![BoundingBox { position, size }];
        proof {
            assert(boxes@ =~= seq![bird_box(self@, *game_state)]);
        }
        boxes
    }
}

impl Render for Bird {
    fn render(&self, game_state: &GameState) -> (r: Vec<SpriteCommand>)
        ensures
            r@ == bird_commands(self@, *game_state),
    {
        proof {
            use_type_invariant(&*self);
        }
        if matches!(game_state.state, PlayState::Playing)
            || matches!(game_state.state, PlayState::GameOver) {
            let boxes = self.bounding_boxes(game_state);
            let bb = boxes[0];
            let idx = flap_frame_exec(self.flap_index);
            let sprite = if idx == 0 {
                SpriteId::BirdDown
            } else if idx == 1 {
                SpriteId::BirdMid
            } else {
                SpriteId::BirdUp
            };
            let commands = vec![
                SpriteCommand {
                    sprite,
                    position: bb.position,
                    size: bb.size,
                    rotation: self.rotation,
                    pan: Vec2 { x: 0, y: 0 },
                    flip_horizontal: false,
                    flip_vertical: false,
                },
            ];
            proof {
                assert(commands@ =~= bird_commands(self@, *game_state));
            }
            commands
        } else {
            let commands: Vec<SpriteCommand> = Vec::new();
            proof {
                assert(commands@ =~= bird_commands(self@, *game_state));
            }
            commands
        }
    }
}

/// Law: a reset yields the exact initial kinematic state whatever the
/// bird's simulated position, velocity, attitude, or animation was:
/// vertical center of the viewport, zero velocity, level attitude, first
/// animation frame, timer cleared.
pub proof fn lemma_reset_restores_initial(v: BirdView, viewport_height: int)
    ensures
        bird_reset_view(v, viewport_height).y_position == viewport_height * 500,
        bird_reset_view(v, viewport_height).y_velocity == 0,
        bird_reset_view(v, viewport_height).rotation == 0,
        bird_reset_view(v, viewport_height).flap_index == 0,
        bird_reset_view(v, viewport_height).flap_duration_ms == 0,
        bird_reset_view(v, viewport_height).texture_sizes == v.texture_sizes,
        bird_reset_view(v, viewport_height).gravity == v.gravity,
        bird_reset_view(v, viewport_height).upwards_force == v.upwards_force,
{
}

} // verus!
