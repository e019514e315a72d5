use vstd::prelude::*;

use crate::fixed::in_range;

verus! {

/// Per-frame simulation hook shared by every scene entity: advance the
/// entity by `dt_ms` milliseconds of elapsed time, reading the shared
/// game state (the state itself is left unchanged by every implementor
/// in this crate).
pub trait Update {
    fn update(&mut self, dt_ms: u32, game_state: &mut GameState);
}

/// A planar vector in milli-pixels (thousandths of a logical pixel).
#[derive(Debug, Clone, Copy, PartialEq, Eq, Structural)]
pub struct Vec2 {
    pub x: i64,
    pub y: i64,
}

/// An axis-aligned box; `position` is the top-left corner (the y axis
/// grows downward), both fields in milli-pixels. Boxes are ephemeral:
/// they are recomputed from entity state every frame and never stored.
#[derive(Debug, Clone, Copy, PartialEq, Eq, Structural)]
pub struct BoundingBox {
    pub position: Vec2,
    pub size: Vec2,
}

/// A geometrically sensible box: coordinates within the scalar range and
/// a non-negative extent on both axes.
pub open spec fn box_wf(b: BoundingBox) -> bool {
    &&& in_range(b.position.x as int)
    &&& in_range(b.position.y as int)
    &&& in_range(b.size.x as int)
    &&& in_range(b.size.y as int)
    &&& b.size.x >= 0
    &&& b.size.y >= 0
}

/// Non-strict separating-axis test: the boxes overlap unless one lies
/// strictly to the left, right, above, or below the other, so boxes that
/// merely touch along an edge still intersect.
pub open spec fn intersects(a: BoundingBox, b: BoundingBox) -> bool {
    !(a.position.x + a.size.x < b.position.x || b.position.x + b.size.x < a.position.x
        || a.position.y + a.size.y < b.position.y || b.position.y + b.size.y < a.position.y)
}

impl BoundingBox {
    /// Axis-aligned intersection test; touching edges count as a hit.
    pub fn intersect(&self, other: &BoundingBox) -> (r: bool)
        requires
            box_wf(*self),
            box_wf(*other),
        ensures
            r == intersects(*self, *other),
    {
        if (self.position.x + self.size.x < other.position.x)
            || (other.position.x + other.size.x < self.position.x)
            || (self.position.y + self.size.y < other.position.y)
            || (other.position.y + other.size.y < self.position.y) {
            false
        } else {
            true
        }
    }
}

/// Law: the intersection test is symmetric in its two boxes.
pub proof fn lemma_intersect_symmetric(a: BoundingBox, b: BoundingBox)
    ensures
        intersects(a, b) == intersects(b, a),
{
}

/// Law: boxes whose edges touch with zero horizontal gap still intersect,
/// provided their vertical extents overlap at all (the test is
/// non-strict).
pub proof fn lemma_touching_boxes_intersect(a: BoundingBox, b: BoundingBox)
    requires
        box_wf(a),
        box_wf(b),
        a.position.x + a.size.x == b.position.x,
        a.position.y <= b.position.y + b.size.y,
        b.position.y <= a.position.y + a.size.y,
    ensures
        intersects(a, b),
{
}

/// Law: a strictly positive horizontal gap, however small, separates the
/// boxes.
pub proof fn lemma_gap_means_no_intersection(a: BoundingBox, b: BoundingBox)
    requires
        a.position.x + a.size.x < b.position.x,
    ensures
        !intersects(a, b),
{
}

/// An entity with collision geometry, derived afresh from current state.
pub trait Hittable {
    fn bounding_boxes(&self, game_state: &GameState) -> Vec<BoundingBox>;
}

pub type Score = u32;

/// Top-level game phase; transitions are applied by the driver functions
/// and nowhere else.
#[derive(Debug, Clone, Copy, PartialEq, Eq, Structural)]
pub enum PlayState {
    MainMenu,
    Playing,
    GameOver,
}

impl Default for PlayState {
    fn default() -> (r: Self)
        ensures
            r == PlayState::MainMenu,
    {
        PlayState::MainMenu
    }
}

/// The shared simulation state: current phase, score, logical viewport
/// size in pixels, and the transient one-frame flap request flag.
#[derive(Debug, Clone, Copy)]
pub struct GameState {
    pub state: PlayState,
    pub score: Score,
    pub viewport_size: (u32, u32),
    pub fly_up: bool,
}

impl Default for GameState {
    fn default() -> (r: Self)
        ensures
            r.state == PlayState::MainMenu,
            r.score == 0,
            r.viewport_size.0 == 0,
            r.viewport_size.1 == 0,
            !r.fly_up,
    {
        GameState { state: PlayState::MainMenu, score: 0, viewport_size: (0, 0), fly_up: false }
    }
}

} // verus!
