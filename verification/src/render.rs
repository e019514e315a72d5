use vstd::prelude::*;

use crate::gamestate::{GameState, Vec2};

verus! {

/// Names the sprite sheet a draw command refers to; the host maps each
/// name to the texture it loaded for it.
#[derive(Debug, Clone, Copy, PartialEq, Eq, Structural)]
pub enum SpriteId {
    BirdDown,
    BirdMid,
    BirdUp,
    Pipe,
    Ground,
    BackgroundDay,
    BackgroundNight,
    Message,
    GameOverBanner,
}

/// One textured-quad draw request: position and size in milli-pixels,
/// rotation about the quad's center in milli-degrees, a texture pan in
/// milli-units, and the two mirror flags. The rasterizer is asked to
/// draw exactly this, nothing else is assumed of it.
#[derive(Debug, Clone, Copy, PartialEq, Eq, Structural)]
pub struct SpriteCommand {
    pub sprite: SpriteId,
    pub position: Vec2,
    pub size: Vec2,
    pub rotation: i64,
    pub pan: Vec2,
    pub flip_horizontal: bool,
    pub flip_vertical: bool,
}

/// An entity that contributes to the frame's draw list. Commands are
/// pure data computed from current state; the host consumes them in the
/// order returned, back to front.
pub trait Render {
    fn render(&self, game_state: &GameState) -> Vec<SpriteCommand>;
}

} // verus!
