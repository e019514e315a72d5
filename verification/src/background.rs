use vstd::prelude::*;

use crate::fixed::{advance, advanced, in_range, LIMIT};
use crate::gamestate::{GameState, PlayState, Update, Vec2};
use crate::render::{Render, SpriteCommand, SpriteId};

verus! {

/// Horizontal scroll speed of the backdrop, in milli-units per second;
/// the slowest layer, for the parallax illusion.
pub const BACKGROUND_SPEED: i64 = 85;

/// Which of the two backdrop artworks is shown.
#[derive(Debug, Clone, Copy, PartialEq, Eq, Structural)]
pub enum TextureVariant {
    Day,
    Night,
}

/// Ghost image of the backdrop: pan offset (milli-units), scroll speed,
/// and the selected artwork.
pub struct BackgroundView {
    pub offset: int,
    pub speed: int,
    pub texture_variant: TextureVariant,
}

/// Validity of the backdrop: offset in the fixed-point range and a
/// non-negative bounded speed.
pub open spec fn background_inv(v: BackgroundView) -> bool {
    &&& in_range(v.offset)
    &&& 0 <= v.speed <= LIMIT
}

/// One update step: the pan advances only while Playing.
pub open spec fn background_stepped(v: BackgroundView, gs: GameState, dt_ms: int) -> BackgroundView {
    if gs.state is Playing {
        BackgroundView { offset: advanced(v.offset, v.speed, dt_ms), ..v }
    } else {
        v
    }
}

/// The backdrop's draw list: one viewport-filling quad of the selected
/// artwork with the current pan, in every phase; it is drawn first,
/// furthest back, and never collides.
pub open spec fn background_commands(v: BackgroundView, gs: GameState) -> Seq<SpriteCommand> {
    seq![
        SpriteCommand {
            sprite: if v.texture_variant is Night {
                SpriteId::BackgroundNight
            } else {
                SpriteId::BackgroundDay
            },
            position: Vec2 { x: 0, y: 0 },
            size: Vec2 {
                x: (gs.viewport_size.0 as int * 1000) as i64,
                y: (gs.viewport_size.1 as int * 1000) as i64,
            },
            rotation: 0,
            pan: Vec2 { x: v.offset as i64, y: 0 },
            flip_horizontal: false,
            flip_vertical: false,
        },
    ]
}

/// The parallax backdrop: a pan offset, its scroll speed, and the
/// day/night artwork selection.
pub struct Background {
    offset: i64,
    speed: i64,
    texture_variant: TextureVariant,
}

impl Background {
    pub closed spec fn view(self) -> BackgroundView {
        BackgroundView {
            offset: self.offset as int,
            speed: self.speed as int,
            texture_variant: self.texture_variant,
        }
    }

    #[verifier::type_invariant]
    spec fn inv(self) -> bool {
        background_inv(self.view())
    }

    /// A fresh backdrop: night artwork, pan at zero.
    pub fn new() -> (r: Background)
        ensures
            r@.offset == 0,
            r@.speed == BACKGROUND_SPEED,
            r@.texture_variant == TextureVariant::Night,
            background_inv(r@),
    {
        Background { offset: 0, speed: BACKGROUND_SPEED, texture_variant: TextureVariant::Night }
    }

    pub fn texture_variant(&self) -> (r: TextureVariant)
        ensures
            r == self@.texture_variant,
    {
        self.texture_variant
    }

    /// Select the day or night artwork.
    pub fn set_texture_variant(&mut self, variant: TextureVariant)
        ensures
            final(self)@ == (BackgroundView { texture_variant: variant, ..old(self)@ }),
    {
        proof {
            use_type_invariant(&*self);
        }
        self.texture_variant = variant;
    }
}

impl Update for Background {
    fn update(&mut self, dt_ms: u32, game_state: &mut GameState)
        ensures
            final(self)@ == background_stepped(old(self)@, *old(game_state), dt_ms as int),
            *final(game_state) == *old(game_state),
            background_inv(final(self)@),
    {
        proof {
            use_type_invariant(&*self);
        }
        if matches!(game_state.state, PlayState::Playing) {
            self.offset = advance(self.offset, self.speed, dt_ms);
        }
    }
}

impl Render for Background {
    fn render(&self, game_state: &GameState) -> (r: Vec<SpriteCommand>)
        ensures
            r@ == background_commands(self@, *game_state),
    {
        proof {
            use_type_invariant(&*self);
        }
        let (w, h) = game_state.viewport_size;
        let sprite = if matches!(self.texture_variant, TextureVariant::Night) {
            SpriteId::BackgroundNight
        } else {
            SpriteId::BackgroundDay
        };
        let commands = vec![
            SpriteCommand {
                sprite,
                position: Vec2 { x: 0, y: 0 },
                size: Vec2 { x: (w as i64) * 1000, y: (h as i64) * 1000 },
                rotation: 0,
                pan: Vec2 { x: self.offset, y: 0 },
                flip_horizontal: false,
                flip_vertical: false,
            },
        ];
        proof {
            assert(commands@ =~= background_commands(self@, *game_state));
        }
        commands
    }
}

} // verus!
