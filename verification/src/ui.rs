use vstd::prelude::*;

use crate::gamestate::{GameState, Vec2};
use crate::render::{Render, SpriteCommand, SpriteId};
use crate::util::{centered, horizontally_centered_position, vertically_centered_position};

verus! {

/// Overlay artwork is drawn at twice its texture size; this is the
/// factor from texture pixels to milli-pixels.
pub const UI_SCALE: i64 = 2000;

/// Ghost image of the overlay layer: the pixel sizes of the two banner
/// textures.
pub struct UiView {
    pub begin_size: (u32, u32),
    pub gameover_size: (u32, u32),
}

/// The draw command for one centered overlay banner.
pub open spec fn overlay_command(sprite: SpriteId, tex: (u32, u32), gs: GameState) -> SpriteCommand {
    SpriteCommand {
        sprite,
        position: Vec2 {
            x: centered(gs.viewport_size.0 as int * 1000, tex.0 as int * UI_SCALE) as i64,
            y: centered(gs.viewport_size.1 as int * 1000, tex.1 as int * UI_SCALE) as i64,
        },
        size: Vec2 { x: (tex.0 as int * UI_SCALE) as i64, y: (tex.1 as int * UI_SCALE) as i64 },
        rotation: 0,
        pan: Vec2 { x: 0, y: 0 },
        flip_horizontal: false,
        flip_vertical: false,
    }
}

/// The overlay's draw list: the welcome banner on the menu, the
/// game-over banner after a collision, nothing during play.
pub open spec fn ui_commands(v: UiView, gs: GameState) -> Seq<SpriteCommand> {
    if gs.state is MainMenu {
        seq![overlay_command(SpriteId::Message, v.begin_size, gs)]
    } else if gs.state is GameOver {
        seq![overlay_command(SpriteId::GameOverBanner, v.gameover_size, gs)]
    } else {
        seq![]
    }
}

/// The phase-dependent overlay banners. Texture handles live with the
/// host; the overlay holds only the two banners' pixel sizes.
pub struct Ui {
    begin_size: (u32, u32),
    gameover_size: (u32, u32),
}

impl Ui {
    pub closed spec fn view(self) -> UiView {
        UiView { begin_size: self.begin_size, gameover_size: self.gameover_size }
    }

    pub fn new(begin_size: (u32, u32), gameover_size: (u32, u32)) -> (r: Ui)
        ensures
            r@.begin_size == begin_size,
            r@.gameover_size == gameover_size,
    {
        Ui { begin_size, gameover_size }
    }
}

/// Build the centered banner quad for one texture size.
fn overlay_command_exec(sprite: SpriteId, tex: (u32, u32), game_state: &GameState) -> (r:
    SpriteCommand)
    ensures
        r == overlay_command(sprite, tex, *game_state),
{
    let viewport = Vec2 {
        x: (game_state.viewport_size.0 as i64) * 1000,
        y: (game_state.viewport_size.1 as i64) * 1000,
    };
    let size = Vec2 { x: (tex.0 as i64) * UI_SCALE, y: (tex.1 as i64) * UI_SCALE };
    let position = Vec2 {
        x: vertically_centered_position(viewport, size),
        y: horizontally_centered_position(viewport, size),
    };
    SpriteCommand {
        sprite,
        position,
        size,
        rotation: 0,
        pan: Vec2 { x: 0, y: 0 },
        flip_horizontal: false,
        flip_vertical: false,
    }
}

impl Render for Ui {
    fn render(&self, game_state: &GameState) -> (r: Vec<SpriteCommand>)
        ensures
            r@ == ui_commands(self@, *game_state),
    {
        let mut commands: Vec<SpriteCommand> = Vec::new();
        match game_state.state {
            crate::gamestate::PlayState::MainMenu => {
                commands.push(overlay_command_exec(SpriteId::Message, self.begin_size, game_state));
            },
            crate::gamestate::PlayState::Playing => {},
            crate::gamestate::PlayState::GameOver => {
                commands.push(
                    overlay_command_exec(SpriteId::GameOverBanner, self.gameover_size, game_state),
                );
            },
        }
        proof {
            assert(commands@ =~= ui_commands(self@, *game_state));
        }
        commands
    }
}

} // verus!
