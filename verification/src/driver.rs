use vstd::prelude::*;

use crate::background::{background_commands, background_stepped, Background};
use crate::bird::{bird_box, bird_commands, bird_reset_view, bird_stepped, Bird, BirdView};
use crate::gamestate::{box_wf, intersects, GameState, Hittable, PlayState, Update};
use crate::ground::{ground_box, ground_commands, ground_stepped, Ground};
use crate::pipes::{pipes_boxes, pipes_commands, pipes_stepped, Pipes, PipesView};
use crate::render::{Render, SpriteCommand};
use crate::ui::{ui_commands, Ui};

verus! {

/// Whether the bird currently touches the ground band or any pipe
/// segment (under the non-strict intersection test).
pub open spec fn collision_found(b: BirdView, p: PipesView, gs: GameState) -> bool {
    ||| intersects(bird_box(b, gs), ground_box(gs))
    ||| exists|i: int|
        0 <= i < pipes_boxes(p, gs).len() && intersects(
            #[trigger] pipes_boxes(p, gs)[i],
            bird_box(b, gs),
        )
}

/// The phase after one collision-resolution pass: collisions are only
/// evaluated while Playing, and there they can cause exactly one
/// transition, to GameOver.
pub open spec fn resolved_phase(b: BirdView, p: PipesView, gs: GameState) -> PlayState {
    if gs.state is Playing && collision_found(b, p, gs) {
        PlayState::GameOver
    } else {
        gs.state
    }
}

/// Fetch the bird's, the ground's, and every pipe's box and apply the
/// one transition a collision can cause. Only the phase can change.
pub fn resolve_collisions(bird: &Bird, ground: &Ground, pipes: &Pipes, game_state: &mut GameState)
    ensures
        final(game_state).state == resolved_phase(bird@, pipes@, *old(game_state)),
        final(game_state).score == old(game_state).score,
        final(game_state).viewport_size == old(game_state).viewport_size,
        final(game_state).fly_up == old(game_state).fly_up,
{
    let ghost gs0: GameState = *game_state;
    let bird_boxes = bird.bounding_boxes(game_state);
    let bird_bb = bird_boxes[0];
    let ground_boxes = ground.bounding_boxes(game_state);
    let ground_bb = ground_boxes[0];
    let pipe_boxes = pipes.bounding_boxes(game_state);
    let mut pipe_hit = false;
    let mut i: usize = 0;
    while i < pipe_boxes.len()
        invariant
            *game_state == gs0,
            i <= pipe_boxes@.len(),
            pipe_boxes@ == pipes_boxes(pipes@, gs0),
            forall|j: int| 0 <= j < pipe_boxes@.len() ==> box_wf(#[trigger] pipe_boxes@[j]),
            bird_bb == bird_box(bird@, gs0),
            box_wf(bird_bb),
            pipe_hit == exists|j: int|
                0 <= j < i && intersects(#[trigger] pipe_boxes@[j], bird_bb),
        decreases pipe_boxes@.len() - i,
    {
        if pipe_boxes[i].intersect(&bird_bb) {
            pipe_hit = true;
        }
        i = i + 1;
    }
    let ground_hit = bird_bb.intersect(&ground_bb);
    if matches!(game_state.state, PlayState::Playing) && (ground_hit || pipe_hit) {
        game_state.state = PlayState::GameOver;
    }
}

/// Drive one whole frame: update every entity in the fixed order
/// (background, pipes, ground, bird — none of them writes the shared
/// state), then resolve collisions unless hit detection is switched
/// off, then consume the one-frame flap flag, so the flag can never
/// survive into a second frame.
pub fn frame(
    background: &mut Background,
    pipes: &mut Pipes,
    ground: &mut Ground,
    bird: &mut Bird,
    game_state: &mut GameState,
    dt_ms: u32,
    hit_detection: bool,
)
    ensures
        final(background)@ == background_stepped(old(background)@, *old(game_state), dt_ms as int),
        final(pipes)@ == pipes_stepped(old(pipes)@, *old(game_state), dt_ms as int),
        final(ground)@ == ground_stepped(old(ground)@, *old(game_state), dt_ms as int),
        final(bird)@ == bird_stepped(old(bird)@, *old(game_state), dt_ms as int),
        final(game_state).state == if hit_detection {
            resolved_phase(
                bird_stepped(old(bird)@, *old(game_state), dt_ms as int),
                pipes_stepped(old(pipes)@, *old(game_state), dt_ms as int),
                *old(game_state),
            )
        } else {
            old(game_state).state
        },
        !final(game_state).fly_up,
        final(game_state).score == old(game_state).score,
        final(game_state).viewport_size == old(game_state).viewport_size,
{
    background.update(dt_ms, game_state);
    pipes.update(dt_ms, game_state);
    ground.update(dt_ms, game_state);
    bird.update(dt_ms, game_state);
    if hit_detection {
        resolve_collisions(bird, ground, pipes, game_state);
    }
    game_state.fly_up = false;
}

/// Apply one press or release of the flap key, mirroring the host's
/// event handling: during Playing any flap-key event raises the
/// one-frame flap flag; on the menu or the game-over screen a release
/// restarts the run (bird and pipes reset, the score returns to zero,
/// the phase becomes Playing); any other event is a no-op.
pub fn handle_flap_key(game_state: &mut GameState, bird: &mut Bird, pipes: &mut Pipes, released: bool)
    ensures
        old(game_state).state is Playing ==> *final(game_state) == (GameState {
            fly_up: true,
            ..*old(game_state)
        }),
        old(game_state).state is Playing ==> final(bird)@ == old(bird)@ && final(pipes)@ == old(
            pipes,
        )@,
        !(old(game_state).state is Playing) && released ==> final(game_state).state is Playing,
        !(old(game_state).state is Playing) && released ==> final(game_state).score == 0,
        !(old(game_state).state is Playing) && released ==> final(game_state).fly_up == old(
            game_state,
        ).fly_up,
        !(old(game_state).state is Playing) && released ==> final(game_state).viewport_size == old(
            game_state,
        ).viewport_size,
        !(old(game_state).state is Playing) && released ==> final(bird)@ == bird_reset_view(
            old(bird)@,
            old(game_state).viewport_size.1 as int,
        ),
        !(old(game_state).state is Playing) && released ==> final(pipes)@.left_pipe_offset == old(
            game_state,
        ).viewport_size.0 as int * 500 && final(pipes)@.speed == old(pipes)@.speed,
        !(old(game_state).state is Playing) && !released ==> *final(game_state) == *old(game_state)
            && final(bird)@ == old(bird)@ && final(pipes)@ == old(pipes)@,
{
    if matches!(game_state.state, PlayState::Playing) {
        game_state.fly_up = true;
    } else if released {
        bird.reset(game_state);
        pipes.reset(game_state);
        game_state.score = 0;
        game_state.state = PlayState::Playing;
    }
}

/// Record a new logical viewport size; everything else is untouched.
pub fn handle_resize(game_state: &mut GameState, width: u32, height: u32)
    ensures
        *final(game_state) == (GameState { viewport_size: (width, height), ..*old(game_state) }),
{
    game_state.viewport_size = (width, height);
}

/// The whole frame's draw list in back-to-front order: backdrop, pipes,
/// ground, bird, overlay.
pub fn frame_commands(
    background: &Background,
    pipes: &Pipes,
    ground: &Ground,
    bird: &Bird,
    ui: &Ui,
    game_state: &GameState,
) -> (r: Vec<SpriteCommand>)
    ensures
        r@ == background_commands(background@, *game_state) + pipes_commands(pipes@, *game_state)
            + ground_commands(ground@, *game_state) + bird_commands(bird@, *game_state)
            + ui_commands(ui@, *game_state),
{
    let mut commands = background.render(game_state);
    let mut more = pipes.render(game_state);
    commands.append(&mut more);
    let mut more = ground.render(game_state);
    commands.append(&mut more);
    let mut more = bird.render(game_state);
    commands.append(&mut more);
    let mut more = ui.render(game_state);
    commands.append(&mut more);
    commands
}

/// Law: while the menu phase is active, an update leaves the bird's
/// position and velocity and the pipes' offset unchanged, whatever the
/// flap flag or frame delta say.
pub proof fn lemma_menu_updates_are_inert(b: BirdView, p: PipesView, gs: GameState, dt_ms: int)
    requires
        gs.state is MainMenu,
    ensures
        bird_stepped(b, gs, dt_ms).y_position == b.y_position,
        bird_stepped(b, gs, dt_ms).y_velocity == b.y_velocity,
        pipes_stepped(p, gs, dt_ms) == p,
{
}

/// Law: in the Playing phase a collision moves the phase to GameOver in
/// a single resolution pass.
pub proof fn lemma_collision_triggers_transition(b: BirdView, p: PipesView, gs: GameState)
    requires
        gs.state is Playing,
        collision_found(b, p, gs),
    ensures
        resolved_phase(b, p, gs) is GameOver,
{
}

/// Law: once the phase is GameOver no further collision pass can move
/// it anywhere else; only an explicit restart leaves the game-over
/// screen.
pub proof fn lemma_game_over_is_stable(b: BirdView, p: PipesView, gs: GameState)
    requires
        gs.state is GameOver,
    ensures
        resolved_phase(b, p, gs) is GameOver,
{
}

} // verus!
