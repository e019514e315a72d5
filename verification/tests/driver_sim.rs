use flappy_birb::background::{Background, TextureVariant};
use flappy_birb::bird::Bird;
use flappy_birb::driver::{frame, frame_commands, handle_flap_key, handle_resize, resolve_collisions};
use flappy_birb::fixed::{advance, LIMIT};
use flappy_birb::gamestate::{GameState, Hittable, PlayState, Update};
use flappy_birb::ground::Ground;
use flappy_birb::pipes::Pipes;
use flappy_birb::render::SpriteId;
use flappy_birb::ui::Ui;

const TEXTURES: [(u32, u32); 3] = [(34, 24), (34, 24), (34, 24)];

struct Scene {
    background: Background,
    pipes: Pipes,
    ground: Ground,
    bird: Bird,
    ui: Ui,
    game_state: GameState,
}

fn scene(state: PlayState) -> Scene {
    Scene {
        background: Background::new(),
        pipes: Pipes::new(700),
        ground: Ground::new(),
        bird: Bird::new(TEXTURES, (700, 970)),
        ui: Ui::new((184, 267), (192, 42)),
        game_state: GameState { state, score: 0, viewport_size: (700, 970), fly_up: false },
    }
}

fn run_frame(s: &mut Scene, dt_ms: u32, hit_detection: bool) {
    frame(
        &mut s.background,
        &mut s.pipes,
        &mut s.ground,
        &mut s.bird,
        &mut s.game_state,
        dt_ms,
        hit_detection,
    );
}

#[test]
fn collision_moves_playing_to_game_over() {
    let mut s = scene(PlayState::Playing);
    // One 700 ms tick drops the bird to y = 779 px, inside the ground
    // band that starts at 776 px.
    run_frame(&mut s, 700, true);
    assert_eq!(s.game_state.state, PlayState::GameOver);
    assert_eq!(s.bird.y_position(), 779_000);
}

#[test]
fn game_over_is_stable_under_further_frames() {
    let mut s = scene(PlayState::Playing);
    run_frame(&mut s, 700, true);
    assert_eq!(s.game_state.state, PlayState::GameOver);
    let resting_y = s.bird.y_position();
    for _ in 0..3 {
        run_frame(&mut s, 100, true);
        assert_eq!(s.game_state.state, PlayState::GameOver);
        assert_eq!(s.bird.y_position(), resting_y);
    }
}

#[test]
fn no_collision_keeps_playing() {
    let mut s = scene(PlayState::Playing);
    run_frame(&mut s, 100, true);
    assert_eq!(s.game_state.state, PlayState::Playing);
    assert_eq!(s.bird.y_position(), 491_000);
}

#[test]
fn hit_detection_off_keeps_playing() {
    let mut s = scene(PlayState::Playing);
    run_frame(&mut s, 700, false);
    assert_eq!(s.game_state.state, PlayState::Playing);
}

#[test]
fn resolve_collisions_is_inert_on_menu() {
    let mut s = scene(PlayState::MainMenu);
    // Park the bird inside the ground band, then check the menu phase
    // still never evaluates a transition.
    let mut gs_play = GameState { state: PlayState::Playing, ..s.game_state };
    s.bird.update(700, &mut gs_play);
    resolve_collisions(&s.bird, &s.ground, &s.pipes, &mut s.game_state);
    assert_eq!(s.game_state.state, PlayState::MainMenu);
}

#[test]
fn frame_clears_fly_up() {
    let mut s = scene(PlayState::Playing);
    handle_flap_key(&mut s.game_state, &mut s.bird, &mut s.pipes, false);
    assert!(s.game_state.fly_up);
    run_frame(&mut s, 0, true);
    assert!(!s.game_state.fly_up);
    run_frame(&mut s, 0, true);
    assert!(!s.game_state.fly_up);
}

#[test]
fn flap_key_release_starts_game_from_menu() {
    let mut s = scene(PlayState::MainMenu);
    handle_flap_key(&mut s.game_state, &mut s.bird, &mut s.pipes, true);
    assert_eq!(s.game_state.state, PlayState::Playing);
    assert_eq!(s.game_state.score, 0);
    assert_eq!(s.bird.y_position(), 485_000);
    assert_eq!(s.pipes.left_pipe_offset(), 350_000);
}

#[test]
fn flap_key_press_in_menu_is_noop() {
    let mut s = scene(PlayState::MainMenu);
    handle_flap_key(&mut s.game_state, &mut s.bird, &mut s.pipes, false);
    assert_eq!(s.game_state.state, PlayState::MainMenu);
    assert!(!s.game_state.fly_up);
}

#[test]
fn flap_key_during_playing_sets_flag_only() {
    let mut s = scene(PlayState::Playing);
    let before = s.bird.y_position();
    handle_flap_key(&mut s.game_state, &mut s.bird, &mut s.pipes, false);
    assert_eq!(s.game_state.state, PlayState::Playing);
    assert!(s.game_state.fly_up);
    assert_eq!(s.bird.y_position(), before);
    handle_flap_key(&mut s.game_state, &mut s.bird, &mut s.pipes, true);
    assert_eq!(s.game_state.state, PlayState::Playing);
    assert!(s.game_state.fly_up);
}

#[test]
fn restart_after_game_over_resets_run() {
    let mut s = scene(PlayState::Playing);
    run_frame(&mut s, 700, true);
    assert_eq!(s.game_state.state, PlayState::GameOver);
    s.game_state.score = 7;
    handle_flap_key(&mut s.game_state, &mut s.bird, &mut s.pipes, true);
    assert_eq!(s.game_state.state, PlayState::Playing);
    assert_eq!(s.game_state.score, 0);
    assert_eq!(s.bird.y_position(), 485_000);
    assert_eq!(s.bird.y_velocity(), 0);
    assert_eq!(s.pipes.left_pipe_offset(), 350_000);
}

#[test]
fn resize_updates_viewport_only() {
    let mut s = scene(PlayState::MainMenu);
    handle_resize(&mut s.game_state, 800, 600);
    assert_eq!(s.game_state.viewport_size, (800, 600));
    assert_eq!(s.game_state.state, PlayState::MainMenu);
}

#[test]
fn frame_commands_back_to_front_while_playing() {
    let s = scene(PlayState::Playing);
    let commands = frame_commands(&s.background, &s.pipes, &s.ground, &s.bird, &s.ui, &s.game_state);
    // Backdrop, four pipe segments, ground, bird; no overlay during play.
    assert_eq!(commands.len(), 7);
    assert_eq!(commands[0].sprite, SpriteId::BackgroundNight);
    assert_eq!(commands[1].sprite, SpriteId::Pipe);
    assert_eq!(commands[5].sprite, SpriteId::Ground);
    assert_eq!(commands[6].sprite, SpriteId::BirdDown);
}

#[test]
fn frame_commands_menu_shows_centered_banner() {
    let s = scene(PlayState::MainMenu);
    let commands = frame_commands(&s.background, &s.pipes, &s.ground, &s.bird, &s.ui, &s.game_state);
    // Backdrop, ground, welcome banner: no pipes and no bird on the menu.
    assert_eq!(commands.len(), 3);
    assert_eq!(commands[2].sprite, SpriteId::Message);
    assert_eq!(commands[2].size.x, 368_000);
    assert_eq!(commands[2].size.y, 534_000);
    assert_eq!(commands[2].position.x, 166_000);
    assert_eq!(commands[2].position.y, 218_000);
}

#[test]
fn frame_commands_game_over_shows_banner() {
    let s = scene(PlayState::GameOver);
    let commands = frame_commands(&s.background, &s.pipes, &s.ground, &s.bird, &s.ui, &s.game_state);
    // Backdrop, ground, frozen bird, game-over banner.
    assert_eq!(commands.len(), 4);
    assert_eq!(commands[3].sprite, SpriteId::GameOverBanner);
    assert_eq!(commands[3].size.x, 384_000);
    assert_eq!(commands[3].size.y, 84_000);
    assert_eq!(commands[3].position.x, 158_000);
    assert_eq!(commands[3].position.y, 443_000);
}

#[test]
fn background_variant_switch_changes_sprite() {
    let mut s = scene(PlayState::MainMenu);
    assert_eq!(s.background.texture_variant(), TextureVariant::Night);
    s.background.set_texture_variant(TextureVariant::Day);
    let commands = frame_commands(&s.background, &s.pipes, &s.ground, &s.bird, &s.ui, &s.game_state);
    assert_eq!(commands[0].sprite, SpriteId::BackgroundDay);
}

#[test]
fn scroll_offsets_advance_only_while_playing() {
    let mut s = scene(PlayState::MainMenu);
    run_frame(&mut s, 1_000, true);
    assert_eq!(s.ground.offset(), 0);
    s.game_state.state = PlayState::Playing;
    run_frame(&mut s, 1_000, true);
    assert_eq!(s.ground.offset(), 150);
    let commands = frame_commands(&s.background, &s.pipes, &s.ground, &s.bird, &s.ui, &s.game_state);
    assert_eq!(commands[0].pan.x, 85);
}

#[test]
fn ground_band_is_bottom_fifth() {
    let s = scene(PlayState::Playing);
    let boxes = s.ground.bounding_boxes(&s.game_state);
    assert_eq!(boxes.len(), 1);
    assert_eq!(boxes[0].position.x, 0);
    assert_eq!(boxes[0].position.y, 776_000);
    assert_eq!(boxes[0].size.x, 700_000);
    assert_eq!(boxes[0].size.y, 194_000);
}

#[test]
fn saturating_integration_stays_in_range() {
    assert_eq!(advance(LIMIT, LIMIT, 4_000_000_000), LIMIT);
    assert_eq!(advance(-LIMIT, -LIMIT, 4_000_000_000), -LIMIT);
    assert_eq!(advance(0, -600_000, 100), -60_000);
}
