use flappy_birb::bird::Bird;
use flappy_birb::gamestate::{GameState, Hittable, PlayState, Update};
use flappy_birb::render::{Render, SpriteId};

const TEXTURES: [(u32, u32); 3] = [(34, 24), (34, 24), (34, 24)];

fn playing_state(fly_up: bool) -> GameState {
    GameState { state: PlayState::Playing, score: 0, viewport_size: (700, 970), fly_up }
}

#[test]
fn bird_tick_exact_values() {
    let mut gs = playing_state(false);
    let mut bird = Bird::new(TEXTURES, (700, 970));
    assert_eq!(bird.y_position(), 485_000);
    bird.update(100, &mut gs);
    assert_eq!(bird.y_velocity(), 60_000);
    assert_eq!(bird.y_position(), 491_000);
}

#[test]
fn bird_flap_tick_exact_values() {
    let mut gs = playing_state(true);
    let mut bird = Bird::new(TEXTURES, (700, 970));
    bird.update(100, &mut gs);
    assert_eq!(bird.y_velocity(), -240_000);
    assert_eq!(bird.y_position(), 461_000);
    assert_eq!(bird.rotation(), -20_000);
}

#[test]
fn bird_menu_update_is_inert() {
    let mut gs = GameState {
        state: PlayState::MainMenu,
        score: 0,
        viewport_size: (700, 970),
        fly_up: true,
    };
    let mut bird = Bird::new(TEXTURES, (700, 970));
    bird.update(1_000, &mut gs);
    assert_eq!(bird.y_position(), 485_000);
    assert_eq!(bird.y_velocity(), 0);
    assert_eq!(bird.rotation(), 0);
}

#[test]
fn bird_reset_restores_initial() {
    let mut gs = playing_state(true);
    let mut bird = Bird::new(TEXTURES, (700, 970));
    for _ in 0..5 {
        bird.update(300, &mut gs);
    }
    assert_ne!(bird.y_position(), 485_000);
    bird.reset(&gs);
    assert_eq!(bird.y_position(), 485_000);
    assert_eq!(bird.y_velocity(), 0);
    assert_eq!(bird.rotation(), 0);
    assert_eq!(bird.flap_index(), 0);
    assert_eq!(bird.flap_duration_ms(), 0);
}

#[test]
fn bird_animation_cycles_through_four_steps() {
    let mut gs = playing_state(false);
    let mut bird = Bird::new(TEXTURES, (700, 970));
    let mut seen = Vec::new();
    for _ in 0..4 {
        bird.update(250, &mut gs);
        seen.push(bird.flap_index());
    }
    assert_eq!(seen, vec![1, 2, 3, 0]);
}

#[test]
fn bird_animation_keeps_leftover_time() {
    let mut gs = playing_state(false);
    let mut bird = Bird::new(TEXTURES, (700, 970));
    bird.update(300, &mut gs);
    assert_eq!(bird.flap_index(), 1);
    assert_eq!(bird.flap_duration_ms(), 50);
}

#[test]
fn bird_animation_runs_in_game_over() {
    let mut gs = GameState {
        state: PlayState::GameOver,
        score: 0,
        viewport_size: (700, 970),
        fly_up: false,
    };
    let mut bird = Bird::new(TEXTURES, (700, 970));
    bird.update(250, &mut gs);
    assert_eq!(bird.flap_index(), 1);
    assert_eq!(bird.y_position(), 485_000);
    assert_eq!(bird.y_velocity(), 0);
}

#[test]
fn bird_bounding_box_exact() {
    let gs = playing_state(false);
    let bird = Bird::new(TEXTURES, (700, 970));
    let boxes = bird.bounding_boxes(&gs);
    assert_eq!(boxes.len(), 1);
    assert_eq!(boxes[0].position.x, 175_000);
    assert_eq!(boxes[0].position.y, 485_000);
    assert_eq!(boxes[0].size.x, 51_000);
    assert_eq!(boxes[0].size.y, 36_000);
}

#[test]
fn bird_render_is_gated_by_phase() {
    let bird = Bird::new(TEXTURES, (700, 970));
    let menu = GameState {
        state: PlayState::MainMenu,
        score: 0,
        viewport_size: (700, 970),
        fly_up: false,
    };
    assert!(bird.render(&menu).is_empty());
    let playing = playing_state(false);
    let commands = bird.render(&playing);
    assert_eq!(commands.len(), 1);
    assert_eq!(commands[0].sprite, SpriteId::BirdDown);
    assert_eq!(commands[0].position.x, 175_000);
    let over = GameState {
        state: PlayState::GameOver,
        score: 0,
        viewport_size: (700, 970),
        fly_up: false,
    };
    assert_eq!(bird.render(&over).len(), 1);
}

#[test]
fn bird_retuned_gravity_changes_fall() {
    let mut gs = playing_state(false);
    let mut bird = Bird::new(TEXTURES, (700, 970));
    bird.set_gravity(100_000);
    assert_eq!(bird.gravity(), 100_000);
    bird.update(1_000, &mut gs);
    assert_eq!(bird.y_velocity(), 100_000);
}

#[test]
fn bird_retuned_upwards_force_changes_flap() {
    let mut gs = playing_state(true);
    let mut bird = Bird::new(TEXTURES, (700, 970));
    bird.set_upwards_force(500_000);
    assert_eq!(bird.upwards_force(), 500_000);
    bird.update(0, &mut gs);
    assert_eq!(bird.y_velocity(), -500_000);
}
