use flappy_birb::gamestate::{GameState, Hittable, PlayState, Update};
use flappy_birb::pipes::{step_offset, Pipes};
use flappy_birb::render::{Render, SpriteId};

fn playing_state() -> GameState {
    GameState { state: PlayState::Playing, score: 0, viewport_size: (700, 970), fly_up: false }
}

#[test]
fn pipes_start_and_reset_at_half_viewport() {
    let gs = playing_state();
    let mut pipes = Pipes::new(700);
    assert_eq!(pipes.left_pipe_offset(), 350_000);
    let mut gs2 = gs;
    for _ in 0..7 {
        pipes.update(500, &mut gs2);
    }
    assert_ne!(pipes.left_pipe_offset(), 350_000);
    pipes.reset(&gs);
    assert_eq!(pipes.left_pipe_offset(), 350_000);
}

#[test]
fn pipe_update_scrolls_left_exactly() {
    let mut gs = playing_state();
    let mut pipes = Pipes::new(700);
    pipes.update(100, &mut gs);
    assert_eq!(pipes.left_pipe_offset(), 339_500);
}

#[test]
fn pipe_offset_stays_above_minus_pipe_width() {
    let mut gs = playing_state();
    let mut pipes = Pipes::new(700);
    let mut previous = pipes.left_pipe_offset();
    for _ in 0..40 {
        pipes.update(500, &mut gs);
        let current = pipes.left_pipe_offset();
        assert!(current >= -70_000);
        // Either a plain leftward move, or the single wrap forward by
        // exactly one period (pipe width plus gap).
        assert!(current == previous - 52_500 || current == previous - 52_500 + 210_000);
        previous = current;
    }
}

#[test]
fn pipe_wraparound_exact() {
    assert_eq!(step_offset(-95_000, 150, 700, 0), 115_000);
}

#[test]
fn pipe_offset_wraps_only_below_minus_width() {
    // -70 exactly is not yet past the threshold; one more milli-pixel is.
    assert_eq!(step_offset(-70_000, 150, 700, 0), -70_000);
    assert_eq!(step_offset(-70_001, 150, 700, 0), 139_999);
}

#[test]
fn pipes_menu_update_is_inert() {
    let mut gs = GameState {
        state: PlayState::MainMenu,
        score: 0,
        viewport_size: (700, 970),
        fly_up: true,
    };
    let mut pipes = Pipes::new(700);
    pipes.update(10_000, &mut gs);
    assert_eq!(pipes.left_pipe_offset(), 350_000);
}

#[test]
fn pipes_boxes_exact_columns() {
    let gs = playing_state();
    let pipes = Pipes::new(700);
    let boxes = pipes.bounding_boxes(&gs);
    assert_eq!(boxes.len(), 4);
    assert_eq!(boxes[0].position.x, 350_000);
    assert_eq!(boxes[0].position.y, 0);
    assert_eq!(boxes[0].size.x, 70_000);
    assert_eq!(boxes[0].size.y, 412_250);
    assert_eq!(boxes[1].position.x, 350_000);
    assert_eq!(boxes[1].position.y, 557_750);
    assert_eq!(boxes[1].size.y, 412_250);
    assert_eq!(boxes[2].position.x, 560_000);
    assert_eq!(boxes[2].position.y, 0);
    assert_eq!(boxes[3].position.x, 560_000);
    assert_eq!(boxes[3].position.y, 557_750);
}

#[test]
fn pipes_boxes_empty_outside_playing() {
    let pipes = Pipes::new(700);
    let menu = GameState {
        state: PlayState::MainMenu,
        score: 0,
        viewport_size: (700, 970),
        fly_up: false,
    };
    assert!(pipes.bounding_boxes(&menu).is_empty());
    let over = GameState {
        state: PlayState::GameOver,
        score: 0,
        viewport_size: (700, 970),
        fly_up: false,
    };
    assert!(pipes.bounding_boxes(&over).is_empty());
}

#[test]
fn pipes_boxes_empty_for_zero_viewport() {
    let pipes = Pipes::new(0);
    let gs = GameState {
        state: PlayState::Playing,
        score: 0,
        viewport_size: (0, 0),
        fly_up: false,
    };
    assert!(pipes.bounding_boxes(&gs).is_empty());
}

#[test]
fn pipes_render_mirrors_upper_segment() {
    let gs = playing_state();
    let pipes = Pipes::new(700);
    let commands = pipes.render(&gs);
    assert_eq!(commands.len(), 4);
    assert_eq!(commands[0].sprite, SpriteId::Pipe);
    assert!(commands[0].flip_vertical);
    assert!(!commands[1].flip_vertical);
    assert_eq!(commands[0].position.x, 350_000);
    assert_eq!(commands[1].position.y, 557_750);
}

#[test]
fn pipes_render_empty_outside_playing() {
    let pipes = Pipes::new(700);
    let over = GameState {
        state: PlayState::GameOver,
        score: 0,
        viewport_size: (700, 970),
        fly_up: false,
    };
    assert!(pipes.render(&over).is_empty());
}
