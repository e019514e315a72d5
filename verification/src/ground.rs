use vstd::prelude::*;

use crate::fixed::{advance, advanced, in_range, LIMIT};
use crate::gamestate::{box_wf, BoundingBox, GameState, Hittable, PlayState, Update, Vec2};
use crate::render::{Render, SpriteCommand, SpriteId};

verus! {

/// Horizontal scroll speed of the ground texture, in milli-units per
/// second (0.15 texture widths per second).
pub const GROUND_SPEED: i64 = 150;

/// Ghost image of the ground: its texture-pan offset (milli-units) and
/// scroll speed. The collision band is fixed; the offset drives only the
/// visual pan, so collisions can never drift away from the geometry.
pub struct GroundView {
    pub offset: int,
    pub speed: int,
}

/// Validity of the ground: offset in the fixed-point range and a
/// non-negative bounded speed.
pub open spec fn ground_inv(v: GroundView) -> bool {
    &&& in_range(v.offset)
    &&& 0 <= v.speed <= LIMIT
}

/// One update step: the pan advances only while Playing.
pub open spec fn ground_stepped(v: GroundView, gs: GameState, dt_ms: int) -> GroundView {
    if gs.state is Playing {
        GroundView { offset: advanced(v.offset, v.speed, dt_ms), ..v }
    } else {
        v
    }
}

/// The ground's collision band: the bottom fifth of the viewport,
/// regardless of scroll offset.
pub open spec fn ground_box(gs: GameState) -> BoundingBox {
    BoundingBox {
        position: Vec2 { x: 0, y: (gs.viewport_size.1 as int * 800) as i64 },
        size: Vec2 {
            x: (gs.viewport_size.0 as int * 1000) as i64,
            y: (gs.viewport_size.1 as int * 200) as i64,
        },
    }
}

/// The ground's draw list: one quad over the collision band with the
/// current texture pan, in every phase.
pub open spec fn ground_commands(v: GroundView, gs: GameState) -> Seq<SpriteCommand> {
    seq![
        SpriteCommand {
            sprite: SpriteId::Ground,
            position: ground_box(gs).position,
            size: ground_box(gs).size,
            rotation: 0,
            pan: Vec2 { x: v.offset as i64, y: 0 },
            flip_horizontal: false,
            flip_vertical: false,
        },
    ]
}

/// The scrolling ground strip at the bottom of the scene. Its collision
/// band is a fixed fraction of the viewport; the scroll offset feeds
/// only the texture pan.
pub struct Ground {
    offset: i64,
    speed: i64,
}

impl Ground {
    pub closed spec fn view(self) -> GroundView {
        GroundView { offset: self.offset as int, speed: self.speed as int }
    }

    #[verifier::type_invariant]
    spec fn inv(self) -> bool {
        ground_inv(self.view())
    }

    /// A fresh ground strip with the pan at zero.
    pub fn new() -> (r: Ground)
        ensures
            r@.offset == 0,
            r@.speed == GROUND_SPEED,
            ground_inv(r@),
    {
        Ground { offset: 0, speed: GROUND_SPEED }
    }

    pub fn offset(&self) -> (r: i64)
        ensures
            r == self@.offset,
    {
        self.offset
    }
}

impl Update for Ground {
    fn update(&mut self, dt_ms: u32, game_state: &mut GameState)
        ensures
            final(self)@ == ground_stepped(old(self)@, *old(game_state), dt_ms as int),
            *final(game_state) == *old(game_state),
            ground_inv(final(self)@),
    {
        proof {
            use_type_invariant(&*self);
        }
        if matches!(game_state.state, PlayState::Playing) {
            self.offset = advance(self.offset, self.speed, dt_ms);
        }
    }
}

impl Hittable for Ground {
    fn bounding_boxes(&self, game_state: &GameState) -> (r: Vec<BoundingBox>)
        ensures
            r@.len() == 1,
            r@[0] == ground_box(*game_state),
            box_wf(r@[0]),
    {
        let (w, h) = game_state.viewport_size;
        let position = Vec2 { x: 0, y: (h as i64) * 800 };
        let size = Vec2 { x: (w as i64) * 1000, y: (h as i64) * 200 };
        let boxes = vec![BoundingBox { position, size }];
        proof {
            assert(boxes@ =~= seq![ground_box(*game_state)]);
        }
        boxes
    }
}

impl Render for Ground {
    fn render(&self, game_state: &GameState) -> (r: Vec<SpriteCommand>)
        ensures
            r@ == ground_commands(self@, *game_state),
    {
        proof {
            use_type_invariant(&*self);
        }
        let boxes = self.bounding_boxes(game_state);
        let bb = boxes[0];
        let commands = vec![
            SpriteCommand {
                sprite: SpriteId::Ground,
                position: bb.position,
                size: bb.size,
                rotation: 0,
                pan: Vec2 { x: self.offset, y: 0 },
                flip_horizontal: false,
                flip_vertical: false,
            },
        ];
        proof {
            assert(commands@ =~= ground_commands(self@, *game_state));
        }
        commands
    }
}

} // verus!
