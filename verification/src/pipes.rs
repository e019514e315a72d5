use vstd::prelude::*;

use crate::fixed::{advance, advanced, in_range, scaled_by_ms, LIMIT};
use crate::gamestate::{box_wf, BoundingBox, GameState, Hittable, PlayState, Update, Vec2};
use crate::render::{Render, SpriteCommand, SpriteId};

verus! {

/// Leftward scroll speed of the pipe stream, in milli-viewport-widths
/// per second (0.15 viewport widths per second).
pub const PIPE_SPEED: i64 = 150;

/// Width of one pipe column: a tenth of the viewport width. The factor
/// turns viewport pixels into milli-pixels.
pub open spec fn pipe_width(w: int) -> int {
    w * 100
}

/// Horizontal gap between columns: a fifth of the viewport width.
pub open spec fn pipe_gap(w: int) -> int {
    w * 200
}

/// The period of the repeating column pattern: one pipe width plus one
/// gap.
pub open spec fn pipe_period(w: int) -> int {
    pipe_width(w) + pipe_gap(w)
}

/// Height of each pipe segment: the viewport height minus the aperture,
/// split evenly above and below, so (50% - 15%/2) = 42.5% of the height.
pub open spec fn pipe_segment_height(h: int) -> int {
    h * 425
}

/// Top edge of the lower pipe segment: just below the aperture, at
/// 57.5% of the viewport height.
pub open spec fn lower_pipe_top(h: int) -> int {
    h * 575
}

/// Ghost image of the pipe stream: one scalar offset (milli-pixels, the
/// x of the leftmost column) and the scroll speed. The whole unbounded
/// column pattern is derived from the offset; no per-column state exists.
pub struct PipesView {
    pub left_pipe_offset: int,
    pub speed: int,
}

/// Validity of the pipe stream: offset in the fixed-point range and a
/// bounded, non-negative speed.
pub open spec fn pipes_inv(v: PipesView) -> bool {
    &&& in_range(v.left_pipe_offset)
    &&& 0 <= v.speed <= 1000
}

/// The offset after one Playing update: scroll left by
/// `speed * viewport_width` milli-pixels per second, then, if the
/// leftmost column has moved entirely off screen (more than one pipe
/// width to the left), wrap the reference forward by exactly one period.
pub open spec fn pipes_stepped_offset(offset: int, speed: int, w: int, dt_ms: int) -> int {
    let moved = advanced(offset, -(w * speed), dt_ms);
    if moved < -pipe_width(w) {
        moved + pipe_period(w)
    } else {
        moved
    }
}

/// One whole update step: only the Playing phase scrolls.
pub open spec fn pipes_stepped(v: PipesView, gs: GameState, dt_ms: int) -> PipesView {
    if gs.state is Playing {
        PipesView {
            left_pipe_offset: pipes_stepped_offset(
                v.left_pipe_offset,
                v.speed,
                gs.viewport_size.0 as int,
                dt_ms,
            ),
            ..v
        }
    } else {
        v
    }
}

/// The two collision boxes of the column at `offset`: the upper segment
/// hangs from the top edge, the lower rises from just below the aperture.
pub open spec fn pipe_pair_boxes(offset: int, w: int, h: int) -> Seq<BoundingBox> {
    seq![
        BoundingBox {
            position: Vec2 { x: offset as i64, y: 0 },
            size: Vec2 { x: pipe_width(w) as i64, y: pipe_segment_height(h) as i64 },
        },
        BoundingBox {
            position: Vec2 { x: offset as i64, y: lower_pipe_top(h) as i64 },
            size: Vec2 { x: pipe_width(w) as i64, y: pipe_segment_height(h) as i64 },
        },
    ]
}

/// Collision boxes of every column from `offset` rightward while still
/// on screen, one period apart. (The recursion argument is capped at the
/// right viewport edge, where the emitted sequence is empty either way.)
pub open spec fn pipe_boxes_from(offset: int, w: int, h: int) -> Seq<BoundingBox>
    decreases w * 1000 - offset,
{
    if w < 1 || offset >= w * 1000 {
        seq![]
    } else {
        let stepped = offset + pipe_period(w);
        let next = if stepped > w * 1000 {
            w * 1000
        } else {
            stepped
        };
        pipe_pair_boxes(offset, w, h) + pipe_boxes_from(next, w, h)
    }
}

/// The pipes' collision geometry: the full derived column list while
/// Playing, and nothing in the other phases (columns neither show nor
/// collide on the menu, and stand frozen on the game-over screen only
/// visually).
pub open spec fn pipes_boxes(v: PipesView, gs: GameState) -> Seq<BoundingBox> {
    if gs.state is Playing {
        pipe_boxes_from(v.left_pipe_offset, gs.viewport_size.0 as int, gs.viewport_size.1 as int)
    } else {
        seq![]
    }
}

/// The two draw commands of the column at `offset`: the upper segment is
/// the same texture mirrored vertically.
pub open spec fn pipe_pair_commands(offset: int, w: int, h: int) -> Seq<SpriteCommand> {
    seq![
        SpriteCommand {
            sprite: SpriteId::Pipe,
            position: Vec2 { x: offset as i64, y: 0 },
            size: Vec2 { x: pipe_width(w) as i64, y: pipe_segment_height(h) as i64 },
            rotation: 0,
            pan: Vec2 { x: 0, y: 0 },
            flip_horizontal: false,
            flip_vertical: true,
        },
        SpriteCommand {
            sprite: SpriteId::Pipe,
            position: Vec2 { x: offset as i64, y: lower_pipe_top(h) as i64 },
            size: Vec2 { x: pipe_width(w) as i64, y: pipe_segment_height(h) as i64 },
            rotation: 0,
            pan: Vec2 { x: 0, y: 0 },
            flip_horizontal: false,
            flip_vertical: false,
        },
    ]
}

/// Draw commands of every on-screen column from `offset` rightward.
pub open spec fn pipe_commands_from(offset: int, w: int, h: int) -> Seq<SpriteCommand>
    decreases w * 1000 - offset,
{
    if w < 1 || offset >= w * 1000 {
        seq![]
    } else {
        let stepped = offset + pipe_period(w);
        let next = if stepped > w * 1000 {
            w * 1000
        } else {
            stepped
        };
        pipe_pair_commands(offset, w, h) + pipe_commands_from(next, w, h)
    }
}

/// The pipes' draw list: every on-screen column while Playing, nothing
/// otherwise.
pub open spec fn pipes_commands(v: PipesView, gs: GameState) -> Seq<SpriteCommand> {
    if gs.state is Playing {
        pipe_commands_from(v.left_pipe_offset, gs.viewport_size.0 as int, gs.viewport_size.1 as int)
    } else {
        seq![]
    }
}

/// The endless stream of pipe obstacles, stored as a single scalar: the
/// x of the leftmost column. Columns are re-derived from it every frame
/// for both rendering and collision, so the two always agree.
pub struct Pipes {
    left_pipe_offset: i64,
    speed: i64,
}

impl Pipes {
    pub closed spec fn view(self) -> PipesView {
        PipesView { left_pipe_offset: self.left_pipe_offset as int, speed: self.speed as int }
    }

    #[verifier::type_invariant]
    spec fn inv(self) -> bool {
        pipes_inv(self.view())
    }

    /// A fresh stream with the leftmost column at half the viewport
    /// width.
    pub fn new(viewport_width: u32) -> (r: Pipes)
        ensures
            r@.left_pipe_offset == viewport_width as int * 500,
            r@.speed == PIPE_SPEED,
            pipes_inv(r@),
    {
        Pipes { left_pipe_offset: (viewport_width as i64) * 500, speed: PIPE_SPEED }
    }

    /// Re-center the leftmost column at half the current viewport width.
    pub fn reset(&mut self, game_state: &GameState)
        ensures
            final(self)@.left_pipe_offset == game_state.viewport_size.0 as int * 500,
            final(self)@.speed == old(self)@.speed,
            pipes_inv(final(self)@),
    {
        proof {
            use_type_invariant(&*self);
        }
        self.left_pipe_offset = (game_state.viewport_size.0 as i64) * 500;
    }

    pub fn left_pipe_offset(&self) -> (r: i64)
        ensures
            r == self@.left_pipe_offset,
    {
        self.left_pipe_offset
    }
}

/// The scroll-and-wrap step on the raw offset: the pure function of
/// (offset, speed, viewport width, frame delta) that both updating and
/// testing go through.
pub fn step_offset(offset: i64, speed: i64, viewport_width: u32, dt_ms: u32) -> (r: i64)
    requires
        in_range(offset as int),
        0 <= speed <= 1000,
    ensures
        r as int == pipes_stepped_offset(offset as int, speed as int, viewport_width as int, dt_ms as int),
        in_range(r as int),
{
    let w = viewport_width;
    proof {
        assert((w as i64) * speed <= 0xffff_ffffi64 * 1000) by (nonlinear_arith)
            requires
                w <= 0xffff_ffffu32,
                0 <= speed <= 1000,
        ;
        assert((w as i64) * speed >= 0) by (nonlinear_arith)
            requires
                w >= 0,
                speed >= 0,
        ;
    }
    let rate: i64 = (w as i64) * speed;
    let moved = advance(offset, -rate, dt_ms);
    let pw: i64 = (w as i64) * 100;
    if moved < -pw {
        moved + (w as i64) * 300
    } else {
        moved
    }
}

impl Update for Pipes {
    fn update(&mut self, dt_ms: u32, game_state: &mut GameState)
        ensures
            final(self)@ == pipes_stepped(old(self)@, *old(game_state), dt_ms as int),
            *final(game_state) == *old(game_state),
            pipes_inv(final(self)@),
    {
        proof {
            use_type_invariant(&*self);
        }
        if matches!(game_state.state, PlayState::Playing) {
            self.left_pipe_offset = step_offset(
                self.left_pipe_offset,
                self.speed,
                game_state.viewport_size.0,
                dt_ms,
            );
        }
    }
}

impl Hittable for Pipes {
    fn bounding_boxes(&self, game_state: &GameState) -> (r: Vec<BoundingBox>)
        ensures
            r@ == pipes_boxes(self@, *game_state),
            forall|i: int| 0 <= i < r@.len() ==> box_wf(#[trigger] r@[i]),
    {
        proof {
            use_type_invariant(&*self);
        }
        let mut result: Vec<BoundingBox> = Vec::new();
        if !matches!(game_state.state, PlayState::Playing) {
            proof {
                assert(result@ =~= pipes_boxes(self@, *game_state));
            }
            return result;
        }
        let (w, h) = game_state.viewport_size;
        if w < 1 {
            proof {
                assert(result@ =~= pipes_boxes(self@, *game_state));
            }
            return result;
        }
        let width_mpx: i64 = (w as i64) * 1000;
        let mut offset: i64 = self.left_pipe_offset;
        while offset < width_mpx
            invariant
                1 <= w <= u32::MAX,
                0 <= h <= u32::MAX,
                width_mpx == w as int * 1000,
                in_range(offset as int),
                pipe_boxes_from(self@.left_pipe_offset, w as int, h as int) == result@
                    + pipe_boxes_from(offset as int, w as int, h as int),
                forall|i: int| 0 <= i < result@.len() ==> box_wf(#[trigger] result@[i]),
            decreases width_mpx - offset,
        {
            let ghost offset0: int = offset as int;
            let ghost res0: Seq<BoundingBox> = result@;
            let pw: i64 = (w as i64) * 100;
            let seg_h: i64 = (h as i64) * 425;
            let lower_y: i64 = (h as i64) * 575;
            result.push(
                BoundingBox {
                    position: Vec2 { x: offset, y: 0 },
                    size: Vec2 { x: pw, y: seg_h },
                },
            );
            result.push(
                BoundingBox {
                    position: Vec2 { x: offset, y: lower_y },
                    size: Vec2 { x: pw, y: seg_h },
                },
            );
            let period: i64 = (w as i64) * 300;
            let stepped: i64 = offset + period;
            offset = if stepped > width_mpx {
                width_mpx
            } else {
                stepped
            };
            proof {
                assert(result@ =~= res0 + pipe_pair_boxes(offset0, w as int, h as int));
                assert(pipe_boxes_from(offset0, w as int, h as int) == pipe_pair_boxes(
                    offset0,
                    w as int,
                    h as int,
                ) + pipe_boxes_from(offset as int, w as int, h as int));
                assert(res0 + (pipe_pair_boxes(offset0, w as int, h as int) + pipe_boxes_from(
                    offset as int,
                    w as int,
                    h as int,
                )) =~= result@ + pipe_boxes_from(offset as int, w as int, h as int));
            }
        }
        proof {
            assert(pipe_boxes_from(offset as int, w as int, h as int) =~= Seq::<
                BoundingBox,
            >::empty());
            assert(result@ =~= result@ + pipe_boxes_from(offset as int, w as int, h as int));
        }
        result
    }
}

impl Render for Pipes {
    fn render(&self, game_state: &GameState) -> (r: Vec<SpriteCommand>)
        ensures
            r@ == pipes_commands(self@, *game_state),
    {
        proof {
            use_type_invariant(&*self);
        }
        let mut result: Vec<SpriteCommand> = Vec::new();
        if !matches!(game_state.state, PlayState::Playing) {
            proof {
                assert(result@ =~= pipes_commands(self@, *game_state));
            }
            return result;
        }
        let (w, h) = game_state.viewport_size;
        if w < 1 {
            proof {
                assert(result@ =~= pipes_commands(self@, *game_state));
            }
            return result;
        }
        let width_mpx: i64 = (w as i64) * 1000;
        let mut offset: i64 = self.left_pipe_offset;
        while offset < width_mpx
            invariant
                1 <= w <= u32::MAX,
                0 <= h <= u32::MAX,
                width_mpx == w as int * 1000,
                in_range(offset as int),
                pipe_commands_from(self@.left_pipe_offset, w as int, h as int) == result@
                    + pipe_commands_from(offset as int, w as int, h as int),
            decreases width_mpx - offset,
        {
            let ghost offset0: int = offset as int;
            let ghost res0: Seq<SpriteCommand> = result@;
            let pw: i64 = (w as i64) * 100;
            let seg_h: i64 = (h as i64) * 425;
            let lower_y: i64 = (h as i64) * 575;
            result.push(
                SpriteCommand {
                    sprite: SpriteId::Pipe,
                    position: Vec2 { x: offset, y: 0 },
                    size: Vec2 { x: pw, y: seg_h },
                    rotation: 0,
                    pan: Vec2 { x: 0, y: 0 },
                    flip_horizontal: false,
                    flip_vertical: true,
                },
            );
            result.push(
                SpriteCommand {
                    sprite: SpriteId::Pipe,
                    position: Vec2 { x: offset, y: lower_y },
                    size: Vec2 { x: pw, y: seg_h },
                    rotation: 0,
                    pan: Vec2 { x: 0, y: 0 },
                    flip_horizontal: false,
                    flip_vertical: false,
                },
            );
            let period: i64 = (w as i64) * 300;
            let stepped: i64 = offset + period;
            offset = if stepped > width_mpx {
                width_mpx
            } else {
                stepped
            };
            proof {
                assert(result@ =~= res0 + pipe_pair_commands(offset0, w as int, h as int));
                assert(pipe_commands_from(offset0, w as int, h as int) == pipe_pair_commands(
                    offset0,
                    w as int,
                    h as int,
                ) + pipe_commands_from(offset as int, w as int, h as int));
                assert(res0 + (pipe_pair_commands(offset0, w as int, h as int)
                    + pipe_commands_from(offset as int, w as int, h as int)) =~= result@
                    + pipe_commands_from(offset as int, w as int, h as int));
            }
        }
        proof {
            assert(pipe_commands_from(offset as int, w as int, h as int) =~= Seq::<
                SpriteCommand,
            >::empty());
            assert(result@ =~= result@ + pipe_commands_from(offset as int, w as int, h as int));
        }
        result
    }
}

/// Law: a Playing update whose frame delta scrolls the stream by at most
/// one period keeps the leftmost reference at or above minus one pipe
/// width; the offset only decreases, except for the single wraparound
/// that adds back exactly one period.
pub proof fn lemma_pipe_offset_wraps(offset: int, speed: int, w: int, dt_ms: int)
    requires
        in_range(offset),
        0 <= speed <= 1000,
        0 <= w <= u32::MAX,
        dt_ms >= 0,
        offset >= -pipe_width(w),
        scaled_by_ms(w * speed, dt_ms) <= pipe_period(w),
    ensures
        pipes_stepped_offset(offset, speed, w, dt_ms) >= -pipe_width(w),
        pipes_stepped_offset(offset, speed, w, dt_ms) == offset - scaled_by_ms(w * speed, dt_ms)
            || pipes_stepped_offset(offset, speed, w, dt_ms) == offset - scaled_by_ms(
            w * speed,
            dt_ms,
        ) + pipe_period(w),
        offset - scaled_by_ms(w * speed, dt_ms) <= offset,
{
    let rate = w * speed;
    assert(w * speed >= 0) by (nonlinear_arith)
        requires
            w >= 0,
            speed >= 0,
    ;
    assert(w * speed <= 0xffff_ffff * 1000) by (nonlinear_arith)
        requires
            0 <= w <= 0xffff_ffff,
            0 <= speed <= 1000,
    ;
    let delta = scaled_by_ms(rate, dt_ms);
    assert(rate * dt_ms >= 0) by (nonlinear_arith)
        requires
            w * speed >= 0,
            rate == w * speed,
            dt_ms >= 0,
    ;
    assert(delta >= 0);
    let moved = offset - delta;
    assert(moved >= -pipe_width(w) - pipe_period(w));
    assert(moved <= LIMIT);
    assert(moved >= -LIMIT);
    crate::fixed::lemma_scaled_by_ms_neg(rate, dt_ms);
    assert(scaled_by_ms(-rate, dt_ms) == -delta);
    assert(advanced(offset, -rate, dt_ms) == moved);
}

} // verus!
