use vstd::prelude::*;

use crate::collision::{resolve, resolve_spec, Region};
use crate::geom::{
    in_pos_range, rect_wf, scaled, scaled_disp, vel_wf, Rect, Vec2i, DT_LIMIT, POS_LIMIT,
    TILE_SIDE,
};
use crate::layer::Layer;

verus! {

/// Sprite-atlas index of the standing pose.
pub const STAND_SPRITE: u32 = 15;

/// Sprite-atlas index of the first running pose.
pub const RUN_1_SPRITE: u32 = 19;

/// Sprite-atlas index of the second running pose.
pub const RUN_2_SPRITE: u32 = 23;

/// Speed a held direction key imparts, in world units per second.
pub const RUN_SPEED: i64 = 100;

/// Ticks after which the running animation toggles its frame: 1/12 s.
pub const FRAME_SWITCH_TICKS: i64 = 100;

/// Margin by which the player rectangle is smaller than one tile.
pub const PLAYER_MARGIN: i64 = 8;

/// Column of the tile the player starts in.
pub const START_COLUMN: i64 = 5;

/// The player: an axis-aligned rectangle, a velocity, and the animation
/// state (two-valued frame toggle plus accumulated running time).
pub struct Player {
    pub rect: Rect,
    pub speed: Vec2i,
    pub frame: i32,
    pub time: i64,
}

/// Velocity produced by the four direction flags: an axis's later-checked
/// key wins over the opposite one, and a released axis is still.
pub open spec fn speed_from_flags_spec(up: bool, right: bool, down: bool, left: bool) -> Vec2i {
    Vec2i {
        x: if right {
            RUN_SPEED
        } else if left {
            (-RUN_SPEED) as i64
        } else {
            0
        },
        y: if down {
            RUN_SPEED
        } else if up {
            (-RUN_SPEED) as i64
        } else {
            0
        },
    }
}

/// Frame toggle after one animation step of `dt` ticks (see `Player::wf`
/// for the state invariant): while running, a full period flips it;
/// standing leaves it alone.
pub open spec fn anim_frame_after(frame: int, time: int, dt: int, running: bool) -> int {
    if running && time + dt >= FRAME_SWITCH_TICKS {
        if frame == 0 {
            1
        } else {
            0
        }
    } else {
        frame
    }
}

/// Accumulated running time after one animation step of `dt` ticks: while
/// running it grows, resetting to 0 on each full period; standing leaves it
/// alone.
pub open spec fn anim_time_after(time: int, dt: int, running: bool) -> int {
    if running {
        if time + dt >= FRAME_SWITCH_TICKS {
            0
        } else {
            time + dt
        }
    } else {
        time
    }
}

/// Sprite for the current state: the standing pose when still, else the
/// running pose the frame toggle selects.
pub open spec fn sprite_spec(frame: int, running: bool) -> u32 {
    if !running {
        STAND_SPRITE
    } else if frame == 0 {
        RUN_1_SPRITE
    } else {
        RUN_2_SPRITE
    }
}

/// A coordinate moved by a displacement, unless the move would leave the
/// coordinate range: then the move is dropped and the frame loses that
/// motion rather than failing.
pub open spec fn moved_coord(x: int, d: int) -> int {
    if in_pos_range(x + d) {
        x + d
    } else {
        x
    }
}

/// Destination rectangle for the player sprite: one tile square centered
/// over the player rectangle and resting on its bottom edge. A
/// leftward-facing player (negative x speed) is mirrored by negating the
/// width and shifting the origin one tile right, not by another sprite.
pub open spec fn dest_rect_spec(r: Rect, speed_x: int) -> Rect {
    let xdiff = TILE_SIDE - r.w;
    let ydiff = TILE_SIDE - r.h;
    if speed_x >= 0 {
        Rect {
            x: (r.x - xdiff / 2) as i64,
            y: (r.y - ydiff) as i64,
            w: TILE_SIDE,
            h: TILE_SIDE,
        }
    } else {
        Rect {
            x: (r.x + TILE_SIDE - xdiff / 2) as i64,
            y: (r.y - ydiff) as i64,
            w: (-TILE_SIDE) as i64,
            h: TILE_SIDE,
        }
    }
}

impl Player {
    /// Well-formed player: bounded rectangle and velocity, a two-valued
    /// frame toggle, and an accumulated time strictly inside one animation
    /// period.
    pub open spec fn wf(self) -> bool {
        &&& rect_wf(self.rect)
        &&& vel_wf(self.speed)
        &&& 0 <= self.frame < 2
        &&& 0 <= self.time < FRAME_SWITCH_TICKS
    }

    /// Whether the player is running this frame: any nonzero velocity
    /// component after resolution.
    pub open spec fn running(self) -> bool {
        self.speed.x != 0 || self.speed.y != 0
    }

    /// A new player: standing still at the top of the start column, one
    /// margin smaller than a tile on each axis.
    pub fn new() -> (p: Player)
        ensures
            p.wf(),
            p.rect.x == START_COLUMN * TILE_SIDE,
            p.rect.y == 0,
            p.rect.w == TILE_SIDE - PLAYER_MARGIN,
            p.rect.h == TILE_SIDE - PLAYER_MARGIN,
            p.speed == (Vec2i { x: 0, y: 0 }),
            p.frame == 0,
            p.time == 0,
    {
        Player {
            rect: Rect {
                x: START_COLUMN * TILE_SIDE,
                y: 0,
                w: TILE_SIDE - PLAYER_MARGIN,
                h: TILE_SIDE - PLAYER_MARGIN,
            },
            speed: Vec2i { x: 0, y: 0 },
            frame: 0,
            time: 0,
        }
    }

    /// One animation step (re-evaluated every frame, no hysteresis): while
    /// `running`, `dt` ticks accumulate and a full period toggles the frame
    /// and resets the timer; standing advances neither.
    pub fn advance_animation(&mut self, dt: i64, running: bool)
        requires
            old(self).wf(),
            0 <= dt <= DT_LIMIT,
        ensures
            final(self).wf(),
            final(self).frame == anim_frame_after(
                old(self).frame as int,
                old(self).time as int,
                dt as int,
                running,
            ),
            final(self).time == anim_time_after(old(self).time as int, dt as int, running),
            final(self).rect == old(self).rect,
            final(self).speed == old(self).speed,
    {
        if running {
            self.time = self.time + dt;
            if self.time >= FRAME_SWITCH_TICKS {
                self.frame = if self.frame == 0 {
                    1
                } else {
                    0
                };
                self.time = 0;
            }
        }
    }

    /// Sprite to draw this frame.
    pub fn current_sprite(&self, running: bool) -> (s: u32)
        ensures
            s == sprite_spec(self.frame as int, running),
    {
        if !running {
            STAND_SPRITE
        } else if self.frame == 0 {
            RUN_1_SPRITE
        } else {
            RUN_2_SPRITE
        }
    }

    /// Destination rectangle for the sprite, mirrored when facing left.
    pub fn dest_rect(&self) -> (d: Rect)
        requires
            rect_wf(self.rect),
            self.rect.w <= TILE_SIDE,
            self.rect.h <= TILE_SIDE,
        ensures
            d == dest_rect_spec(self.rect, self.speed.x as int),
    {
        let xdiff = TILE_SIDE - self.rect.w;
        let ydiff = TILE_SIDE - self.rect.h;
        if self.speed.x >= 0 {
            Rect {
                x: self.rect.x - xdiff / 2,
                y: self.rect.y - ydiff,
                w: TILE_SIDE,
                h: TILE_SIDE,
            }
        } else {
            Rect {
                x: self.rect.x + TILE_SIDE - xdiff / 2,
                y: self.rect.y - ydiff,
                w: -TILE_SIDE,
                h: TILE_SIDE,
            }
        }
    }

    /// One frame of the player controller: turn the direction flags into a
    /// movement intent, resolve it against the solid tiles of `region`,
    /// integrate the resolved velocity over `dt`, and advance the animation
    /// by whether the player still moves. An integration step that would
    /// leave the coordinate range is dropped on that axis.
    pub fn step(
        &mut self,
        up: bool,
        right: bool,
        down: bool,
        left: bool,
        dt: i64,
        layer: &Layer,
        region: &Region,
    )
        requires
            old(self).wf(),
            0 <= dt <= DT_LIMIT,
            layer.wf(),
        ensures
            final(self).wf(),
            final(self).speed == resolve_spec(
                old(self).rect,
                speed_from_flags_spec(up, right, down, left),
                dt as int,
                *layer,
                *region,
            ),
            final(self).rect.x == moved_coord(
                old(self).rect.x as int,
                scaled_disp(final(self).speed.x as int, dt as int),
            ),
            final(self).rect.y == moved_coord(
                old(self).rect.y as int,
                scaled_disp(final(self).speed.y as int, dt as int),
            ),
            final(self).rect.w == old(self).rect.w,
            final(self).rect.h == old(self).rect.h,
            final(self).frame == anim_frame_after(
                old(self).frame as int,
                old(self).time as int,
                dt as int,
                final(self).running(),
            ),
            final(self).time == anim_time_after(
                old(self).time as int,
                dt as int,
                final(self).running(),
            ),
    {
        let intent = speed_from_flags(up, right, down, left);
        let resolved = resolve(&self.rect, &intent, dt, layer, region);
        self.speed = resolved;

        let dx = scaled(resolved.x, dt);
        let dy = scaled(resolved.y, dt);
        let nx = self.rect.x + dx;
        if -POS_LIMIT <= nx && nx <= POS_LIMIT {
            self.rect.x = nx;
        }
        let ny = self.rect.y + dy;
        if -POS_LIMIT <= ny && ny <= POS_LIMIT {
            self.rect.y = ny;
        }

        let running = resolved.x != 0 || resolved.y != 0;
        self.advance_animation(dt, running);
    }
}

/// Velocity for the four direction flags.
pub fn speed_from_flags(up: bool, right: bool, down: bool, left: bool) -> (v: Vec2i)
    ensures
        v == speed_from_flags_spec(up, right, down, left),
        vel_wf(v),
{
    Vec2i {
        x: if right {
            RUN_SPEED
        } else if left {
            -RUN_SPEED
        } else {
            0
        },
        y: if down {
            RUN_SPEED
        } else if up {
            -RUN_SPEED
        } else {
            0
        },
    }
}

/// Animation state reached from frame `frame` and an empty timer by `k`
/// running steps of exactly one full period each.
pub open spec fn anim_after_periods(frame: int, k: nat) -> (int, int)
    decreases k,
{
    if k == 0 {
        (frame, 0)
    } else {
        let prev = anim_after_periods(frame, (k - 1) as nat);
        (anim_frame_after(prev.0, prev.1, FRAME_SWITCH_TICKS as int, true), anim_time_after(
            prev.1,
            FRAME_SWITCH_TICKS as int,
            true,
        ))
    }
}

/// Animation timing: from a freshly reset timer, `k` running steps of
/// exactly one animation period toggle the frame exactly `k` times — the
/// frame ends on its start value exactly for even `k` — and every step
/// leaves the timer reset to 0.
pub proof fn lemma_animation_timing(frame: int, k: nat)
    requires
        0 <= frame < 2,
    ensures
        anim_after_periods(frame, k).1 == 0,
        anim_after_periods(frame, k).0 == if k % 2 == 0 {
            frame
        } else {
            1 - frame
        },
    decreases k,
{
    if k > 0 {
        lemma_animation_timing(frame, (k - 1) as nat);
    }
}

} // verus!
