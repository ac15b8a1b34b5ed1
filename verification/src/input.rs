use vstd::prelude::*;

verus! {

/// Half a turn, in tenths of a degree. Gesture angles live in
/// `(-HALF_TURN, HALF_TURN]`; tenths of a degree make every zone boundary
/// (multiples of 45 degrees) exact.
pub const HALF_TURN: i32 = 1800;

/// Boundary between the side zones and the up/down zones: 45 degrees.
pub const ZONE_DIAGONAL: i32 = 450;

/// Boundary between the up/down zones and the rightward zone: 135 degrees.
pub const ZONE_BACK_DIAGONAL: i32 = 1350;

/// The four direction flags a frame of input produces.
#[derive(Clone, Copy, PartialEq, Eq, Structural, Debug)]
pub struct DirFlags {
    pub up: bool,
    pub right: bool,
    pub down: bool,
    pub left: bool,
}

/// The gesture angle is measured from the anchor minus the current point,
/// so a drag in a direction yields the opposite vector: dragging up gives
/// 90 degrees, dragging right gives 180 degrees. The circle is split into
/// four disjoint 90-degree zones centered on those compass angles, each
/// closed at its counterclockwise (upper) boundary.
pub open spec fn up_zone(a: int) -> bool {
    ZONE_DIAGONAL < a <= ZONE_BACK_DIAGONAL
}

pub open spec fn right_zone(a: int) -> bool {
    ZONE_BACK_DIAGONAL < a <= HALF_TURN || -HALF_TURN < a <= -ZONE_BACK_DIAGONAL
}

pub open spec fn down_zone(a: int) -> bool {
    -ZONE_BACK_DIAGONAL < a <= -ZONE_DIAGONAL
}

pub open spec fn left_zone(a: int) -> bool {
    -ZONE_DIAGONAL < a <= ZONE_DIAGONAL
}

/// Flags a gesture angle produces: each zone raises its flag; an angle
/// outside `(-HALF_TURN, HALF_TURN]` (which no gesture produces) safely
/// raises none.
pub open spec fn flags_for_angle(a: int) -> DirFlags {
    DirFlags {
        up: up_zone(a),
        right: right_zone(a),
        down: down_zone(a),
        left: left_zone(a),
    }
}

/// Buckets a gesture angle (tenths of a degree) into direction flags.
pub fn classify_angle(angle_tenths: i32) -> (f: DirFlags)
    ensures
        f == flags_for_angle(angle_tenths as int),
{
    DirFlags {
        up: ZONE_DIAGONAL < angle_tenths && angle_tenths <= ZONE_BACK_DIAGONAL,
        right: (ZONE_BACK_DIAGONAL < angle_tenths && angle_tenths <= HALF_TURN) || (-HALF_TURN
            < angle_tenths && angle_tenths <= -ZONE_BACK_DIAGONAL),
        down: -ZONE_BACK_DIAGONAL < angle_tenths && angle_tenths <= -ZONE_DIAGONAL,
        left: -ZONE_DIAGONAL < angle_tenths && angle_tenths <= ZONE_DIAGONAL,
    }
}

/// Angle partition totality: every angle of the half-open full turn lies in
/// exactly one zone, so exactly one direction flag is raised — no gesture
/// angle is left without a defined outcome.
pub proof fn lemma_angle_partition(a: int)
    requires
        -HALF_TURN < a <= HALF_TURN,
    ensures
        up_zone(a) || right_zone(a) || down_zone(a) || left_zone(a),
        !(up_zone(a) && right_zone(a)),
        !(up_zone(a) && down_zone(a)),
        !(up_zone(a) && left_zone(a)),
        !(right_zone(a) && down_zone(a)),
        !(right_zone(a) && left_zone(a)),
        !(down_zone(a) && left_zone(a)),
{
}

/// Per-frame input state: the public direction flags, the gesture anchor
/// point, and the one-frame touch latch that [`InputHandler::update`] folds
/// into the flags and clears.
pub struct InputHandler {
    pub up: bool,
    pub right: bool,
    pub down: bool,
    pub left: bool,
    pub anchor_x: i64,
    pub anchor_y: i64,
    pub touch: DirFlags,
}

impl InputHandler {
    /// A fresh handler: no flags raised, anchor at the origin.
    pub fn new() -> (h: InputHandler)
        ensures
            !h.up && !h.right && !h.down && !h.left,
            h.anchor_x == 0 && h.anchor_y == 0,
            h.touch == (DirFlags { up: false, right: false, down: false, left: false }),
    {
        InputHandler {
            up: false,
            right: false,
            down: false,
            left: false,
            anchor_x: 0,
            anchor_y: 0,
            touch: DirFlags { up: false, right: false, down: false, left: false },
        }
    }

    /// A gesture began: record its anchor point.
    pub fn on_touch_start(&mut self, x: i64, y: i64)
        ensures
            final(self).anchor_x == x,
            final(self).anchor_y == y,
            final(self).up == old(self).up,
            final(self).right == old(self).right,
            final(self).down == old(self).down,
            final(self).left == old(self).left,
            final(self).touch == old(self).touch,
    {
        self.anchor_x = x;
        self.anchor_y = y;
    }

    /// A gesture sample at (`x`, `y`) with the angle of the anchor-minus-
    /// current vector, in tenths of a degree: while the point differs from
    /// the anchor, its classified flags replace the touch latch; a sample
    /// still at the anchor leaves the latch alone.
    pub fn apply_gesture(&mut self, x: i64, y: i64, angle_tenths: i32)
        ensures
            final(self).touch == if x == old(self).anchor_x && y == old(self).anchor_y {
                old(self).touch
            } else {
                flags_for_angle(angle_tenths as int)
            },
            final(self).anchor_x == old(self).anchor_x,
            final(self).anchor_y == old(self).anchor_y,
            final(self).up == old(self).up,
            final(self).right == old(self).right,
            final(self).down == old(self).down,
            final(self).left == old(self).left,
    {
        if !(x == self.anchor_x && y == self.anchor_y) {
            self.touch = classify_angle(angle_tenths);
        }
    }

    /// Per-frame update: each public flag becomes its key-down state OR'd
    /// with the touch latch, and the latch clears (a one-frame latch).
    pub fn update(&mut self, key_up: bool, key_right: bool, key_down: bool, key_left: bool)
        ensures
            final(self).up == (key_up || old(self).touch.up),
            final(self).right == (key_right || old(self).touch.right),
            final(self).down == (key_down || old(self).touch.down),
            final(self).left == (key_left || old(self).touch.left),
            final(self).touch == (DirFlags { up: false, right: false, down: false, left: false }),
            final(self).anchor_x == old(self).anchor_x,
            final(self).anchor_y == old(self).anchor_y,
    {
        self.up = key_up || self.touch.up;
        self.right = key_right || self.touch.right;
        self.down = key_down || self.touch.down;
        self.left = key_left || self.touch.left;
        self.touch = DirFlags { up: false, right: false, down: false, left: false };
    }

    /// Angle (tenths of a degree) at which the touch overlay draws its
    /// highlighted segment for the currently raised flags; 0 when none is
    /// raised.
    pub fn indicator_angle(&self) -> (a: i32)
        ensures
            a == indicator_angle_spec(self.up, self.right, self.down, self.left),
    {
        if self.left {
            if self.up {
                2025
            } else if self.down {
                1125
            } else {
                1575
            }
        } else if self.up {
            if self.right {
                2935
            } else {
                2475
            }
        } else if self.right {
            if self.down {
                225
            } else {
                3375
            }
        } else if self.down {
            675
        } else {
            0
        }
    }
}

/// Overlay segment angle for each combination of raised flags.
pub open spec fn indicator_angle_spec(up: bool, right: bool, down: bool, left: bool) -> i32 {
    if left {
        if up {
            2025
        } else if down {
            1125
        } else {
            1575
        }
    } else if up {
        if right {
            2935
        } else {
            2475
        }
    } else if right {
        if down {
            225
        } else {
            3375
        }
    } else if down {
        675
    } else {
        0
    }
}

} // verus!
