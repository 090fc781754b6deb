//! A camera over world space.
//!
//! The camera stores a centered position and keeps its derived viewport
//! edges (`left`, `right`, `top`, `bottom`) recomputed after every move, so
//! stale edges are never observed. Moves are clamped: stepping past a world
//! bound snaps the camera to that bound instead of rejecting the move. When
//! the world spans at least one viewport along an axis, the viewport stays
//! fully inside the world bounds; when the world is smaller, the camera
//! centers on the world and may show out-of-world margins.
//!
//! All coordinates are world-space pixels.

use vstd::prelude::*;

verus! {

/// Bound on world bounds, viewport sizes and scroll steps, so that the small
/// sums the camera computes never overflow an `i64`.
pub const COORD_LIMIT: i64 = 0x100_0000_0000_0000;

/// How many pixels one scroll step moves the camera.
pub const SCROLL_STEP: i64 = 10;

#[derive(Debug)]
pub struct Camera {
    /// Position in the world.
    pub x: i64,
    pub y: i64,
    /// Boundaries of the viewport on the world, derived from the position.
    pub left: i64,
    pub right: i64,
    pub top: i64,
    pub bottom: i64,
    /// Amounts that the camera moves per step.
    pub horiz_scroll: i64,
    pub vert_scroll: i64,
    /// World bounds the viewport is kept inside.
    pub min_x: i64,
    pub max_x: i64,
    pub min_y: i64,
    pub max_y: i64,
    /// Viewport size in pixels.
    pub viewport_width: i64,
    pub viewport_height: i64,
}

impl Camera {
    /// Half the viewport width, as the derived edges use it.
    pub open spec fn half_w(self) -> int {
        self.viewport_width as int / 2
    }

    /// Half the viewport height, as the derived edges use it.
    pub open spec fn half_h(self) -> int {
        self.viewport_height as int / 2
    }

    /// The midpoint of the world's horizontal span.
    pub open spec fn world_center_x(self) -> int {
        (self.min_x + self.max_x) as int / 2
    }

    /// The midpoint of the world's vertical span.
    pub open spec fn world_center_y(self) -> int {
        (self.min_y + self.max_y) as int / 2
    }

    /// The configuration a move never touches: viewport, scroll steps and
    /// world bounds.
    pub open spec fn config(self) -> (int, int, int, int, int, int, int, int) {
        (
            self.viewport_width as int,
            self.viewport_height as int,
            self.horiz_scroll as int,
            self.vert_scroll as int,
            self.min_x as int,
            self.max_x as int,
            self.min_y as int,
            self.max_y as int,
        )
    }

    /// The derived edges match the position.
    pub open spec fn edges_current(self) -> bool {
        &&& self.left == self.x - self.half_w()
        &&& self.right == self.x + self.half_w()
        &&& self.top == self.y - self.half_h()
        &&& self.bottom == self.y + self.half_h()
    }

    /// The configuration is sane and bounded.
    pub open spec fn config_ok(self) -> bool {
        &&& 0 < self.viewport_width <= COORD_LIMIT
        &&& 0 < self.viewport_height <= COORD_LIMIT
        &&& 0 < self.horiz_scroll <= COORD_LIMIT
        &&& 0 < self.vert_scroll <= COORD_LIMIT
        &&& 0 <= self.min_x <= self.max_x <= COORD_LIMIT
        &&& 0 <= self.min_y <= self.max_y <= COORD_LIMIT
    }

    /// Where the position may be along the horizontal axis: inside the world
    /// bounds when the world spans at least one viewport, centered on the
    /// world otherwise.
    pub open spec fn x_position_ok(self) -> bool {
        if self.max_x - self.min_x >= self.viewport_width {
            self.min_x <= self.x - self.half_w() && self.x + self.half_w() <= self.max_x
        } else {
            self.x == self.world_center_x()
        }
    }

    /// Where the position may be along the vertical axis.
    pub open spec fn y_position_ok(self) -> bool {
        if self.max_y - self.min_y >= self.viewport_height {
            self.min_y <= self.y - self.half_h() && self.y + self.half_h() <= self.max_y
        } else {
            self.y == self.world_center_y()
        }
    }

    /// The camera invariant: sane configuration, current edges, position
    /// clamped to the world.
    pub open spec fn wf(self) -> bool {
        &&& self.config_ok()
        &&& self.edges_current()
        &&& self.x_position_ok()
        &&& self.y_position_ok()
    }

    /// Where a leftward move that hits the low bound snaps the position to.
    pub open spec fn snap_x_low(self) -> int {
        if self.max_x - self.min_x >= self.viewport_width {
            self.min_x + self.half_w()
        } else {
            self.world_center_x()
        }
    }

    /// Where a rightward move that hits the high bound snaps the position to.
    pub open spec fn snap_x_high(self) -> int {
        if self.max_x - self.min_x >= self.viewport_width {
            self.max_x - self.half_w()
        } else {
            self.world_center_x()
        }
    }

    /// Where an upward move that hits the low bound snaps the position to.
    pub open spec fn snap_y_low(self) -> int {
        if self.max_y - self.min_y >= self.viewport_height {
            self.min_y + self.half_h()
        } else {
            self.world_center_y()
        }
    }

    /// Where a downward move that hits the high bound snaps the position to.
    pub open spec fn snap_y_high(self) -> int {
        if self.max_y - self.min_y >= self.viewport_height {
            self.max_y - self.half_h()
        } else {
            self.world_center_y()
        }
    }

    /// The position after `move_left`: one scroll step left if the viewport
    /// stays inside the low bound, else snapped to the low bound.
    pub open spec fn spec_move_left_x(self) -> int {
        if self.x - self.half_w() - self.horiz_scroll >= self.min_x {
            self.x - self.horiz_scroll
        } else {
            self.snap_x_low()
        }
    }

    /// The position after `move_right`.
    pub open spec fn spec_move_right_x(self) -> int {
        if self.x + self.half_w() + self.horiz_scroll <= self.max_x {
            self.x + self.horiz_scroll
        } else {
            self.snap_x_high()
        }
    }

    /// The position after `move_up`.
    pub open spec fn spec_move_up_y(self) -> int {
        if self.y - self.half_h() - self.vert_scroll >= self.min_y {
            self.y - self.vert_scroll
        } else {
            self.snap_y_low()
        }
    }

    /// The position after `move_down`.
    pub open spec fn spec_move_down_y(self) -> int {
        if self.y + self.half_h() + self.vert_scroll <= self.max_y {
            self.y + self.vert_scroll
        } else {
            self.snap_y_high()
        }
    }

    /// A camera looking at a world spanning `[0, max_x] x [0, max_y]`,
    /// placed at the world's top-left corner — or centered on the world
    /// along any axis the world is smaller than the viewport.
    pub fn new(viewport_height: i64, viewport_width: i64, max_x: i64, max_y: i64) -> (cam: Camera)
        requires
            0 < viewport_width <= COORD_LIMIT,
            0 < viewport_height <= COORD_LIMIT,
            0 <= max_x <= COORD_LIMIT,
            0 <= max_y <= COORD_LIMIT,
        ensures
            cam.wf(),
            cam.viewport_width == viewport_width,
            cam.viewport_height == viewport_height,
            cam.min_x == 0 && cam.max_x == max_x,
            cam.min_y == 0 && cam.max_y == max_y,
            cam.horiz_scroll == SCROLL_STEP,
            cam.vert_scroll == SCROLL_STEP,
            cam.x == if max_x >= viewport_width {
                viewport_width / 2
            } else {
                max_x / 2
            },
            cam.y == if max_y >= viewport_height {
                viewport_height / 2
            } else {
                max_y / 2
            },
    {
        let half_w = viewport_width / 2;
        let half_h = viewport_height / 2;
        let x = if max_x >= viewport_width {
            half_w
        } else {
            max_x / 2
        };
        let y = if max_y >= viewport_height {
            half_h
        } else {
            max_y / 2
        };
        Camera {
            x,
            y,
            left: x - half_w,
            right: x + half_w,
            top: y - half_h,
            bottom: y + half_h,
            horiz_scroll: SCROLL_STEP,
            vert_scroll: SCROLL_STEP,
            min_x: 0,
            max_x,
            min_y: 0,
            max_y,
            viewport_width,
            viewport_height,
        }
    }

    pub fn get_x(&self) -> (r: i64)
        ensures
            r == self.x,
    {
        self.x
    }

    pub fn get_y(&self) -> (r: i64)
        ensures
            r == self.y,
    {
        self.y
    }

    pub fn get_left(&self) -> (r: i64)
        ensures
            r == self.left,
    {
        self.left
    }

    pub fn get_right(&self) -> (r: i64)
        ensures
            r == self.right,
    {
        self.right
    }

    pub fn get_top(&self) -> (r: i64)
        ensures
            r == self.top,
    {
        self.top
    }

    pub fn get_bottom(&self) -> (r: i64)
        ensures
            r == self.bottom,
    {
        self.bottom
    }

    /// Recompute the derived edges from the position, so no stale edge is
    /// ever observed after a move.
    fn position_updated(&mut self)
        requires
            old(self).config_ok(),
            -4 * COORD_LIMIT <= old(self).x <= 4 * COORD_LIMIT,
            -4 * COORD_LIMIT <= old(self).y <= 4 * COORD_LIMIT,
        ensures
            final(self).edges_current(),
            final(self).x == old(self).x,
            final(self).y == old(self).y,
            final(self).config() == old(self).config(),
    {
        self.left = self.x - self.viewport_width / 2;
        self.right = self.x + self.viewport_width / 2;
        self.top = self.y - self.viewport_height / 2;
        self.bottom = self.y + self.viewport_height / 2;
    }

    /// Step the camera one scroll step to the left, clamped to the low
    /// horizontal world bound.
    pub fn move_left(&mut self)
        requires
            old(self).wf(),
        ensures
            final(self).wf(),
            final(self).x == old(self).spec_move_left_x(),
            final(self).y == old(self).y,
            final(self).config() == old(self).config(),
    {
        let half_w = self.viewport_width / 2;
        if self.x - half_w - self.horiz_scroll >= self.min_x {
            self.x = self.x - self.horiz_scroll;
        } else if self.max_x - self.min_x >= self.viewport_width {
            self.x = self.min_x + half_w;
        } else {
            self.x = (self.min_x + self.max_x) / 2;
        }
        self.position_updated();
    }

    /// Step the camera one scroll step to the right, clamped to the high
    /// horizontal world bound.
    pub fn move_right(&mut self)
        requires
            old(self).wf(),
        ensures
            final(self).wf(),
            final(self).x == old(self).spec_move_right_x(),
            final(self).y == old(self).y,
            final(self).config() == old(self).config(),
    {
        let half_w = self.viewport_width / 2;
        if self.x + half_w + self.horiz_scroll <= self.max_x {
            self.x = self.x + self.horiz_scroll;
        } else if self.max_x - self.min_x >= self.viewport_width {
            self.x = self.max_x - half_w;
        } else {
            self.x = (self.min_x + self.max_x) / 2;
        }
        self.position_updated();
    }

    /// Step the camera one scroll step up, clamped to the low vertical world
    /// bound.
    pub fn move_up(&mut self)
        requires
            old(self).wf(),
        ensures
            final(self).wf(),
            final(self).y == old(self).spec_move_up_y(),
            final(self).x == old(self).x,
            final(self).config() == old(self).config(),
    {
        let half_h = self.viewport_height / 2;
        if self.y - half_h - self.vert_scroll >= self.min_y {
            self.y = self.y - self.vert_scroll;
        } else if self.max_y - self.min_y >= self.viewport_height {
            self.y = self.min_y + half_h;
        } else {
            self.y = (self.min_y + self.max_y) / 2;
        }
        self.position_updated();
    }

    /// Step the camera one scroll step down, clamped to the high vertical
    /// world bound.
    pub fn move_down(&mut self)
        requires
            old(self).wf(),
        ensures
            final(self).wf(),
            final(self).y == old(self).spec_move_down_y(),
            final(self).x == old(self).x,
            final(self).config() == old(self).config(),
    {
        let half_h = self.viewport_height / 2;
        if self.y + half_h + self.vert_scroll <= self.max_y {
            self.y = self.y + self.vert_scroll;
        } else if self.max_y - self.min_y >= self.viewport_height {
            self.y = self.max_y - half_h;
        } else {
            self.y = (self.min_y + self.max_y) / 2;
        }
        self.position_updated();
    }
}

/// Clamping is idempotent at the boundary: a camera whose viewport already
/// touches the low horizontal bound is left exactly where it is by a further
/// `move_left`.
pub proof fn lemma_move_left_idempotent_at_edge(cam: Camera)
    requires
        cam.wf(),
        cam.left == cam.min_x,
    ensures
        cam.spec_move_left_x() == cam.x,
{
}

/// The mirror-image law at the high horizontal bound.
pub proof fn lemma_move_right_idempotent_at_edge(cam: Camera)
    requires
        cam.wf(),
        cam.right == cam.max_x,
    ensures
        cam.spec_move_right_x() == cam.x,
{
}

/// Whenever the world spans at least one viewport along each axis, every
/// well-formed camera keeps its whole viewport inside the world bounds —
/// and moves preserve well-formedness, so this holds after any sequence of
/// moves.
pub proof fn lemma_viewport_inside_world(cam: Camera)
    requires
        cam.wf(),
        cam.max_x - cam.min_x >= cam.viewport_width,
        cam.max_y - cam.min_y >= cam.viewport_height,
    ensures
        cam.min_x <= cam.left,
        cam.right <= cam.max_x,
        cam.min_y <= cam.top,
        cam.bottom <= cam.max_y,
{
}

} // verus!
