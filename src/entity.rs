//! A positioned, moving game object whose extent is that of its texture.
use vstd::prelude::*;

use crate::geometry::{Rect, RectView, Vec2, RECT_LIMIT, SUBPIXELS_PER_PIXEL};

verus! {

/// Largest magnitude of a position or velocity component for which one tick
/// of the simulation is computed without leaving `i64`.
pub const MOTION_LIMIT: i64 = 100_000_000_000_000;

/// The mathematical state of an entity; all lengths in subpixels.
pub struct EntityView {
    pub x: int,
    pub y: int,
    pub vx: int,
    pub vy: int,
    pub width: int,
    pub height: int,
}

impl EntityView {
    /// The axis-aligned box that the entity covers.
    pub open spec fn bounds(self) -> RectView {
        RectView { x: self.x, y: self.y, width: self.width, height: self.height }
    }

    /// Horizontal coordinate of the centre.
    pub open spec fn centre_x(self) -> int {
        self.x + self.width / 2
    }

    /// Vertical coordinate of the centre.
    pub open spec fn centre_y(self) -> int {
        self.y + self.height / 2
    }

    /// Position and velocity are small enough for one tick.
    pub open spec fn in_limits(self) -> bool {
        &&& -MOTION_LIMIT <= self.x <= MOTION_LIMIT
        &&& -MOTION_LIMIT <= self.y <= MOTION_LIMIT
        &&& -MOTION_LIMIT <= self.vx <= MOTION_LIMIT
        &&& -MOTION_LIMIT <= self.vy <= MOTION_LIMIT
    }

    /// The same entity at vertical position `y`.
    pub open spec fn with_y(self, y: int) -> EntityView {
        EntityView { y, ..self }
    }

    /// The same entity moving with velocity `(vx, vy)`.
    pub open spec fn with_velocity(self, vx: int, vy: int) -> EntityView {
        EntityView { vx, vy, ..self }
    }

    /// The entity after one step of motion: its velocity added to its position.
    pub open spec fn moved(self) -> EntityView {
        EntityView { x: self.x + self.vx, y: self.y + self.vy, ..self }
    }
}

/// A game object: the top-left corner and velocity in subpixels, and the
/// pixel dimensions of the texture that it is drawn with.
#[derive(Clone, Copy, Debug, PartialEq, Eq, Structural)]
pub struct Entity {
    pub position: Vec2,
    pub velocity: Vec2,
    pub texture_width: u32,
    pub texture_height: u32,
}

impl View for Entity {
    type V = EntityView;

    open spec fn view(&self) -> EntityView {
        EntityView {
            x: self.position.x as int,
            y: self.position.y as int,
            vx: self.velocity.x as int,
            vy: self.velocity.y as int,
            width: self.texture_width as int * SUBPIXELS_PER_PIXEL,
            height: self.texture_height as int * SUBPIXELS_PER_PIXEL,
        }
    }
}

impl Entity {
    /// The texture has a positive extent on both axes.
    pub open spec fn wf(self) -> bool {
        self.texture_width > 0 && self.texture_height > 0
    }

    /// An entity at rest at `position`.
    pub fn new(texture_width: u32, texture_height: u32, position: Vec2) -> (r: Entity)
        requires
            texture_width > 0,
            texture_height > 0,
        ensures
            r.wf(),
            r@ == (EntityView {
                x: position.x as int,
                y: position.y as int,
                vx: 0,
                vy: 0,
                width: texture_width * SUBPIXELS_PER_PIXEL,
                height: texture_height * SUBPIXELS_PER_PIXEL,
            }),
    {
        Entity { position, velocity: Vec2 { x: 0, y: 0 }, texture_width, texture_height }
    }

    /// An entity at `position` moving with `velocity`.
    pub fn with_velocity(texture_width: u32, texture_height: u32, position: Vec2, velocity: Vec2) -> (r: Entity)
        requires
            texture_width > 0,
            texture_height > 0,
        ensures
            r.wf(),
            r@ == (EntityView {
                x: position.x as int,
                y: position.y as int,
                vx: velocity.x as int,
                vy: velocity.y as int,
                width: texture_width * SUBPIXELS_PER_PIXEL,
                height: texture_height * SUBPIXELS_PER_PIXEL,
            }),
    {
        Entity { position, velocity, texture_width, texture_height }
    }

    /// Whether position and velocity are small enough for one tick.
    pub fn within_limits(&self) -> (r: bool)
        ensures
            r == self@.in_limits(),
    {
        -MOTION_LIMIT <= self.position.x && self.position.x <= MOTION_LIMIT
            && -MOTION_LIMIT <= self.position.y && self.position.y <= MOTION_LIMIT
            && -MOTION_LIMIT <= self.velocity.x && self.velocity.x <= MOTION_LIMIT
            && -MOTION_LIMIT <= self.velocity.y && self.velocity.y <= MOTION_LIMIT
    }

    /// Width in subpixels.
    pub fn width(&self) -> (r: i64)
        ensures
            r == self@.width,
    {
        self.texture_width as i64 * SUBPIXELS_PER_PIXEL
    }

    /// Height in subpixels.
    pub fn height(&self) -> (r: i64)
        ensures
            r == self@.height,
    {
        self.texture_height as i64 * SUBPIXELS_PER_PIXEL
    }

    /// The box that the entity covers.
    pub fn bounds(&self) -> (r: Rect)
        requires
            -RECT_LIMIT <= self.position.x <= RECT_LIMIT,
            -RECT_LIMIT <= self.position.y <= RECT_LIMIT,
        ensures
            r@ == self@.bounds(),
            r.in_limits(),
    {
        Rect { x: self.position.x, y: self.position.y, width: self.width(), height: self.height() }
    }

    /// The centre point; exact, as a pixel always holds an even number of subpixels.
    pub fn centre(&self) -> (r: Vec2)
        requires
            -RECT_LIMIT <= self.position.x <= RECT_LIMIT,
            -RECT_LIMIT <= self.position.y <= RECT_LIMIT,
        ensures
            r.x == self@.centre_x(),
            r.y == self@.centre_y(),
    {
        Vec2 { x: self.position.x + self.width() / 2, y: self.position.y + self.height() / 2 }
    }
}

} // verus!
