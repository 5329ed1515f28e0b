//! The view state: the visible viewport in world space, the scroll offset,
//! and the last offset at which a reload was requested.

use vstd::prelude::*;

use crate::geom::{clamped, move_coord, WorldVec};

verus! {

/// Extra distance, in world units, added around the viewport when querying
/// the store, so that a small pan does not at once require a reload.
pub const BUFFER: i64 = 300;

/// The current view of the board: `offset` is the top-left world
/// coordinate on screen, `viewport` the bottom-right one (offset plus
/// screen size), and `last_offset` the viewport at which the last reload
/// was requested.
#[derive(Clone, Copy, Debug, PartialEq, Eq, Structural)]
pub struct ViewState {
    pub viewport: WorldVec,
    pub offset: WorldVec,
    pub last_offset: WorldVec,
}

impl ViewState {
    /// All coordinates lie within the world range.
    pub open spec fn wf(self) -> bool {
        &&& self.viewport.wf()
        &&& self.offset.wf()
        &&& self.last_offset.wf()
    }

    /// The point lies within the viewport expanded by the buffer margin.
    pub open spec fn spec_in_viewport(self, x: int, y: int) -> bool {
        &&& self.offset.x - BUFFER <= x <= self.viewport.x + BUFFER
        &&& self.offset.y - BUFFER <= y <= self.viewport.y + BUFFER
    }

    /// Whether a world-space point falls within the buffered viewport.
    pub fn in_viewport(&self, x: i64, y: i64) -> (r: bool)
        requires
            self.wf(),
        ensures
            r == self.spec_in_viewport(x as int, y as int),
    {
        let y_min = self.offset.y - BUFFER;
        let y_max = self.viewport.y + BUFFER;
        let x_min = self.offset.x - BUFFER;
        let x_max = self.viewport.x + BUFFER;
        if y > y_max || y < y_min || x > x_max || x < x_min {
            return false;
        }
        true
    }

    /// The query rectangle for a reload: the viewport expanded by the
    /// buffer margin, as `(x_min, x_max, y_min, y_max)`.
    pub fn expanded_bounds(&self) -> (r: (i64, i64, i64, i64))
        requires
            self.wf(),
        ensures
            r.0 == self.offset.x - BUFFER,
            r.1 == self.viewport.x + BUFFER,
            r.2 == self.offset.y - BUFFER,
            r.3 == self.viewport.y + BUFFER,
    {
        (self.offset.x - BUFFER, self.viewport.x + BUFFER, self.offset.y - BUFFER, self.viewport.y
            + BUFFER)
    }

    /// Recomputes the viewport from the offset and the screen size,
    /// clamping to the world range.
    pub fn update_viewport(&mut self, screen: WorldVec)
        requires
            old(self).wf(),
            screen.wf(),
            screen.x >= 0,
            screen.y >= 0,
        ensures
            final(self).viewport.x as int == clamped(old(self).offset.x + screen.x),
            final(self).viewport.y as int == clamped(old(self).offset.y + screen.y),
            final(self).offset == old(self).offset,
            final(self).last_offset == old(self).last_offset,
            final(self).wf(),
            final(self).offset.x <= final(self).viewport.x,
            final(self).offset.y <= final(self).viewport.y,
    {
        self.viewport = WorldVec {
            x: move_coord(self.offset.x, screen.x),
            y: move_coord(self.offset.y, screen.y),
        };
    }

    /// Pans the view: the offset moves *against* the given delta, as a
    /// scroll or a drag over empty canvas does, clamped to the world
    /// range.
    pub fn pan(&mut self, delta: WorldVec)
        requires
            old(self).wf(),
            delta.wf(),
        ensures
            final(self).offset.x as int == clamped(old(self).offset.x - delta.x),
            final(self).offset.y as int == clamped(old(self).offset.y - delta.y),
            final(self).viewport == old(self).viewport,
            final(self).last_offset == old(self).last_offset,
            final(self).wf(),
    {
        let neg_x: i64 = -delta.x;
        let neg_y: i64 = -delta.y;
        self.offset = WorldVec {
            x: move_coord(self.offset.x, neg_x),
            y: move_coord(self.offset.y, neg_y),
        };
    }
}

impl Default for ViewState {
    /// A view of the origin with an empty viewport.
    fn default() -> (r: ViewState)
        ensures
            r.viewport == (WorldVec { x: 0, y: 0 }),
            r.offset == (WorldVec { x: 0, y: 0 }),
            r.last_offset == (WorldVec { x: 0, y: 0 }),
            r.wf(),
    {
        ViewState {
            viewport: WorldVec { x: 0, y: 0 },
            offset: WorldVec { x: 0, y: 0 },
            last_offset: WorldVec { x: 0, y: 0 },
        }
    }
}

} // verus!
