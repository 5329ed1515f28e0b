//! The interaction state and per-frame decision logic: coordinate
//! transforms, debounced viewport reloads, block creation, dragging and
//! text edits. The GUI shell feeds each frame's input snapshot in as plain
//! values and carries the returned actions out (sending snapshots to the
//! sync worker and mirroring writes to the durable store).

use vstd::prelude::*;

use crate::block::{Block, BlockPosition, BlockType};
use crate::geom::{clamped, in_world, move_coord, COORD_LIMIT, WorldVec};
use crate::persistor::{matching_rows, rows_moved, Persistor, SavedBlock};
use crate::state::{board_from_rows, dedup_rows, ids_have, BoardState};
use crate::view::{ViewState, BUFFER};

verus! {

/// Minimum time between two viewport snapshots sent to the sync worker,
/// in milliseconds.
pub const DEBOUNCE_MS: u64 = 100;

/// Two primary clicks within this many milliseconds form a double click.
pub const DOUBLE_CLICK_MS: u64 = 350;

/// The width a label is capped at on first measurement, until the user
/// resizes it, in world units.
pub const MAX_LABEL_WIDTH: i64 = 300;

/// The text a freshly created label carries.
pub open spec fn spec_placeholder_text() -> Seq<char> {
    "Lorem Ipsum is simply dummy text of the printing and typesetting industry. Lorem Ipsum has been the industry's standard dummy text ever since the 1500s, when an unknown printer took a galley of type and scrambled it to make a type specimen book. It has survived not only five centuries, but also the leap into electronic typesetting, remaining essentially unchanged. It was popularised in the 1960s with the release of Letraset sheets containing Lorem Ipsum passages, and more recently with desktop publishing software like Aldus PageMaker including versions of Lorem Ipsum."@
}

/// The text a freshly created label carries.
pub fn placeholder_text() -> (r: String)
    ensures
        r@ == spec_placeholder_text(),
{
    "Lorem Ipsum is simply dummy text of the printing and typesetting industry. Lorem Ipsum has been the industry's standard dummy text ever since the 1500s, when an unknown printer took a galley of type and scrambled it to make a type specimen book. It has survived not only five centuries, but also the leap into electronic typesetting, remaining essentially unchanged. It was popularised in the 1960s with the release of Letraset sheets containing Lorem Ipsum passages, and more recently with desktop publishing software like Aldus PageMaker including versions of Lorem Ipsum.".to_owned()
}

/// Relies on uuid::Uuid::new_v4 and its display form: a fresh random
/// version-4 identifier, written as the 36-character hyphenated text.
/// The value is random, so nothing is stated beyond its length.
#[verifier::external_body]
fn fresh_block_id() -> (r: String)
    ensures
        r@.len() == 36,
{
    uuid::Uuid::new_v4().to_string()
}

/// The world has moved beyond the buffer margin in some axis since the
/// last sent snapshot.
pub open spec fn moved_beyond_buffer(vs: ViewState) -> bool {
    ||| vs.viewport.x - vs.last_offset.x < -BUFFER
    ||| vs.viewport.x - vs.last_offset.x > BUFFER
    ||| vs.viewport.y - vs.last_offset.y < -BUFFER
    ||| vs.viewport.y - vs.last_offset.y > BUFFER
}

/// The interaction state: the working block set, the view, the widgets
/// under interaction, the store, and the debounce timestamps (all
/// timestamps are milliseconds on the caller's monotonic clock).
pub struct App {
    pub board_state: BoardState,
    pub view_state: ViewState,
    pub dragging_widget: String,
    pub selected_widget: String,
    pub hovered_widget: String,
    pub persist: Persistor,
    pub initialized: bool,
    pub last_viewport_change: u64,
    pub last_click: u64,
}

impl Default for App {
    /// A fresh interaction state: empty board, view at the origin, no
    /// widget under interaction, and a store whose table is not yet set
    /// up.
    fn default() -> (r: App)
        ensures
            r.board_state.ids@.len() == 0,
            r.board_state.sizes@.len() == 0,
            r.view_state == (ViewState {
                viewport: WorldVec { x: 0, y: 0 },
                offset: WorldVec { x: 0, y: 0 },
                last_offset: WorldVec { x: 0, y: 0 },
            }),
            r.dragging_widget@.len() == 0,
            r.selected_widget@.len() == 0,
            r.hovered_widget@.len() == 0,
            r.persist@.len() == 0,
            !r.persist.is_ready(),
            !r.initialized,
            r.last_viewport_change == 0,
            r.last_click == 0,
            r.board_state.wf(),
            r.view_state.wf(),
            r.persist.wf(),
    {
        App {
            board_state: BoardState::default(),
            view_state: ViewState::default(),
            dragging_widget: String::new(),
            selected_widget: String::new(),
            hovered_widget: String::new(),
            persist: Persistor::default(),
            initialized: false,
            last_viewport_change: 0,
            last_click: 0,
        }
    }
}

impl App {
    /// The whole interaction state is well-formed and the store's table
    /// exists.
    pub open spec fn wf(self) -> bool {
        &&& self.board_state.wf()
        &&& self.view_state.wf()
        &&& self.persist.wf()
        &&& self.persist.is_ready()
    }

    /// A fresh interaction state with the store's table set up.
    pub fn new() -> (r: App)
        ensures
            r.wf(),
            r.board_state.ids@.len() == 0,
            r.board_state.sizes@.len() == 0,
            r.view_state == (ViewState {
                viewport: WorldVec { x: 0, y: 0 },
                offset: WorldVec { x: 0, y: 0 },
                last_offset: WorldVec { x: 0, y: 0 },
            }),
            r.dragging_widget@.len() == 0,
            r.selected_widget@.len() == 0,
            r.hovered_widget@.len() == 0,
            r.persist@.len() == 0,
            !r.initialized,
            r.last_viewport_change == 0,
            r.last_click == 0,
    {
        let mut app = App::default();
        app.persist.setup();
        app
    }

    /// The screen-space interact position carried into world space by the
    /// current offset; the origin when there is no interact position.
    pub open spec fn spec_interact_point(offset: WorldVec, interact: Option<WorldVec>) -> WorldVec {
        match interact {
            Some(p) => WorldVec {
                x: clamped(p.x + offset.x) as i64,
                y: clamped(p.y + offset.y) as i64,
            },
            None => WorldVec { x: 0, y: 0 },
        }
    }

    /// Translates the pointer's screen-space interact position into world
    /// space by adding the current view offset.
    pub fn get_interact_point(&self, interact: Option<WorldVec>) -> (r: WorldVec)
        requires
            self.view_state.wf(),
            interact matches Some(p) ==> p.wf(),
        ensures
            r == App::spec_interact_point(self.view_state.offset, interact),
            r.wf(),
    {
        match interact {
            Some(p) => WorldVec {
                x: move_coord(p.x, self.view_state.offset.x),
                y: move_coord(p.y, self.view_state.offset.y),
            },
            None => WorldVec { x: 0, y: 0 },
        }
    }

    /// Creates a new label block at the given world position, with the
    /// placeholder text and an unmeasured size, appends it to the board
    /// and the store, and returns the stored record (so that a shell can
    /// mirror it to the durable store).
    pub fn add_label(&mut self, x: i64, y: i64) -> (r: SavedBlock)
        requires
            old(self).wf(),
            in_world(x as int),
            in_world(y as int),
        ensures
            final(self).wf(),
            r.block_type is Label,
            r.block_data@ == spec_placeholder_text(),
            r.x == x,
            r.y == y,
            r.width == 0,
            r.height == 0,
            r.id@.len() == 36,
            !ids_have(old(self).board_state.ids@, r.id@) ==> {
                &&& final(self).board_state.ids@ == old(self).board_state.ids@.push(r.id)
                &&& final(self).board_state.positions@ == old(self).board_state.positions@.push(
                    BlockPosition { id: r.id, x, y, size: WorldVec { x: 0, y: 0 } },
                )
                &&& final(self).board_state.blocks@ == old(self).board_state.blocks@.push(
                    Block { id: r.id, block_type: BlockType::Label, block_data: r.block_data },
                )
            },
            ids_have(old(self).board_state.ids@, r.id@) ==> final(self).board_state == old(
                self,
            ).board_state,
            final(self).board_state.sizes@ == old(self).board_state.sizes@,
            final(self).persist@ == old(self).persist@.push(r),
            final(self).view_state == old(self).view_state,
            final(self).dragging_widget == old(self).dragging_widget,
            final(self).selected_widget == old(self).selected_widget,
            final(self).hovered_widget == old(self).hovered_widget,
            final(self).initialized == old(self).initialized,
            final(self).last_viewport_change == old(self).last_viewport_change,
            final(self).last_click == old(self).last_click,
    {
        let id = fresh_block_id();
        let data = placeholder_text();
        let record = SavedBlock {
            id: id.clone(),
            block_type: BlockType::Label,
            block_data: data.clone(),
            x,
            y,
            width: 0,
            height: 0,
        };
        self.board_state.push_block(id, BlockType::Label, data, x, y);
        self.persist.on_add(record.clone());
        record
    }

    /// The debounce decision: the interval has elapsed since the last
    /// sent snapshot and the viewport has moved beyond the buffer margin.
    pub open spec fn viewport_send_decision(self, now_ms: u64) -> bool {
        send_decision(self.view_state, self.last_viewport_change, now_ms)
    }

    /// What `on_viewport_change` does: either nothing, or (exactly when
    /// the debounce decision allows it) the snapshot to send is returned,
    /// the sent viewport is remembered, and the send time is stamped.
    pub open spec fn viewport_change_transition(
        pre: App,
        post: App,
        r: Option<ViewState>,
        now_ms: u64,
    ) -> bool {
        &&& (r is Some <==> pre.viewport_send_decision(now_ms))
        &&& (r is None ==> post == pre)
        &&& (r matches Some(v) ==> {
            &&& post == (App {
                view_state: ViewState { last_offset: pre.view_state.viewport, ..pre.view_state },
                last_viewport_change: now_ms,
                ..pre
            })
            &&& v == post.view_state
        })
    }

    /// Decides whether the viewport moved enough, and long enough after
    /// the last reload, to request a new one; returns the snapshot to
    /// send to the sync worker, or `None` while the debounce suppresses
    /// it.
    pub fn on_viewport_change(&mut self, now_ms: u64) -> (r: Option<ViewState>)
        requires
            old(self).wf(),
            old(self).last_viewport_change <= now_ms,
        ensures
            final(self).wf(),
            App::viewport_change_transition(*old(self), *final(self), r, now_ms),
            final(self).last_viewport_change <= now_ms,
    {
        if now_ms - self.last_viewport_change < DEBOUNCE_MS {
            return None;
        }
        let diff_x = self.view_state.viewport.x - self.view_state.last_offset.x;
        let diff_y = self.view_state.viewport.y - self.view_state.last_offset.y;
        if diff_x >= -BUFFER && diff_x <= BUFFER && diff_y >= -BUFFER && diff_y <= BUFFER {
            return None;
        }
        self.view_state.last_offset = self.view_state.viewport;
        self.last_viewport_change = now_ms;
        Some(self.view_state)
    }

    /// Starts a frame: recomputes the viewport from the offset and the
    /// screen size, and on the very first frame returns the initial
    /// snapshot to send to the sync worker.
    pub fn begin_frame(&mut self, screen: WorldVec) -> (r: Option<ViewState>)
        requires
            old(self).wf(),
            screen.wf(),
            screen.x >= 0,
            screen.y >= 0,
        ensures
            final(self).wf(),
            final(self).view_state.viewport.x as int == clamped(
                old(self).view_state.offset.x + screen.x,
            ),
            final(self).view_state.viewport.y as int == clamped(
                old(self).view_state.offset.y + screen.y,
            ),
            final(self).view_state.offset == old(self).view_state.offset,
            final(self).view_state.last_offset == old(self).view_state.last_offset,
            final(self).initialized,
            (r is Some <==> !old(self).initialized),
            (r matches Some(v) ==> v == final(self).view_state),
            final(self).board_state == old(self).board_state,
            final(self).persist == old(self).persist,
            final(self).dragging_widget == old(self).dragging_widget,
            final(self).selected_widget == old(self).selected_widget,
            final(self).hovered_widget == old(self).hovered_widget,
            final(self).last_viewport_change == old(self).last_viewport_change,
            final(self).last_click == old(self).last_click,
    {
        self.view_state.update_viewport(screen);
        if !self.initialized {
            self.initialized = true;
            return Some(self.view_state);
        }
        None
    }

    /// Swaps in a replacement snapshot the sync worker answered with.
    pub fn adopt_board_state(&mut self, board: BoardState)
        requires
            old(self).wf(),
            board.wf(),
        ensures
            final(self).wf(),
            final(self).board_state == board,
            *final(self) == (App { board_state: board, ..*old(self) }),
    {
        self.board_state = board;
    }

    /// Applies a scroll: a nonzero scroll delta pans the view against it
    /// and then runs the debounced viewport-change decision.
    pub fn apply_scroll(&mut self, scroll: WorldVec, now_ms: u64) -> (r: Option<ViewState>)
        requires
            old(self).wf(),
            scroll.wf(),
            old(self).last_viewport_change <= now_ms,
        ensures
            final(self).wf(),
            final(self).last_viewport_change <= now_ms,
            (scroll.x == 0 && scroll.y == 0) ==> r is None && *final(self) == *old(self),
            !(scroll.x == 0 && scroll.y == 0) ==> App::viewport_change_transition(
                App {
                    view_state: ViewState {
                        offset: WorldVec {
                            x: clamped(old(self).view_state.offset.x - scroll.x) as i64,
                            y: clamped(old(self).view_state.offset.y - scroll.y) as i64,
                        },
                        ..old(self).view_state
                    },
                    ..*old(self)
                },
                *final(self),
                r,
                now_ms,
            ),
    {
        if scroll.x == 0 && scroll.y == 0 {
            return None;
        }
        self.view_state.pan(scroll);
        proof {
            assert(*self == (App {
                view_state: ViewState {
                    offset: WorldVec {
                        x: clamped(old(self).view_state.offset.x - scroll.x) as i64,
                        y: clamped(old(self).view_state.offset.y - scroll.y) as i64,
                    },
                    ..old(self).view_state
                },
                ..*old(self)
            }));
        }
        self.on_viewport_change(now_ms)
    }

    /// Commits an in-place text edit: when the text differs from the
    /// block's current content, the first block carrying the identifier
    /// and every store row carrying it take the new text. Returns whether
    /// anything changed.
    pub fn apply_text_edit(&mut self, id: &String, text: String) -> (r: bool)
        requires
            old(self).wf(),
        ensures
            final(self).wf(),
            final(self).board_state.ids@ == old(self).board_state.ids@,
            final(self).board_state.positions@ == old(self).board_state.positions@,
            final(self).board_state.sizes@ == old(self).board_state.sizes@,
            final(self).view_state == old(self).view_state,
            final(self).dragging_widget == old(self).dragging_widget,
            final(self).selected_widget == old(self).selected_widget,
            final(self).hovered_widget == old(self).hovered_widget,
            final(self).initialized == old(self).initialized,
            final(self).last_viewport_change == old(self).last_viewport_change,
            final(self).last_click == old(self).last_click,
            !r ==> final(self).board_state.blocks@ == old(self).board_state.blocks@
                && final(self).persist@ == old(self).persist@,
            r ==> exists|j: int|
                {
                    &&& 0 <= j < old(self).board_state.ids@.len()
                    &&& (#[trigger] old(self).board_state.ids@[j])@ == id@
                    &&& forall|l: int| 0 <= l < j ==> old(self).board_state.ids@[l]@ != id@
                    &&& old(self).board_state.blocks@[j].block_data@ != text@
                    &&& final(self).board_state.blocks@ == old(self).board_state.blocks@.update(
                        j,
                        Block { block_data: text, ..old(self).board_state.blocks@[j] },
                    )
                },
            r ==> final(self).persist@.len() == old(self).persist@.len() && forall|i: int|
                0 <= i < old(self).persist@.len() ==> final(self).persist@[i] == (
                if (#[trigger] old(self).persist@[i]).id@ == id@ {
                    SavedBlock { block_data: text, ..old(self).persist@[i] }
                } else {
                    old(self).persist@[i]
                }),
            r <==> exists|j: int|
                {
                    &&& 0 <= j < old(self).board_state.ids@.len()
                    &&& (#[trigger] old(self).board_state.ids@[j])@ == id@
                    &&& forall|l: int| 0 <= l < j ==> old(self).board_state.ids@[l]@ != id@
                    &&& old(self).board_state.blocks@[j].block_data@ != text@
                },
    {
        let found = self.board_state.find_index(id);
        match found {
            Some(j) => {
                if self.board_state.blocks[j].block_data == text {
                    return false;
                }
                self.board_state.blocks[j].block_data = text.clone();
                let _ = self.persist.on_data_change(id, text);
                proof {
                    assert(self.board_state.blocks@ =~= old(self).board_state.blocks@.update(
                        j as int,
                        Block { block_data: text, ..old(self).board_state.blocks@[j as int] },
                    ));
                }
                true
            },
            None => false,
        }
    }
}

/// The width a label is displayed at: an unresized block (stored width
/// zero) is capped at the maximum label width on measurement; a resized
/// block keeps its stored width.
pub fn clamped_width(stored_width: i64, measured_width: i64) -> (r: i64)
    requires
        0 <= stored_width <= COORD_LIMIT,
        0 <= measured_width <= COORD_LIMIT,
    ensures
        r == (if stored_width == 0 {
            if measured_width > MAX_LABEL_WIDTH {
                MAX_LABEL_WIDTH
            } else {
                measured_width
            }
        } else {
            stored_width
        }),
        0 <= r <= COORD_LIMIT,
{
    if stored_width == 0 {
        if measured_width > MAX_LABEL_WIDTH {
            MAX_LABEL_WIDTH
        } else {
            measured_width
        }
    } else {
        stored_width
    }
}

/// What the sync worker answers a view snapshot with: the store queried
/// for the viewport expanded by the buffer margin, rebuilt as a
/// replacement board snapshot (measured sizes reset).
pub fn sync_board_state(persist: &Persistor, view: &ViewState) -> (b: BoardState)
    requires
        persist.is_ready(),
        persist.wf(),
        view.wf(),
    ensures
        ({
            let q = dedup_rows(
                matching_rows(
                    persist@,
                    view.offset.x - BUFFER,
                    view.viewport.x + BUFFER,
                    view.offset.y - BUFFER,
                    view.viewport.y + BUFFER,
                ),
            );
            &&& b.ids@.len() == q.len()
            &&& forall|i: int| 0 <= i < q.len() ==> (#[trigger] b.ids@[i]) == q[i].id
            &&& forall|i: int|
                0 <= i < q.len() ==> (#[trigger] b.positions@[i]) == (BlockPosition {
                    id: q[i].id,
                    x: q[i].x,
                    y: q[i].y,
                    size: WorldVec { x: 0, y: 0 },
                })
            &&& forall|i: int|
                0 <= i < q.len() ==> (#[trigger] b.blocks@[i]) == (Block {
                    id: q[i].id,
                    block_type: q[i].block_type,
                    block_data: q[i].block_data,
                })
            &&& b.sizes@.len() == 0
            &&& b.wf()
        }),
{
    let bounds = view.expanded_bounds();
    let rows = persist.load(bounds.0, bounds.1, bounds.2, bounds.3);
    board_from_rows(&rows)
}


/// One frame's pointer snapshot, in screen space.
pub struct PointerInput {
    pub interact: Option<WorldVec>,
    pub primary_down: bool,
    pub any_down: bool,
    pub any_click: bool,
    pub is_moving: bool,
    pub delta: WorldVec,
}

impl PointerInput {
    /// The snapshot's coordinates lie within the world range.
    pub open spec fn wf(self) -> bool {
        &&& (self.interact matches Some(p) ==> p.wf())
        &&& self.delta.wf()
    }
}

/// A position write to mirror to the durable store: the identifier and
/// the new position of its rows.
pub struct MovedRecord {
    pub id: String,
    pub x: i64,
    pub y: i64,
}

/// What a pointer frame asks the shell to carry out.
pub struct PointerActions {
    pub send_view: Option<ViewState>,
    pub added: Option<SavedBlock>,
    pub moved: Option<MovedRecord>,
}

/// The debounce decision over a view and the time of the last send.
pub open spec fn send_decision(vs: ViewState, last_change: u64, now_ms: u64) -> bool {
    &&& now_ms - last_change >= DEBOUNCE_MS
    &&& moved_beyond_buffer(vs)
}

impl App {
    /// The dragging widget after the frame's release check: cleared when
    /// no pointer button is down.
    pub open spec fn spec_drag_after_release(self, input: PointerInput) -> Seq<char> {
        if input.any_down {
            self.dragging_widget@
        } else {
            Seq::empty()
        }
    }

    /// The hovered, selected and dragging widgets after the frame's hit
    /// test, in that order. While a drag is active they are untouched;
    /// otherwise the first block covering the interact point becomes
    /// hovered, a pressed primary button over it starts dragging and
    /// selects it, and a press over empty canvas clears the selection.
    pub open spec fn spec_hit_phase(self, input: PointerInput) -> (Seq<char>, Seq<char>, Seq<char>) {
        let drag0 = self.spec_drag_after_release(input);
        if drag0.len() > 0 {
            (self.hovered_widget@, self.selected_widget@, drag0)
        } else {
            let p = App::spec_interact_point(self.view_state.offset, input.interact);
            match self.board_state.spec_first_hit(p.x as int, p.y as int) {
                Some(i) => {
                    let id = self.board_state.ids@[i]@;
                    if input.primary_down {
                        (id, id, id)
                    } else {
                        (id, self.selected_widget@, Seq::<char>::empty())
                    }
                },
                None => (
                    Seq::<char>::empty(),
                    if input.any_down {
                        Seq::<char>::empty()
                    } else {
                        self.selected_widget@
                    },
                    Seq::<char>::empty(),
                ),
            }
        }
    }

    /// The full effect of one pointer frame on the interaction state, as
    /// a relation between the state before, the state after and the
    /// actions handed back (the identifier of a created block is fresh
    /// and random, so the relation does not determine it).
    pub open spec fn pointer_transition(
        pre: App,
        input: PointerInput,
        now_ms: u64,
        post: App,
        act: PointerActions,
    ) -> bool {
        let phase = pre.spec_hit_phase(input);
        let hovered1 = phase.0;
        let selected1 = phase.1;
        let dragging1 = phase.2;
        let moving = input.any_down && input.is_moving;
        let drag_move = moving && dragging1.len() > 0;
        let pan_move = moving && dragging1.len() == 0;
        let moved_idx = if drag_move {
            pre.board_state.spec_find_index(dragging1)
        } else {
            None
        };
        let positions1 = match moved_idx {
            Some(j) => pre.board_state.positions@.update(
                j,
                BlockPosition {
                    x: clamped(pre.board_state.positions@[j].x + input.delta.x) as i64,
                    y: clamped(pre.board_state.positions@[j].y + input.delta.y) as i64,
                    ..pre.board_state.positions@[j]
                },
            ),
            None => pre.board_state.positions@,
        };
        let persist1 = match moved_idx {
            Some(j) => rows_moved(
                pre.persist@,
                dragging1,
                clamped(pre.board_state.positions@[j].x + input.delta.x) as i64,
                clamped(pre.board_state.positions@[j].y + input.delta.y) as i64,
            ),
            None => pre.persist@,
        };
        let offset1 = if pan_move {
            WorldVec {
                x: clamped(pre.view_state.offset.x - input.delta.x) as i64,
                y: clamped(pre.view_state.offset.y - input.delta.y) as i64,
            }
        } else {
            pre.view_state.offset
        };
        let vs1 = ViewState { offset: offset1, ..pre.view_state };
        let send = pan_move && send_decision(vs1, pre.last_viewport_change, now_ms);
        let vs2 = if send {
            ViewState { last_offset: vs1.viewport, ..vs1 }
        } else {
            vs1
        };
        let last_change2 = if send {
            now_ms
        } else {
            pre.last_viewport_change
        };
        let is_double = input.any_click && now_ms - pre.last_click < DOUBLE_CLICK_MS;
        let creating = is_double && hovered1.len() == 0;
        let p2 = App::spec_interact_point(offset1, input.interact);
        {
            &&& post.hovered_widget@ == hovered1
            &&& post.selected_widget@ == selected1
            &&& post.dragging_widget@ == dragging1
            &&& (match moved_idx {
                Some(j) => act.moved matches Some(m) && m.id@ == dragging1 && m.x as int == clamped(
                    pre.board_state.positions@[j].x + input.delta.x,
                ) && m.y as int == clamped(pre.board_state.positions@[j].y + input.delta.y),
                None => act.moved is None,
            })
            &&& act.send_view == (if send {
                Some(vs2)
            } else {
                None::<ViewState>
            })
            &&& post.view_state == vs2
            &&& post.last_viewport_change == last_change2
            &&& post.last_click == (if input.any_click {
                now_ms
            } else {
                pre.last_click
            })
            &&& (creating <==> act.added is Some)
            &&& (match act.added {
                Some(rec) => {
                    &&& rec.block_type is Label
                    &&& rec.block_data@ == spec_placeholder_text()
                    &&& rec.x == p2.x
                    &&& rec.y == p2.y
                    &&& rec.width == 0
                    &&& rec.height == 0
                    &&& rec.id@.len() == 36
                    &&& (!ids_have(pre.board_state.ids@, rec.id@) ==> {
                        &&& post.board_state.ids@ == pre.board_state.ids@.push(rec.id)
                        &&& post.board_state.positions@ == positions1.push(
                            BlockPosition { id: rec.id, x: rec.x, y: rec.y, size: WorldVec { x: 0, y: 0 } },
                        )
                        &&& post.board_state.blocks@ == pre.board_state.blocks@.push(
                            Block { id: rec.id, block_type: BlockType::Label, block_data: rec.block_data },
                        )
                    })
                    &&& (ids_have(pre.board_state.ids@, rec.id@) ==> {
                        &&& post.board_state.ids@ == pre.board_state.ids@
                        &&& post.board_state.positions@ == positions1
                        &&& post.board_state.blocks@ == pre.board_state.blocks@
                    })
                    &&& post.persist@ == persist1.push(rec)
                },
                None => {
                    &&& post.board_state.ids@ == pre.board_state.ids@
                    &&& post.board_state.positions@ == positions1
                    &&& post.board_state.blocks@ == pre.board_state.blocks@
                    &&& post.persist@ == persist1
                },
            })
            &&& post.board_state.sizes@ == pre.board_state.sizes@
            &&& post.initialized == pre.initialized
        }
    }

    /// Runs one frame's pointer handling: drag release, hover and
    /// selection by first-hit test, drag movement or panning, and
    /// double-click creation over empty canvas. The returned actions are
    /// for the shell: a snapshot to send to the sync worker, and writes
    /// to mirror to the durable store.
    pub fn pointer_frame(&mut self, input: &PointerInput, now_ms: u64) -> (act: PointerActions)
        requires
            old(self).wf(),
            input.wf(),
            old(self).last_viewport_change <= now_ms,
            old(self).last_click <= now_ms,
        ensures
            final(self).wf(),
            final(self).last_viewport_change <= now_ms,
            final(self).last_click <= now_ms,
            App::pointer_transition(*old(self), *input, now_ms, *final(self), act),
    {
        if !input.any_down {
            self.dragging_widget = String::new();
        }
        if self.dragging_widget.as_str().is_empty() {
            let p = self.get_interact_point(input.interact);
            match self.board_state.hit_test(p.x, p.y) {
                Some(i) => {
                    let id = self.board_state.ids[i].clone();
                    if input.primary_down {
                        self.dragging_widget = id.clone();
                        self.selected_widget = id.clone();
                    }
                    self.hovered_widget = id;
                },
                None => {
                    self.hovered_widget = String::new();
                    if input.any_down {
                        self.selected_widget = String::new();
                    }
                },
            }
        }
        proof {
            if self.dragging_widget@.len() == 0 {
                assert(self.dragging_widget@ =~= Seq::<char>::empty());
            }
        }
        let mut moved: Option<MovedRecord> = None;
        let mut send_view: Option<ViewState> = None;
        if input.any_down && input.is_moving {
            if !self.dragging_widget.as_str().is_empty() {
                let id = self.dragging_widget.clone();
                match self.board_state.move_block(&id, input.delta.x, input.delta.y) {
                    Some(p) => {
                        let _ = self.persist.on_move(&id, p.0, p.1);
                        moved = Some(MovedRecord { id, x: p.0, y: p.1 });
                    },
                    None => {},
                }
            } else {
                self.view_state.pan(input.delta);
                send_view = self.on_viewport_change(now_ms);
            }
        }
        let mut added: Option<SavedBlock> = None;
        let mut is_double = false;
        if input.any_click {
            if now_ms - self.last_click < DOUBLE_CLICK_MS {
                is_double = true;
            }
            self.last_click = now_ms;
        }
        if is_double && self.hovered_widget.as_str().is_empty() {
            let p = self.get_interact_point(input.interact);
            let rec = self.add_label(p.x, p.y);
            added = Some(rec);
        }
        PointerActions { send_view, added, moved }
    }
}


/// Law (debounce): `on_viewport_change` stamps the time of each send, so
/// a further viewport update less than the debounce interval after a send
/// decides not to send, whatever the displacement; and an update at or
/// after the interval whose viewport has moved beyond the buffer margin
/// in some axis decides to send, exactly once per such update.
pub proof fn lemma_debounce(a: App, now_ms: u64)
    ensures
        now_ms < a.last_viewport_change + DEBOUNCE_MS ==> !a.viewport_send_decision(now_ms),
        (now_ms >= a.last_viewport_change + DEBOUNCE_MS && moved_beyond_buffer(a.view_state))
            ==> a.viewport_send_decision(now_ms),
{
}

} // verus!
