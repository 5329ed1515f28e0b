use boardx::app::{clamped_width, sync_board_state, App, PointerActions, PointerInput};
use boardx::block::{Block, BlockPosition, BlockType};
use boardx::geom::WorldVec;
use boardx::persistor::{Persistor, SavedBlock};
use boardx::state::BoardState;
use boardx::view::ViewState;

fn no_pointer() -> PointerInput {
    PointerInput {
        interact: None,
        primary_down: false,
        any_down: false,
        any_click: false,
        is_moving: false,
        delta: WorldVec { x: 0, y: 0 },
    }
}

fn click_at(x: i64, y: i64) -> PointerInput {
    PointerInput {
        interact: Some(WorldVec { x, y }),
        primary_down: false,
        any_down: false,
        any_click: true,
        is_moving: false,
        delta: WorldVec { x: 0, y: 0 },
    }
}

#[test]
fn double_click_creates_one_label_at_click_point() {
    let mut app = App::new();
    // two primary clicks at world position (120, 80), 200 ms apart, with
    // no widget under the pointer
    let first: PointerActions = app.pointer_frame(&click_at(120, 80), 1000);
    assert!(first.added.is_none());
    let second = app.pointer_frame(&click_at(120, 80), 1200);
    let rec = second.added.expect("the second click within 350 ms creates a block");
    assert_eq!(rec.x, 120);
    assert_eq!(rec.y, 80);
    assert!(matches!(rec.block_type, BlockType::Label));
    assert!(rec.block_data.starts_with("Lorem Ipsum"));
    // exactly one block was inserted, in board state and in the store
    assert_eq!(app.board_state.ids.len(), 1);
    assert_eq!(app.persist.load(0, 1000, 0, 1000).len(), 1);
}

#[test]
fn slow_second_click_creates_nothing() {
    let mut app = App::new();
    let first = app.pointer_frame(&click_at(120, 80), 1000);
    assert!(first.added.is_none());
    let second = app.pointer_frame(&click_at(120, 80), 1400);
    assert!(second.added.is_none());
    assert_eq!(app.board_state.ids.len(), 0);
}

#[test]
fn double_click_over_a_widget_creates_nothing() {
    let mut app = App::new();
    app.board_state = overlapping_board();
    let mut input = click_at(50, 50);
    input.primary_down = false;
    app.pointer_frame(&input, 1000);
    let second = app.pointer_frame(&input, 1100);
    assert!(second.added.is_none());
    assert_eq!(app.board_state.ids.len(), 2);
}

fn sized_position(id: &str, x: i64, y: i64, w: i64, h: i64) -> BlockPosition {
    BlockPosition {
        id: id.to_owned(),
        x,
        y,
        size: WorldVec { x: w, y: h },
    }
}

fn block_of(id: &str, text: &str) -> Block {
    Block {
        id: id.to_owned(),
        block_type: BlockType::Label,
        block_data: text.to_owned(),
    }
}

fn overlapping_board() -> BoardState {
    // two overlapping blocks, both covering the point (50, 50):
    // "first" was inserted first, "second" afterwards
    BoardState {
        ids: vec![String::from("first"), String::from("second")],
        positions: vec![
            sized_position("first", 40, 40, 20, 20),
            sized_position("second", 45, 45, 20, 20),
        ],
        blocks: vec![block_of("first", "a"), block_of("second", "b")],
        sizes: Vec::new(),
    }
}

#[test]
fn hit_test_prefers_first_inserted_block() {
    let board = overlapping_board();
    let hit = board.hit_test(50, 50);
    assert_eq!(hit, Some(0));
    // outside both
    assert_eq!(board.hit_test(100, 100), None);
    // only the second covers (63, 63)
    assert_eq!(board.hit_test(63, 63), Some(1));
}

#[test]
fn click_on_overlap_selects_first_inserted_block() {
    let mut app = App::new();
    app.board_state = overlapping_board();
    let input = PointerInput {
        interact: Some(WorldVec { x: 50, y: 50 }),
        primary_down: true,
        any_down: true,
        any_click: false,
        is_moving: false,
        delta: WorldVec { x: 0, y: 0 },
    };
    app.pointer_frame(&input, 1000);
    assert_eq!(app.selected_widget, "first");
    assert_eq!(app.hovered_widget, "first");
    assert_eq!(app.dragging_widget, "first");
}

#[test]
fn debounce_suppresses_rapid_small_updates() {
    let mut app = App::new();
    let screen = WorldVec { x: 1920, y: 1080 };

    // first frame: the initial snapshot is sent unconditionally
    let init = app.begin_frame(screen);
    assert!(init.is_some());
    assert!(app.begin_frame(screen).is_none());

    // the viewport is far beyond the (all-zero) last offset, so the first
    // scroll past the debounce interval requests a reload
    let sent = app.apply_scroll(WorldVec { x: 10, y: 0 }, 150);
    assert!(sent.is_some());

    // less than 100 ms later, with a small displacement: no second query
    app.begin_frame(screen);
    let sent = app.apply_scroll(WorldVec { x: 10, y: 0 }, 200);
    assert!(sent.is_none());

    // after the interval but with displacement within the buffer margin:
    // still nothing
    app.begin_frame(screen);
    let sent = app.apply_scroll(WorldVec { x: 10, y: 0 }, 400);
    assert!(sent.is_none());

    // a displacement beyond the buffer margin produces exactly one query
    app.apply_scroll(WorldVec { x: 400, y: 0 }, 500);
    app.begin_frame(screen);
    let sent = app.apply_scroll(WorldVec { x: 1, y: 0 }, 650);
    assert!(sent.is_some());
}

#[test]
fn interact_point_adds_view_offset() {
    let mut app = App::new();
    app.view_state.offset = WorldVec { x: 100, y: 50 };
    let p = app.get_interact_point(Some(WorldVec { x: 20, y: 30 }));
    assert_eq!(p.x, 120);
    assert_eq!(p.y, 80);
    let origin = app.get_interact_point(None);
    assert_eq!(origin.x, 0);
    assert_eq!(origin.y, 0);
}

#[test]
fn add_label_ids_are_uuid_text() {
    let mut app = App::new();
    let a = app.add_label(1, 2);
    let b = app.add_label(3, 4);
    assert_eq!(a.id.len(), 36);
    assert_eq!(b.id.len(), 36);
    assert!(uuid::Uuid::parse_str(&a.id).is_ok());
    assert_ne!(a.id, b.id);
    assert_eq!(app.board_state.ids.len(), 2);
}

#[test]
fn drag_moves_block_and_persists() {
    let mut app = App::new();
    let rec = app.add_label(10, 10);
    let id = rec.id.clone();
    // give the block a size so the press lands on it
    app.board_state.positions[0].size = WorldVec { x: 30, y: 30 };

    // press on the block
    let press = PointerInput {
        interact: Some(WorldVec { x: 15, y: 15 }),
        primary_down: true,
        any_down: true,
        any_click: false,
        is_moving: false,
        delta: WorldVec { x: 0, y: 0 },
    };
    app.pointer_frame(&press, 1000);
    assert_eq!(app.dragging_widget, id);

    // drag by (5, 7)
    let drag = PointerInput {
        interact: Some(WorldVec { x: 15, y: 15 }),
        primary_down: true,
        any_down: true,
        any_click: false,
        is_moving: true,
        delta: WorldVec { x: 5, y: 7 },
    };
    let act = app.pointer_frame(&drag, 1016);
    let m = act.moved.expect("the drag writes the move through");
    assert_eq!(m.id, id);
    assert_eq!(m.x, 15);
    assert_eq!(m.y, 17);
    assert_eq!(app.board_state.positions[0].x, 15);
    assert_eq!(app.board_state.positions[0].y, 17);
    let rows = app.persist.load(0, 100, 0, 100);
    assert_eq!(rows[0].x, 15);
    assert_eq!(rows[0].y, 17);
}

#[test]
fn pan_moves_view_against_pointer_delta() {
    let mut app = App::new();
    let drag = PointerInput {
        interact: Some(WorldVec { x: 15, y: 15 }),
        primary_down: true,
        any_down: true,
        any_click: false,
        is_moving: true,
        delta: WorldVec { x: 5, y: 7 },
    };
    app.pointer_frame(&drag, 1000);
    assert_eq!(app.view_state.offset.x, -5);
    assert_eq!(app.view_state.offset.y, -7);
}

#[test]
fn release_clears_dragging() {
    let mut app = App::new();
    app.board_state = overlapping_board();
    let press = PointerInput {
        interact: Some(WorldVec { x: 50, y: 50 }),
        primary_down: true,
        any_down: true,
        any_click: false,
        is_moving: false,
        delta: WorldVec { x: 0, y: 0 },
    };
    app.pointer_frame(&press, 1000);
    assert_eq!(app.dragging_widget, "first");
    app.pointer_frame(&no_pointer(), 1050);
    assert_eq!(app.dragging_widget, "");
    // selection survives the release
    assert_eq!(app.selected_widget, "first");
}

#[test]
fn text_edit_updates_block_and_store() {
    let mut app = App::new();
    let rec = app.add_label(10, 10);
    let id = rec.id.clone();

    let changed = app.apply_text_edit(&id, String::from("hello"));
    assert!(changed);
    assert_eq!(app.board_state.blocks[0].block_data, "hello");
    let rows = app.persist.load(0, 100, 0, 100);
    assert_eq!(rows[0].block_data, "hello");

    // the same text again is no change
    assert!(!app.apply_text_edit(&id, String::from("hello")));
    // an unknown identifier changes nothing
    assert!(!app.apply_text_edit(&String::from("missing"), String::from("x")));
}

#[test]
fn measured_width_is_capped_until_resized() {
    assert_eq!(clamped_width(0, 500), 300);
    assert_eq!(clamped_width(0, 120), 120);
    assert_eq!(clamped_width(250, 500), 250);
}

#[test]
fn size_cache_records_and_replaces() {
    let mut board = BoardState::default();
    let id = String::from("a");
    assert!(!board.has_size(&id));
    board.record_size(&id, WorldVec { x: 100, y: 40 });
    assert!(board.has_size(&id));
    assert_eq!(board.size_of(&id), Some(WorldVec { x: 100, y: 40 }));
    board.record_size(&id, WorldVec { x: 80, y: 50 });
    assert_eq!(board.size_of(&id), Some(WorldVec { x: 80, y: 50 }));
    assert_eq!(board.sizes.len(), 1);
}

#[test]
fn viewport_membership_uses_buffer_margin() {
    let view = ViewState {
        offset: WorldVec { x: 0, y: 0 },
        viewport: WorldVec { x: 1000, y: 800 },
        last_offset: WorldVec { x: 0, y: 0 },
    };
    assert!(view.in_viewport(500, 400));
    assert!(view.in_viewport(-300, 0));
    assert!(!view.in_viewport(-301, 0));
    assert!(view.in_viewport(1300, 800));
    assert!(!view.in_viewport(1301, 800));
    assert!(!view.in_viewport(0, 1101));
}

#[test]
fn worker_answer_holds_only_blocks_near_view() {
    let mut p = Persistor::default();
    p.setup();
    p.on_add(SavedBlock {
        id: String::from("near"),
        block_type: BlockType::Label,
        block_data: String::from("n"),
        x: 100,
        y: 100,
        width: 0,
        height: 0,
    });
    p.on_add(SavedBlock {
        id: String::from("far"),
        block_type: BlockType::Label,
        block_data: String::from("f"),
        x: 5000,
        y: 5000,
        width: 0,
        height: 0,
    });
    let view = ViewState {
        offset: WorldVec { x: 0, y: 0 },
        viewport: WorldVec { x: 1000, y: 800 },
        last_offset: WorldVec { x: 0, y: 0 },
    };
    let board = sync_board_state(&p, &view);
    assert_eq!(board.ids.len(), 1);
    assert_eq!(board.ids[0], "near");
    assert_eq!(board.positions[0].x, 100);
    assert_eq!(board.positions[0].size, WorldVec { x: 0, y: 0 });
    assert!(board.sizes.is_empty());
}

#[test]
fn moves_are_clamped_to_the_world_edge() {
    let mut app = App::new();
    app.view_state.offset = WorldVec { x: boardx::geom::COORD_LIMIT - 2, y: 0 };
    // panning further right would leave the world range: the offset stays
    // clamped at the edge
    let drag = PointerInput {
        interact: None,
        primary_down: true,
        any_down: true,
        any_click: false,
        is_moving: true,
        delta: WorldVec { x: -5, y: 0 },
    };
    app.pointer_frame(&drag, 1000);
    assert_eq!(app.view_state.offset.x, boardx::geom::COORD_LIMIT);
    assert_eq!(app.view_state.offset.y, 0);
}

#[test]
fn begin_frame_recomputes_viewport_from_screen() {
    let mut app = App::new();
    app.view_state.offset = WorldVec { x: 100, y: 200 };
    app.begin_frame(WorldVec { x: 800, y: 600 });
    assert_eq!(app.view_state.viewport, WorldVec { x: 900, y: 800 });
    let bounds = app.view_state.expanded_bounds();
    assert_eq!(bounds, (-200, 1200, -100, 1100));
}

#[test]
fn worker_answer_keeps_first_of_duplicate_identifiers() {
    let mut p = Persistor::default();
    p.setup();
    p.on_add(SavedBlock {
        id: String::from("a"),
        block_type: BlockType::Label,
        block_data: String::from("kept"),
        x: 10,
        y: 10,
        width: 0,
        height: 0,
    });
    p.on_add(SavedBlock {
        id: String::from("a"),
        block_type: BlockType::Label,
        block_data: String::from("dropped"),
        x: 20,
        y: 20,
        width: 0,
        height: 0,
    });
    let view = ViewState {
        offset: WorldVec { x: 0, y: 0 },
        viewport: WorldVec { x: 1000, y: 800 },
        last_offset: WorldVec { x: 0, y: 0 },
    };
    let board = sync_board_state(&p, &view);
    // the board holds exactly one entry per identifier: the first row wins
    assert_eq!(board.ids.len(), 1);
    assert_eq!(board.ids[0], "a");
    assert_eq!(board.positions[0].x, 10);
    assert_eq!(board.blocks[0].block_data, "kept");
}
