use boardx::block::BlockType;
use boardx::persistor::{Persistor, SavedBlock, StoreError};

fn label_row(id: &str, x: i64, y: i64, width: i64, height: i64) -> SavedBlock {
    SavedBlock {
        id: id.to_owned(),
        block_type: BlockType::Label,
        block_data: String::from("text"),
        x,
        y,
        width,
        height,
    }
}

fn ready_store() -> Persistor {
    let mut p = Persistor::default();
    p.setup();
    p
}

#[test]
fn setup_twice_keeps_rows() {
    let mut p = Persistor::default();
    p.setup();
    p.on_add(label_row("a", 10, 20, 0, 0));
    p.setup();
    let rows = p.load(0, 100, 0, 100);
    assert_eq!(rows.len(), 1);
    assert_eq!(rows[0].id, "a");
    assert_eq!(rows[0].x, 10);
    assert_eq!(rows[0].y, 20);
}

#[test]
fn covering_query_returns_all_inserted_once() {
    let mut p = ready_store();
    p.on_add(label_row("a", 10, 10, 0, 0));
    p.on_add(label_row("b", 50, 70, 0, 0));
    p.on_add(label_row("c", -30, 40, 0, 0));
    let rows = p.load(-100, 100, -100, 100);
    assert_eq!(rows.len(), 3);
    assert_eq!(rows[0].id, "a");
    assert_eq!(rows[1].id, "b");
    assert_eq!(rows[2].id, "c");
}

#[test]
fn query_excludes_separated_sized_block() {
    let mut p = ready_store();
    p.on_add(label_row("a", 10, 10, 5, 5));
    // query rectangle entirely to the right of the block's box
    let rows = p.load(20, 100, 0, 100);
    assert_eq!(rows.len(), 0);
    // entirely below
    let rows = p.load(0, 100, 20, 100);
    assert_eq!(rows.len(), 0);
    // overlapping the box is returned
    let rows = p.load(12, 100, 12, 100);
    assert_eq!(rows.len(), 1);
}

#[test]
fn zero_size_block_returned_when_point_in_range() {
    let mut p = ready_store();
    p.on_add(label_row("a", 10, 10, 0, 0));
    let rows = p.load(5, 15, 5, 15);
    assert_eq!(rows.len(), 1);
    // the bounds are strict: a point on the edge is not matched
    let rows = p.load(10, 15, 5, 15);
    assert_eq!(rows.len(), 0);
    let rows = p.load(5, 10, 5, 15);
    assert_eq!(rows.len(), 0);
}

#[test]
fn move_then_requery_round_trip() {
    let mut p = ready_store();
    p.on_add(label_row("a", 10, 10, 0, 0));
    let rows = p.load(0, 100, 0, 100);
    assert_eq!(rows.len(), 1);

    let moved = p.on_move(&String::from("a"), 500, 600);
    assert_eq!(moved, Ok(()));

    // the first bounds no longer return it
    let rows = p.load(0, 100, 0, 100);
    assert_eq!(rows.len(), 0);

    // the new bounds return it with the updated coordinates
    let rows = p.load(400, 700, 500, 700);
    assert_eq!(rows.len(), 1);
    assert_eq!(rows[0].x, 500);
    assert_eq!(rows[0].y, 600);
}

#[test]
fn move_of_unknown_id_reports_not_found() {
    let mut p = ready_store();
    p.on_add(label_row("a", 10, 10, 0, 0));
    let r = p.on_move(&String::from("missing"), 1, 2);
    assert_eq!(r, Err(StoreError::NotFound));
    // and nothing changed
    let rows = p.load(0, 100, 0, 100);
    assert_eq!(rows.len(), 1);
    assert_eq!(rows[0].x, 10);
}

#[test]
fn data_change_updates_text_and_reports_not_found() {
    let mut p = ready_store();
    p.on_add(label_row("a", 10, 10, 0, 0));
    let r = p.on_data_change(&String::from("a"), String::from("hello"));
    assert_eq!(r, Ok(()));
    let rows = p.load(0, 100, 0, 100);
    assert_eq!(rows[0].block_data, "hello");

    let r = p.on_data_change(&String::from("b"), String::from("ignored"));
    assert_eq!(r, Err(StoreError::NotFound));
}

#[test]
fn size_change_updates_columns() {
    let mut p = ready_store();
    p.on_add(label_row("a", 10, 10, 0, 0));
    let r = p.on_size_change(&String::from("a"), 120, 40);
    assert_eq!(r, Ok(()));
    let rows = p.load(0, 100, 0, 100);
    assert_eq!(rows[0].width, 120);
    assert_eq!(rows[0].height, 40);
    let r = p.on_size_change(&String::from("nope"), 1, 1);
    assert_eq!(r, Err(StoreError::NotFound));
}

#[test]
fn wellformedness_check_bounds_coordinates() {
    let good = label_row("a", 10, 10, 5, 5);
    assert!(good.is_wf());
    let bad = label_row("b", 10, 10, -1, 5);
    assert!(!bad.is_wf());
}

#[test]
fn column_text_names_the_variant() {
    assert_eq!(BlockType::Label.column_text(), "Label");
    assert_eq!(BlockType::Button.column_text(), "Button");
}

#[test]
fn stored_tag_round_trips() {
    // the stored text reads back as the tag that wrote it
    let label_text = BlockType::Label.column_text();
    assert!(matches!(BlockType::from_column_text(&label_text), BlockType::Label));
    let button_text = BlockType::Button.column_text();
    assert!(matches!(BlockType::from_column_text(&button_text), BlockType::Button));
    // unknown text reads as Label, the only tag the application creates
    assert!(matches!(BlockType::from_column_text("Banner"), BlockType::Label));
    assert!(matches!(BlockType::from_column_text(""), BlockType::Label));
}

#[test]
fn empty_store_query_returns_nothing() {
    let p = ready_store();
    assert!(p.load(-1000, 1000, -1000, 1000).is_empty());
}

#[test]
fn duplicate_identifiers_are_all_updated() {
    let mut p = ready_store();
    p.on_add(label_row("a", 10, 10, 0, 0));
    p.on_add(label_row("a", 20, 20, 0, 0));
    let r = p.on_move(&String::from("a"), 30, 40);
    assert_eq!(r, Ok(()));
    let rows = p.load(0, 100, 0, 100);
    assert_eq!(rows.len(), 2);
    assert!(rows.iter().all(|b| b.x == 30 && b.y == 40));
}
