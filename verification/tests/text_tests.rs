use boardx::text_edit::{toggle_case, TextEdit};

#[test]
fn toggle_case_uppercases_mixed_text() {
    assert_eq!(toggle_case(&String::from("abc")), "ABC");
    assert_eq!(toggle_case(&String::from("AbC del")), "ABC DEL");
}

#[test]
fn toggle_case_lowercases_all_upper_text() {
    assert_eq!(toggle_case(&String::from("ABC")), "abc");
    assert_eq!(toggle_case(&String::from("A1!")), "a1!");
}

#[test]
fn toggle_case_of_empty_text_is_empty() {
    assert_eq!(toggle_case(&String::new()), "");
}

#[test]
fn default_buffer_holds_starting_text() {
    let edit = TextEdit::default();
    assert_eq!(edit.text, "Edit this text");
}

#[test]
fn replace_range_swaps_the_selection() {
    let mut edit = TextEdit::default();
    edit.replace_range(0, 4, &String::from("Read"));
    assert_eq!(edit.text, "Read this text");
    edit.replace_range(5, 9, &String::from("that"));
    assert_eq!(edit.text, "Read that text");
    edit.replace_range(9, 14, &String::new());
    assert_eq!(edit.text, "Read that");
}
