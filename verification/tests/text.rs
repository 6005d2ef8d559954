use mdboard_tui::model::ScopesOrString;
use mdboard_tui::state::{ResourceType, View};
use mdboard_tui::text::{count_checkboxes, dec_string, format_progress, parse_hex_rgb, truncate};

#[test]
fn checkboxes_are_counted_per_line() {
    let body = "intro\n- [x] done\n- [ ] open\n  - [X] nested done\nplain - [ ] not at start? no: trimmed only\n";
    let (checked, total) = count_checkboxes(body);
    assert_eq!(checked, 2);
    assert_eq!(total, 3);
}

#[test]
fn bodies_without_checkboxes_count_zero() {
    assert_eq!(count_checkboxes(""), (0, 0));
    assert_eq!(count_checkboxes("just text\nmore text"), (0, 0));
}

#[test]
fn progress_bar_has_exact_shape() {
    assert_eq!(format_progress(3, 7), "[###-----] 3/7");
    assert_eq!(format_progress(0, 2), "[--------] 0/2");
    assert_eq!(format_progress(2, 2), "[########] 2/2");
    assert_eq!(format_progress(0, 0), "");
}

#[test]
fn decimal_rendering_is_exact() {
    assert_eq!(dec_string(0), "0");
    assert_eq!(dec_string(7), "7");
    assert_eq!(dec_string(10), "10");
    assert_eq!(dec_string(90210), "90210");
}

#[test]
fn truncation_keeps_short_labels_and_cuts_long_ones() {
    assert_eq!(truncate("hello", 10), "hello");
    assert_eq!(truncate("hello world", 8), "hello...");
    assert_eq!(truncate("abcdef", 3), "abc");
    assert_eq!(truncate("abcdef", 0), "");
}

#[test]
fn hex_colors_parse_exactly() {
    assert_eq!(parse_hex_rgb("#3b82f6"), Some((0x3b, 0x82, 0xf6)));
    assert_eq!(parse_hex_rgb("3b82f6"), Some((0x3b, 0x82, 0xf6)));
    assert_eq!(parse_hex_rgb("#FFAA00"), Some((0xff, 0xaa, 0x00)));
    assert_eq!(parse_hex_rgb("#fff"), None);
    assert_eq!(parse_hex_rgb(""), None);
    // A pair that is no hex number saturates to white for that component.
    assert_eq!(parse_hex_rgb("zz82f6"), Some((255, 0x82, 0xf6)));
}

#[test]
fn scopes_flatten_to_a_list() {
    let list = ScopesOrString::List(vec!["a".to_string(), "b".to_string()]);
    assert_eq!(list.as_vec(), vec!["a", "b"]);
    let single = ScopesOrString::Single("s".to_string());
    assert_eq!(single.as_vec(), vec!["s"]);
    let empty_single = ScopesOrString::Single(String::new());
    assert!(empty_single.as_vec().is_empty());
    assert!(ScopesOrString::Empty.as_vec().is_empty());
}

#[test]
fn views_cycle_in_tab_order() {
    assert_eq!(View::Board.next(), View::Prompts);
    assert_eq!(View::Activity.next(), View::Board);
    assert_eq!(View::Board.prev(), View::Activity);
    assert_eq!(View::Documents.prev(), View::Prompts);
    assert_eq!(View::from_index(2), View::Documents);
    assert_eq!(View::from_index(9), View::Board);
    assert_eq!(View::Prompts.index(), 1);
}

#[test]
fn labels_are_stable() {
    assert_eq!(View::Board.label(), "Board");
    assert_eq!(View::Prompts.label(), "Prompts");
    assert_eq!(View::Documents.label(), "Documents");
    assert_eq!(View::Activity.label(), "Activity");
    assert_eq!(ResourceType::Prompt.label(), "Prompt");
    assert_eq!(ResourceType::Document.label(), "Document");
}
