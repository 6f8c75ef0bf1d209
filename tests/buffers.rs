use egui_inspect::char_buffer::CharString;
use egui_inspect::layout::{any_hidden, visible_indices};
use egui_inspect::options::InspectorOptions;
use egui_inspect::text::{chars_of, extend_from_range, same_text, string_of};

#[test]
fn char_buffer_edits() {
    let mut b = CharString::new('a');
    assert_eq!(b.char(), 'a');
    assert_eq!(b.as_str(), "a");
    assert!(b.is_mutable());
    assert_eq!(b.insert_text("xyz", 1), 0);
    assert_eq!(b.char(), 'x');
    assert_eq!(b.insert_text("", 0), 0);
    assert_eq!(b.char(), 'x');
    b.delete_char_range(0, 1);
    assert_eq!(b.as_str(), "x");
    assert_eq!(b.insert_text("é!", 0), 0);
    assert_eq!(b.char(), 'é');
}

#[test]
fn visibility() {
    assert_eq!(visible_indices(&vec![false, true, false]), vec![0, 2]);
    assert_eq!(visible_indices(&vec![]), Vec::<usize>::new());
    assert_eq!(visible_indices(&vec![true, true]), Vec::<usize>::new());
    assert!(any_hidden(&vec![false, true]));
    assert!(!any_hidden(&vec![false, false]));
    assert!(!any_hidden(&vec![]));
}

#[test]
fn inspector_options() {
    let o = InspectorOptions::new();
    assert_eq!(o.title, None);
    assert!(!o.read_only);
    let o = o.with_title("Config");
    assert_eq!(o.title.as_deref(), Some("Config"));
    let o = o.read_only();
    assert!(o.read_only);
    assert_eq!(o.title.as_deref(), Some("Config"));
    assert!(InspectorOptions::new_read_only().read_only);
}

#[test]
fn text_helpers() {
    assert_eq!(chars_of("héllo"), vec!['h', 'é', 'l', 'l', 'o']);
    assert_eq!(string_of(&vec!['a', 'ß']), "aß");
    assert!(same_text("abc", "abc"));
    assert!(!same_text("abc", "abd"));
    assert!(!same_text("abc", "ab"));
    let mut v = vec!['x'];
    extend_from_range(&mut v, &vec!['a', 'b', 'c', 'd'], 1, 3);
    assert_eq!(v, vec!['x', 'b', 'c']);
}
