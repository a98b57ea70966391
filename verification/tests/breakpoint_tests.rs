use esolang_ide::{BreakpointPanel, EditorView};

#[test]
fn breakpoints_are_sorted_and_unique() {
    let mut p = BreakpointPanel::new();
    assert!(p.breakpoints().is_empty());
    for s in ["5", " 2 ", "+9", "5"] {
        p.set_add_input(s.to_string());
        assert!(p.add_from_input().is_some());
        assert_eq!(p.add_input(), "");
    }
    assert_eq!(p.breakpoints(), vec![2, 5, 9]);
}

#[test]
fn bad_input_changes_nothing() {
    let mut p = BreakpointPanel::default();
    p.set_add_input("abc".to_string());
    assert_eq!(p.add_from_input(), None);
    assert_eq!(p.add_input(), "abc");
    p.set_add_input("-3".to_string());
    assert_eq!(p.add_from_input(), None);
    assert!(p.breakpoints().is_empty());
}

#[test]
fn remove_breakpoint_works() {
    let mut p = BreakpointPanel::new();
    p.set_add_input("3".to_string());
    assert_eq!(p.add_from_input(), Some(3));
    p.set_add_input("1".to_string());
    p.add_from_input();
    assert!(p.remove_breakpoint(3));
    assert!(!p.remove_breakpoint(3));
    assert_eq!(p.breakpoints(), vec![1]);
}

#[test]
fn editor_text() {
    let mut e = EditorView::default();
    assert_eq!(e.get_text(), "");
    e.set_text("INPUT INPUT SUB OUTPUT");
    assert_eq!(e.get_text(), "INPUT INPUT SUB OUTPUT");
}
