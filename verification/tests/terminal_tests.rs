use esolang_ide::{TerminalPanel, TerminalView};

#[test]
fn panel_output_lines() {
    let mut t = TerminalPanel::default();
    assert_eq!(t.output(), "");
    t.push_output("Please input:");
    assert_eq!(t.output(), "Please input:");
    t.push_output("> 15 10");
    assert_eq!(t.output(), "Please input:\n> 15 10");
    t.push_output("");
    assert_eq!(t.output(), "Please input:\n> 15 10\n");
}

#[test]
fn panel_input_round_trip() {
    let mut t = TerminalPanel::default();
    assert!(!t.allow_input());
    t.set_input_line("ignored".to_string());
    assert_eq!(t.input_line(), "");
    t.request_input();
    assert!(t.allow_input());
    t.set_input_line("  15 10  ".to_string());
    assert_eq!(t.input_line(), "  15 10  ");
    t.commit_input();
    assert!(!t.allow_input());
    assert_eq!(t.input_line(), "");
    assert_eq!(t.take_input(), Some("15 10".to_string()));
    assert_eq!(t.take_input(), None);
}

#[test]
fn panel_request_drops_pending_input() {
    let mut t = TerminalPanel::default();
    t.request_input();
    t.set_input_line("a".to_string());
    t.commit_input();
    t.request_input();
    assert_eq!(t.take_input(), None);
}

#[test]
fn view_behaves_like_panel() {
    let mut t = TerminalView::default();
    t.push_output("a");
    t.push_output("b");
    assert_eq!(t.output(), "a\nb");
    t.request_input();
    t.set_input_line(" x ".to_string());
    t.commit_input();
    assert_eq!(t.pending_input, Some("x".to_string()));
    assert_eq!(t.take_input(), Some("x".to_string()));
    assert_eq!(t.take_input(), None);
}
