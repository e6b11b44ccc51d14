use stagetree::diff::{change_from_diff_line, changes_from_diff, trim_line_end, DiffLine};
use stagetree::index::ChangeKind;

fn line(origin: char, old: Option<u32>, new: Option<u32>, content: &str) -> DiffLine {
    DiffLine { origin, old_lineno: old, new_lineno: new, content: content.to_string() }
}

#[test]
fn added_line_uses_new_number() {
    let c = change_from_diff_line(&line('+', None, Some(10), "x\n")).unwrap();
    assert_eq!(c.line_number, 10);
    assert_eq!(c.content, "x");
    assert_eq!(c.kind, ChangeKind::Addition);
}

#[test]
fn removed_line_uses_old_number() {
    let c = change_from_diff_line(&line('-', Some(4), None, "gone\r\n")).unwrap();
    assert_eq!(c.line_number, 4);
    assert_eq!(c.content, "gone");
    assert_eq!(c.kind, ChangeKind::Deletion);
}

#[test]
fn context_and_unnumbered_lines_give_nothing() {
    assert!(change_from_diff_line(&line(' ', Some(1), Some(1), "same\n")).is_none());
    assert!(change_from_diff_line(&line('H', None, None, "@@ -1 +1 @@\n")).is_none());
    assert!(change_from_diff_line(&line('+', Some(3), None, "x")).is_none());
    assert!(change_from_diff_line(&line('-', Some(0), None, "x")).is_none());
}

#[test]
fn trim_removes_one_line_end() {
    assert_eq!(trim_line_end("a\n\n"), "a\n");
    assert_eq!(trim_line_end("\r\n"), "");
    assert_eq!(trim_line_end("a\r"), "a\r");
    assert_eq!(trim_line_end(""), "");
    assert_eq!(trim_line_end("\u{e9}t\u{e9}\n"), "\u{e9}t\u{e9}");
}

#[test]
fn diff_keeps_order_of_changed_lines() {
    let lines = vec![
        line('F', None, None, "diff --git a/f b/f\n"),
        line('-', Some(2), None, "old\n"),
        line(' ', Some(3), Some(2), "ctx\n"),
        line('+', None, Some(3), "new\n"),
        line('+', None, Some(4), "more"),
    ];
    let cs = changes_from_diff(&lines);
    let got: Vec<(usize, String, ChangeKind)> = cs.into_iter().map(|c| (c.line_number, c.content, c.kind)).collect();
    assert_eq!(
        got,
        vec![
            (2, "old".to_string(), ChangeKind::Deletion),
            (3, "new".to_string(), ChangeKind::Addition),
            (4, "more".to_string(), ChangeKind::Addition),
        ]
    );
    assert!(changes_from_diff(&vec![]).is_empty());
}
