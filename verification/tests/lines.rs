use script_runner::lines::join_lines;

fn owned(lines: &[&str]) -> Vec<String> {
    lines.iter().map(|line| line.to_string()).collect()
}

#[test]
fn join_of_no_line_is_empty() {
    assert_eq!(join_lines(&Vec::new()), "");
}

#[test]
fn join_of_one_line_is_that_line() {
    assert_eq!(join_lines(&owned(&["hello"])), "hello");
}

#[test]
fn join_puts_one_line_feed_between_neighbours() {
    assert_eq!(join_lines(&owned(&["a", "b", "c"])), "a\nb\nc");
}

#[test]
fn join_has_no_line_feed_at_either_end() {
    let out = join_lines(&owned(&["first", "second"]));
    assert!(!out.starts_with('\n'));
    assert!(!out.ends_with('\n'));
    assert_eq!(out.len(), "first".len() + 1 + "second".len());
}

#[test]
fn join_keeps_empty_lines() {
    assert_eq!(join_lines(&owned(&["a", "", "b"])), "a\n\nb");
    assert_eq!(join_lines(&owned(&[""])), "");
    assert_eq!(join_lines(&owned(&["", ""])), "\n");
}

#[test]
fn join_agrees_with_the_standard_join() {
    let lines = owned(&["one", "two words", "", "tr\u{e8}s", "4"]);
    assert_eq!(join_lines(&lines), lines.join("\n"));
}
