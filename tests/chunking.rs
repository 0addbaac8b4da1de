use blog_narrator::chunker::chunk_text_by_lines;
use blog_narrator::lines::split_lines;
use blog_narrator::text::decimal_text;

fn rejoin(chunks: &[String]) -> String {
    chunks.join("\n")
}

#[test]
fn two_lines_fit_exactly() {
    let chunks = chunk_text_by_lines("line1\nline2\nline3", 11);
    assert_eq!(chunks, vec!["line1\nline2".to_string(), "line3".to_string()]);
}

#[test]
fn long_line_forms_its_own_chunk() {
    let line = "x".repeat(50);
    let chunks = chunk_text_by_lines(&line, 10);
    assert_eq!(chunks, vec![line.clone()]);
    let text = format!("ab\n{line}\ncd");
    let chunks = chunk_text_by_lines(&text, 10);
    assert_eq!(chunks, vec!["ab".to_string(), line, "cd".to_string()]);
}

#[test]
fn empty_text_has_no_chunks() {
    assert!(chunk_text_by_lines("", 1).is_empty());
    assert!(chunk_text_by_lines("", 4096).is_empty());
}

#[test]
fn running_twice_gives_the_same_chunks() {
    let text = "alpha\nbeta\ngamma\ndelta\nepsilon";
    assert_eq!(chunk_text_by_lines(text, 12), chunk_text_by_lines(text, 12));
}

#[test]
fn rejoined_chunks_have_the_original_lines() {
    let text = "one\n\ntwo three\nfour\n\nfive six seven eight\nnine";
    for max in 1..30 {
        let chunks = chunk_text_by_lines(text, max);
        let joined = rejoin(&chunks);
        assert_eq!(split_lines(&joined), split_lines(text));
    }
}

#[test]
fn chunks_respect_the_bound_unless_one_line() {
    let text = "aaaa\nbb\ncccccccccccc\nd\nee\nf";
    let chunks = chunk_text_by_lines(text, 6);
    assert_eq!(
        chunks,
        vec![
            "aaaa".to_string(),
            "bb".to_string(),
            "cccccccccccc".to_string(),
            "d\nee\nf".to_string(),
        ]
    );
    for c in &chunks {
        assert!(c.chars().count() <= 6 || !c.contains('\n'));
    }
}

#[test]
fn chunks_keep_line_order() {
    let text = "1\n2\n3\n4\n5\n6\n7";
    let chunks = chunk_text_by_lines(text, 3);
    assert_eq!(chunks, vec!["1\n2", "3\n4", "5\n6", "7"]);
}

#[test]
fn size_counts_characters() {
    let chunks = chunk_text_by_lines("éé\néé", 5);
    assert_eq!(chunks, vec!["éé\néé".to_string()]);
    let chunks = chunk_text_by_lines("éé\néé", 4);
    assert_eq!(chunks, vec!["éé".to_string(), "éé".to_string()]);
}

#[test]
fn empty_lines_are_kept() {
    let chunks = chunk_text_by_lines("\nb", 10);
    assert_eq!(chunks, vec!["\nb".to_string()]);
    let chunks = chunk_text_by_lines("a\n\nb", 1);
    assert_eq!(chunks, vec!["a".to_string(), "".to_string(), "b".to_string()]);
}

#[test]
fn trailing_newline_ends_the_last_line() {
    let chunks = chunk_text_by_lines("first\nsecond\n", 100);
    assert_eq!(chunks, vec!["first\nsecond".to_string()]);
}

#[test]
fn split_lines_cuts_at_newlines() {
    assert_eq!(split_lines("a\n\nb\n"), vec!["a", "", "b"]);
    assert_eq!(split_lines("a\nb"), vec!["a", "b"]);
    assert_eq!(split_lines("\n"), vec![""]);
    assert!(split_lines("").is_empty());
}

#[test]
fn decimal_rendering() {
    assert_eq!(decimal_text(0), "0");
    assert_eq!(decimal_text(7), "7");
    assert_eq!(decimal_text(10), "10");
    assert_eq!(decimal_text(4096), "4096");
    assert_eq!(decimal_text(usize::MAX), usize::MAX.to_string());
}

#[test]
fn carriage_return_newline_is_a_line_break() {
    assert_eq!(split_lines("a\r\nb\r\n"), vec!["a", "b"]);
    assert_eq!(split_lines("a\r"), vec!["a\r"]);
    assert_eq!(split_lines("a\r\r\nb"), vec!["a\r", "b"]);
    assert_eq!(split_lines("a\rb\nc"), vec!["a\rb", "c"]);
    let chunks = chunk_text_by_lines("one\r\ntwo\r\nthree", 7);
    assert_eq!(chunks, vec!["one\ntwo".to_string(), "three".to_string()]);
}
