use blog_narrator::pipeline::{
    part_file_name, Action, Event, Phase, Pipeline, Stage, StageError, MAX_CHUNK_SIZE,
};

fn started(url: &str) -> Pipeline {
    let mut p = Pipeline::new(url.to_string());
    assert!(matches!(p.step(Event::Started), Action::Acknowledge));
    match p.step(Event::Acknowledged) {
        Action::Extract(u) => assert_eq!(u, url),
        _ => panic!("expected extraction"),
    }
    p
}

fn three_chunk_text() -> String {
    let line = "y".repeat(MAX_CHUNK_SIZE - 10);
    format!("{line}\n{line}\n{line}")
}

#[test]
fn failed_extraction_reports_once() {
    let mut p = started("https://example.com/post");
    let a = p.step(Event::Extracted(Err("no article".to_string())));
    match a {
        Action::Report(m) => assert_eq!(m, "Error: Error retrieving blog text no article"),
        _ => panic!("expected a report"),
    }
    assert_eq!(p.phase, Phase::Failed);
    assert!(p.is_finished());
    let a = p.step(Event::Rewritten(Ok("text".to_string())));
    assert!(matches!(a, Action::Ignore));
    let a = p.step(Event::Synthesized(Ok(vec![1])));
    assert!(matches!(a, Action::Ignore));
}

#[test]
fn synthesis_failure_on_second_chunk() {
    let mut p = started("u");
    match p.step(Event::Extracted(Ok("raw".to_string()))) {
        Action::Rewrite(t) => assert_eq!(t, "raw"),
        _ => panic!("expected rewrite"),
    }
    match p.step(Event::Rewritten(Ok(three_chunk_text()))) {
        Action::Synthesize(0, c) => assert_eq!(c.len(), MAX_CHUNK_SIZE - 10),
        _ => panic!("expected synthesis of chunk 0"),
    }
    assert_eq!(p.chunks.len(), 3);
    match p.step(Event::Synthesized(Ok(vec![9, 8, 7]))) {
        Action::Deliver(0, name, audio) => {
            assert_eq!(name, "part_0.mp3");
            assert_eq!(audio, vec![9, 8, 7]);
        }
        _ => panic!("expected delivery of chunk 0"),
    }
    assert!(matches!(p.step(Event::Delivered(Ok(()))), Action::Synthesize(1, _)));
    match p.step(Event::Synthesized(Err("rate limited".to_string()))) {
        Action::Report(m) => {
            assert_eq!(m, "Error: Error converting part 1 to speech rate limited")
        }
        _ => panic!("expected a report"),
    }
    assert_eq!(p.phase, Phase::Failed);
    assert!(matches!(p.step(Event::Delivered(Ok(()))), Action::Ignore));
    assert_eq!(p.next, 1);
}

#[test]
fn full_run_delivers_every_chunk_in_order() {
    let mut p = started("u");
    p.step(Event::Extracted(Ok("raw".to_string())));
    let mut a = p.step(Event::Rewritten(Ok(three_chunk_text())));
    for i in 0..3usize {
        match a {
            Action::Synthesize(k, _) => assert_eq!(k, i),
            _ => panic!("expected synthesis"),
        }
        match p.step(Event::Synthesized(Ok(vec![i as u8]))) {
            Action::Deliver(k, name, audio) => {
                assert_eq!(k, i);
                assert_eq!(name, format!("part_{i}.mp3"));
                assert_eq!(audio, vec![i as u8]);
            }
            _ => panic!("expected delivery"),
        }
        a = p.step(Event::Delivered(Ok(())));
    }
    assert!(matches!(a, Action::Finish));
    assert_eq!(p.phase, Phase::Done);
    assert!(p.is_finished());
}

#[test]
fn rewrite_failure_is_reported() {
    let mut p = started("u");
    p.step(Event::Extracted(Ok("raw".to_string())));
    match p.step(Event::Rewritten(Err("status 500".to_string()))) {
        Action::Report(m) => assert_eq!(m, "Error: Error editing text status 500"),
        _ => panic!("expected a report"),
    }
}

#[test]
fn delivery_failure_is_reported() {
    let mut p = started("u");
    p.step(Event::Extracted(Ok("raw".to_string())));
    p.step(Event::Rewritten(Ok("short text".to_string())));
    p.step(Event::Synthesized(Ok(vec![])));
    match p.step(Event::Delivered(Err("network".to_string()))) {
        Action::Report(m) => assert_eq!(m, "Error: Error sending part 0 network"),
        _ => panic!("expected a report"),
    }
}

#[test]
fn empty_rewrite_finishes_without_synthesis() {
    let mut p = started("u");
    p.step(Event::Extracted(Ok("raw".to_string())));
    assert!(matches!(p.step(Event::Rewritten(Ok(String::new()))), Action::Finish));
    assert_eq!(p.phase, Phase::Done);
}

#[test]
fn events_out_of_turn_are_ignored() {
    let mut p = Pipeline::new("u".to_string());
    assert!(matches!(p.step(Event::Acknowledged), Action::Ignore));
    assert!(matches!(p.step(Event::Extracted(Ok("x".to_string()))), Action::Ignore));
    assert_eq!(p.phase, Phase::Received);
    assert!(!p.is_finished());
}

#[test]
fn stage_error_messages() {
    let e = StageError { stage: Stage::Synthesis(12), detail: "boom".to_string() };
    assert_eq!(e.message(), "Error: Error converting part 12 to speech boom");
    let e = StageError { stage: Stage::Delivery(3), detail: "x".to_string() };
    assert_eq!(e.message(), "Error: Error sending part 3 x");
    let e = StageError { stage: Stage::Extraction, detail: String::new() };
    assert_eq!(e.message(), "Error: Error retrieving blog text ");
}

#[test]
fn part_file_names() {
    assert_eq!(part_file_name(0), "part_0.mp3");
    assert_eq!(part_file_name(42), "part_42.mp3");
}
