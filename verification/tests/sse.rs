use wish_core::sse::{SseEvent, SseParser};

fn all(p: &mut SseParser, chunks: &[&str]) -> Vec<SseEvent> {
    let mut out = Vec::new();
    for c in chunks {
        out.extend(p.feed(c));
    }
    out
}

#[test]
fn events_end_on_blank_lines() {
    let mut p = SseParser::new();
    let out = all(&mut p, &["event: content.delta\ndata: {\"a\":1}\n\n", "data: x\r\ndata:  y \n\n"]);
    assert_eq!(out, vec![SseEvent::Data("{\"a\":1}".into()), SseEvent::Data("x\ny".into())]);
    assert!(!p.is_closed());
    assert_eq!(p.finish(), None);
}

#[test]
fn terminal_events_close_the_stream() {
    let mut p = SseParser::new();
    let out = all(&mut p, &["event: done\ndata: {}\n\ndata: late\n\n"]);
    assert_eq!(out, vec![SseEvent::Done]);
    assert!(p.is_closed());
    let mut q = SseParser::new();
    assert_eq!(all(&mut q, &["event: end\ndata: 1\n\n"]), vec![SseEvent::Done]);
}

#[test]
fn comments_ids_and_empty_events_yield_nothing() {
    let mut p = SseParser::new();
    let out = all(&mut p, &[": ping\nid: 7\nretry: 100\n\nevent: x\n\ndata:\n\n"]);
    assert!(out.is_empty());
}

#[test]
fn chunk_boundaries_are_invisible() {
    let text = "data: one\n\nevent: t\ndata: two\r\n\ndata: three\ndata: four";
    let mut whole = SseParser::new();
    let a = whole.feed(text);
    for cut in 0..text.len() {
        if !text.is_char_boundary(cut) {
            continue;
        }
        let mut split = SseParser::new();
        let mut b = split.feed(&text[..cut]);
        b.extend(split.feed(&text[cut..]));
        assert_eq!(a, b, "cut at {cut}");
        assert_eq!(whole.finish(), split.finish());
    }
    // The unfinished last line is dropped; the complete one is kept.
    assert_eq!(whole.finish(), Some("three".to_string()));
}
