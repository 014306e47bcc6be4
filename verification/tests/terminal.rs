use soma::capture::terminal::{FeedItem, Osc133Event, Osc133Parser};

fn feed_all(bytes: &[u8]) -> Vec<Osc133Event> {
    let mut p = Osc133Parser::new();
    p.feed(bytes)
}

#[test]
fn parses_bel_terminated() {
    let bytes = b"hello\x1b]133;A\x07world\x1b]133;B\x07";
    assert_eq!(feed_all(bytes), vec![Osc133Event::PromptStart, Osc133Event::CommandStart]);
}

#[test]
fn parses_st_terminated() {
    let bytes = b"\x1b]133;C\x1b\\done";
    assert_eq!(feed_all(bytes), vec![Osc133Event::PreExec]);
}

#[test]
fn parses_d_with_exit_code() {
    let bytes = b"\x1b]133;D;42\x07";
    assert_eq!(feed_all(bytes), vec![Osc133Event::PostExec { exit_code: Some(42) }]);
}

#[test]
fn parses_d_without_exit_code() {
    let bytes = b"\x1b]133;D\x07";
    assert_eq!(feed_all(bytes), vec![Osc133Event::PostExec { exit_code: None }]);
}

#[test]
fn handles_split_reads() {
    let mut p = Osc133Parser::new();
    assert_eq!(p.feed(b"\x1b]13"), vec![]);
    assert_eq!(p.feed(b"3;A\x07"), vec![Osc133Event::PromptStart]);
}

#[test]
fn ignores_unrelated_osc() {
    let bytes = b"\x1b]0;my title\x07\x1b]133;A\x07";
    assert_eq!(feed_all(bytes), vec![Osc133Event::PromptStart]);
}

#[test]
fn feed_classified_emits_events_and_passthrough() {
    let mut p = Osc133Parser::new();
    let out = p.feed_classified(b"hi\x1b]133;A\x07!");
    assert_eq!(out.len(), 4);
    assert!(matches!(out[0], FeedItem::Byte(b'h')));
    assert!(matches!(out[1], FeedItem::Byte(b'i')));
    assert!(matches!(out[2], FeedItem::Event(Osc133Event::PromptStart)));
    assert!(matches!(out[3], FeedItem::Byte(b'!')));
}

#[test]
fn handles_st_split_across_feed_boundary() {
    let mut p = Osc133Parser::new();
    assert_eq!(p.feed(b"\x1b]133;D;0\x1b"), vec![]);
    assert_eq!(p.feed(b"\\next-prompt"), vec![Osc133Event::PostExec { exit_code: Some(0) }]);
}

#[test]
fn feed_classified_handles_st_split_across_boundary() {
    let mut p = Osc133Parser::new();
    let first = p.feed_classified(b"abc\x1b]133;A\x1b");
    assert_eq!(first.len(), 3);
    assert!(matches!(first[0], FeedItem::Byte(b'a')));
    assert!(matches!(first[1], FeedItem::Byte(b'b')));
    assert!(matches!(first[2], FeedItem::Byte(b'c')));

    let second = p.feed_classified(b"\\xyz");
    assert_eq!(second.len(), 4);
    assert!(matches!(second[0], FeedItem::Event(Osc133Event::PromptStart)));
    assert!(matches!(second[1], FeedItem::Byte(b'x')));
    assert!(matches!(second[2], FeedItem::Byte(b'y')));
    assert!(matches!(second[3], FeedItem::Byte(b'z')));
}

#[test]
fn malformed_esc_inside_osc_drops_payload() {
    let mut p = Osc133Parser::new();
    assert_eq!(p.feed(b"\x1b]133;A\x1bX\x1b]133;B\x07"), vec![Osc133Event::CommandStart]);
}

#[test]
fn other_escape_sequences_pass_through() {
    let mut p = Osc133Parser::new();
    let out = p.feed_classified(b"\x1b[31m");
    let bytes: Vec<u8> = out
        .iter()
        .map(|i| match i {
            FeedItem::Byte(b) => *b,
            FeedItem::Event(_) => panic!("no event expected"),
        })
        .collect();
    assert_eq!(bytes, b"\x1b[31m");
}

fn put_out(bytes: &[u8]) -> Vec<FeedItem> {
    Osc133Parser::new().feed_classified(bytes)
}

fn shown(bytes: &[u8]) -> Vec<FeedItem> {
    bytes.iter().map(|b| FeedItem::Byte(*b)).collect()
}

#[test]
fn other_osc_sequences_pass_through() {
    assert_eq!(put_out(b"\x1b]0;t\x07x"), shown(b"\x1b]0;t\x07x"));
    assert_eq!(put_out(b"\x1b]8;;http://a\x1b\\b"), shown(b"\x1b]8;;http://a\x1b\\b"));
    assert_eq!(put_out(b"\x1b]\x07"), shown(b"\x1b]\x07"));
    assert_eq!(put_out(b"\x1b]1337;A\x07"), shown(b"\x1b]1337;A\x07"));
    let mut p = Osc133Parser::new();
    assert_eq!(p.feed_classified(b"\x1b]0;ti"), vec![]);
    assert_eq!(p.feed_classified(b"tle\x07"), shown(b"\x1b]0;title\x07"));
}

#[test]
fn osc_133_sequences_are_consumed() {
    assert_eq!(put_out(b"a\x1b]133;Z\x07b"), shown(b"ab"));
    assert_eq!(put_out(b"a\x1b]133\x07b"), shown(b"ab"));
    assert_eq!(
        put_out(b"\x1b]133;A\x1b\\"),
        vec![FeedItem::Event(Osc133Event::PromptStart)]
    );
}

#[test]
fn broken_bodies_are_dropped() {
    assert_eq!(put_out(b"\x1b]0;t\x1bXy"), shown(b"y"));
    assert_eq!(put_out(b"\x1b]133;A\x1b\x1b\\y"), shown(b"y"));
}

#[test]
fn long_osc_sequences_pass_through() {
    for n in [254, 255, 256, 1000] {
        let mut long = b"\x1b]8;;".to_vec();
        long.extend(vec![b'a'; n]);
        let mut by_bell = long.clone();
        by_bell.extend_from_slice(b"\x07x\x1b]133;A\x07");
        let mut want = shown(&by_bell[..by_bell.len() - 8]);
        want.push(FeedItem::Event(Osc133Event::PromptStart));
        assert_eq!(put_out(&by_bell), want);
        long.extend_from_slice(b"\x1b\\y");
        assert_eq!(put_out(&long), shown(&long));
    }
}

#[test]
fn long_osc_133_sequences_are_given_up() {
    let mut long = b"\x1b]133;".to_vec();
    long.extend(vec![b'a'; 252]);
    long.extend_from_slice(b"!rest");
    assert_eq!(put_out(&long), shown(b"rest"));
    assert_eq!(feed_all(&long), vec![]);
}

#[test]
fn negative_exit_code_is_read() {
    assert_eq!(
        feed_all(b"\x1b]133;D;-1\x07"),
        vec![Osc133Event::PostExec { exit_code: Some(-1) }]
    );
}

#[test]
fn one_byte_at_a_time_gives_the_same_events() {
    let bytes = b"a\x1b]133;A\x07b\x1b]133;C\x1b\\c\x1b]133;D;7\x07";
    let mut p = Osc133Parser::new();
    let mut all = vec![];
    for b in bytes.iter() {
        all.extend(p.feed(&[*b]));
    }
    assert_eq!(all, feed_all(bytes));
    assert_eq!(all.len(), 3);
}
