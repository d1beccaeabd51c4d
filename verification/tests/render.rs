use mdhtml::events::{Event, Tag};
use mdhtml::html::push_html;

fn render(events: Vec<Event>) -> Vec<u8> {
    let mut buf: Vec<u8> = Vec::new();
    push_html(&mut buf, &events);
    buf
}

#[test]
fn text_is_escaped_not_interpreted() {
    let out = render(vec![Event::Text(b"<b>".to_vec())]);
    assert_eq!(out, b"&lt;b&gt;".to_vec());
}

#[test]
fn text_escapes_amp_lt_gt_but_not_quote() {
    let out = render(vec![Event::Text(b"a&b<c>d\"e".to_vec())]);
    assert_eq!(out, b"a&amp;b&lt;c&gt;d\"e".to_vec());
}

#[test]
fn footnote_numbers_first_seen_order() {
    let out = render(vec![
        Event::FootnoteReference(b"a".to_vec()),
        Event::FootnoteReference(b"b".to_vec()),
        Event::FootnoteReference(b"a".to_vec()),
    ]);
    let expected = b"<sup class=\"footnote-reference\"><a href=\"#a\">1</a></sup>\
<sup class=\"footnote-reference\"><a href=\"#b\">2</a></sup>\
<sup class=\"footnote-reference\"><a href=\"#a\">1</a></sup>"
        .to_vec();
    assert_eq!(out, expected);
}

#[test]
fn footnote_name_is_escaped_in_target() {
    let out = render(vec![Event::FootnoteReference(b"a&b".to_vec())]);
    let expected = b"<sup class=\"footnote-reference\"><a href=\"#a&amp;b\">1</a></sup>".to_vec();
    assert_eq!(out, expected);
}

#[test]
fn footnote_numbers_reach_two_digits() {
    let mut events = Vec::new();
    for k in 0..12 {
        events.push(Event::FootnoteReference(format!("n{}", k).into_bytes()));
    }
    let out = render(events);
    let text = String::from_utf8(out).unwrap();
    assert!(text.ends_with("<a href=\"#n11\">12</a></sup>"));
    assert!(text.contains("<a href=\"#n9\">10</a></sup>"));
}

#[test]
fn autolink_wraps_bare_url() {
    let out = render(vec![Event::Text(b"see http://example.com now".to_vec())]);
    let expected =
        b"see <a href=\"http://example.com\">http://example.com</a> now".to_vec();
    assert_eq!(out, expected);
}

#[test]
fn autolink_leaves_plain_text_alone() {
    let out = render(vec![Event::Text(b"no links here".to_vec())]);
    assert_eq!(out, b"no links here".to_vec());
}

#[test]
fn link_tag_round_trip_without_title() {
    let out = render(vec![
        Event::Start(Tag::Link(b"http://x.test".to_vec(), b"".to_vec())),
        Event::Text(b"click".to_vec()),
        Event::End(Tag::Link(b"http://x.test".to_vec(), b"".to_vec())),
    ]);
    assert_eq!(out, b"<a href=\"http://x.test\">click</a>".to_vec());
}

#[test]
fn link_tag_with_title() {
    let out = render(vec![
        Event::Start(Tag::Link(b"http://x.test".to_vec(), b"My Title".to_vec())),
        Event::Text(b"t".to_vec()),
        Event::End(Tag::Link(b"http://x.test".to_vec(), b"My Title".to_vec())),
    ]);
    assert_eq!(
        out,
        b"<a href=\"http://x.test\" title=\"My Title\">t</a>".to_vec()
    );
}

#[test]
fn header_after_text_gets_one_fresh_line() {
    let out = render(vec![
        Event::Text(b"x".to_vec()),
        Event::Start(Tag::Header(1)),
        Event::Text(b"y".to_vec()),
        Event::End(Tag::Header(1)),
    ]);
    assert_eq!(out, b"x\n<big>y</big>".to_vec());
}

#[test]
fn header_as_first_event_gets_no_leading_newline() {
    let out = render(vec![Event::Start(Tag::Header(1)), Event::End(Tag::Header(1))]);
    assert_eq!(out, b"<big></big>".to_vec());
}

#[test]
fn header_after_newline_gets_no_second_newline() {
    let out = render(vec![
        Event::SoftBreak,
        Event::Start(Tag::Header(2)),
        Event::End(Tag::Header(2)),
    ]);
    assert_eq!(out, b"\n<big></big>".to_vec());
}

#[test]
fn code_block_markup() {
    let out = render(vec![
        Event::Text(b"x".to_vec()),
        Event::Start(Tag::CodeBlock(b"rust".to_vec())),
        Event::Text(b"let a;".to_vec()),
        Event::End(Tag::CodeBlock(b"rust".to_vec())),
    ]);
    assert_eq!(out, b"x\n<tt>let a;</tt>\n".to_vec());
}

#[test]
fn inline_markup_pairs() {
    let out = render(vec![
        Event::Start(Tag::Emphasis),
        Event::Text(b"i".to_vec()),
        Event::End(Tag::Emphasis),
        Event::Start(Tag::Strong),
        Event::Text(b"b".to_vec()),
        Event::End(Tag::Strong),
        Event::Start(Tag::Code),
        Event::Text(b"c".to_vec()),
        Event::End(Tag::Code),
    ]);
    assert_eq!(out, b"<i>i</i><b>b</b><tt>c</tt>".to_vec());
}

#[test]
fn html_passes_through_unescaped() {
    let out = render(vec![
        Event::Html(b"<div class=\"x\">".to_vec()),
        Event::InlineHtml(b"<span>&amp;</span>".to_vec()),
    ]);
    assert_eq!(out, b"<div class=\"x\"><span>&amp;</span>".to_vec());
}

#[test]
fn breaks() {
    let out = render(vec![
        Event::Text(b"a".to_vec()),
        Event::SoftBreak,
        Event::Text(b"b".to_vec()),
        Event::HardBreak,
        Event::Text(b"c".to_vec()),
    ]);
    assert_eq!(out, b"a\nb<br />\nc".to_vec());
}

#[test]
fn unknown_tags_are_ignored() {
    let out = render(vec![
        Event::Start(Tag::Paragraph),
        Event::Text(b"p".to_vec()),
        Event::End(Tag::Paragraph),
        Event::Start(Tag::Rule),
        Event::End(Tag::Rule),
        Event::Start(Tag::List),
        Event::Start(Tag::Item),
        Event::Text(b"q".to_vec()),
        Event::End(Tag::Item),
        Event::End(Tag::List),
        Event::Start(Tag::BlockQuote),
        Event::End(Tag::BlockQuote),
    ]);
    assert_eq!(out, b"pq".to_vec());
}

#[test]
fn push_html_appends_to_existing_buffer() {
    let mut buf = b"x".to_vec();
    push_html(&mut buf, &vec![Event::Start(Tag::Header(1))]);
    assert_eq!(buf, b"x\n<big>".to_vec());
}

#[test]
fn empty_stream_renders_nothing() {
    let out = render(vec![]);
    assert_eq!(out, b"".to_vec());
}
