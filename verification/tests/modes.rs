use mdhtml::events::{Align, Config, Event, Tag};
use mdhtml::html::Ctx;

fn plain_config() -> Config {
    Config { autolink: false, raw_text_links_as_plain: false, table_support: false }
}

#[test]
fn autolink_off_leaves_url_as_text() {
    let mut ctx = Ctx::new(plain_config());
    ctx.run(&vec![Event::Text(b"see http://example.com now".to_vec())]);
    assert_eq!(ctx.buf, b"see http://example.com now".to_vec());
}

#[test]
fn link_end_degrades_to_plain_destination() {
    let cfg = Config { autolink: false, raw_text_links_as_plain: true, table_support: false };
    let mut ctx = Ctx::new(cfg);
    ctx.run(&vec![
        Event::Start(Tag::Link(b"http://x.test".to_vec(), b"".to_vec())),
        Event::Text(b"click".to_vec()),
        Event::End(Tag::Link(b"http://x.test".to_vec(), b"".to_vec())),
    ]);
    assert_eq!(ctx.buf, b"<a href=\"http://x.test\">click: http://x.test".to_vec());
}

#[test]
fn fresh_line_is_idempotent_on_buffer() {
    let mut ctx = Ctx::new(plain_config());
    ctx.fresh_line();
    assert_eq!(ctx.buf, b"".to_vec());
    ctx.buf.push(b'x');
    ctx.fresh_line();
    assert_eq!(ctx.buf, b"x\n".to_vec());
    ctx.fresh_line();
    assert_eq!(ctx.buf, b"x\n".to_vec());
}

#[test]
fn raw_text_flattens_nested_markup() {
    let mut ctx = Ctx::new(plain_config());
    let events = vec![
        Event::Start(Tag::Emphasis),
        Event::Start(Tag::Strong),
        Event::Text(b"hi".to_vec()),
        Event::End(Tag::Strong),
        Event::End(Tag::Emphasis),
        Event::Text(b"after".to_vec()),
    ];
    let end = ctx.raw_text(&events, 1);
    assert_eq!(end, 5);
    assert_eq!(ctx.buf, b"hi".to_vec());
}

#[test]
fn raw_text_escapes_text_and_drops_block_html() {
    let mut ctx = Ctx::new(plain_config());
    let events = vec![
        Event::Text(b"<b>".to_vec()),
        Event::Html(b"<div>".to_vec()),
        Event::InlineHtml(b"<i>".to_vec()),
        Event::SoftBreak,
        Event::HardBreak,
        Event::Text(b"z".to_vec()),
        Event::End(Tag::Emphasis),
    ];
    let end = ctx.raw_text(&events, 0);
    assert_eq!(end, 7);
    assert_eq!(ctx.buf, b"&lt;b&gt;&lt;i&gt;  z".to_vec());
}

#[test]
fn raw_text_footnote_is_bracketed_number_sharing_table() {
    let mut ctx = Ctx::new(plain_config());
    let events = vec![
        Event::FootnoteReference(b"a".to_vec()),
        Event::End(Tag::Emphasis),
        Event::FootnoteReference(b"a".to_vec()),
        Event::FootnoteReference(b"b".to_vec()),
    ];
    let end = ctx.raw_text(&events, 0);
    assert_eq!(end, 2);
    assert_eq!(ctx.buf, b"[1]".to_vec());
    // the same table keeps numbering for the rest of the pass
    ctx.run(&vec![
        Event::FootnoteReference(b"a".to_vec()),
        Event::FootnoteReference(b"b".to_vec()),
    ]);
    let text = String::from_utf8(ctx.buf.clone()).unwrap();
    assert!(text.contains("<a href=\"#a\">1</a>"));
    assert!(text.contains("<a href=\"#b\">2</a>"));
}

#[test]
fn raw_text_runs_off_unbalanced_stream_end() {
    let mut ctx = Ctx::new(plain_config());
    let events = vec![Event::Start(Tag::Strong), Event::Text(b"x".to_vec())];
    let end = ctx.raw_text(&events, 0);
    assert_eq!(end, 2);
    assert_eq!(ctx.buf, b"x".to_vec());
}

#[test]
fn table_tags_are_ignored_without_table_support() {
    let mut ctx = Ctx::new(plain_config());
    ctx.run(&vec![
        Event::Start(Tag::Table(vec![Align::Left])),
        Event::Start(Tag::TableHead),
        Event::Start(Tag::TableCell),
        Event::Text(b"A".to_vec()),
        Event::End(Tag::TableCell),
        Event::End(Tag::TableHead),
        Event::End(Tag::Table(vec![Align::Left])),
    ]);
    assert_eq!(ctx.buf, b"A".to_vec());
}

#[test]
fn table_head_and_body_cells() {
    let cfg = Config { autolink: false, raw_text_links_as_plain: false, table_support: true };
    let mut ctx = Ctx::new(cfg);
    let aligns = vec![Align::Unspecified, Align::Left, Align::Center];
    ctx.run(&vec![
        Event::Start(Tag::Table(aligns.clone())),
        Event::Start(Tag::TableHead),
        Event::Start(Tag::TableCell),
        Event::Text(b"A".to_vec()),
        Event::End(Tag::TableCell),
        Event::Start(Tag::TableCell),
        Event::Text(b"B".to_vec()),
        Event::End(Tag::TableCell),
        Event::End(Tag::TableHead),
        Event::Start(Tag::TableRow),
        Event::Start(Tag::TableCell),
        Event::Text(b"1".to_vec()),
        Event::End(Tag::TableCell),
        Event::Start(Tag::TableCell),
        Event::Text(b"2".to_vec()),
        Event::End(Tag::TableCell),
        Event::Start(Tag::TableCell),
        Event::Text(b"3".to_vec()),
        Event::End(Tag::TableCell),
        Event::End(Tag::TableRow),
        Event::End(Tag::Table(aligns)),
    ]);
    let expected = b"<table><thead><tr>\
<th>A</th>\
<th style=\"text-align: left\">B</th>\
</tr></thead>\
<tr>\
<td>1</td>\
<td style=\"text-align: left\">2</td>\
<td style=\"text-align: center\">3</td>\
</tr>\
</table>\n"
        .to_vec();
    assert_eq!(ctx.buf, expected);
}

#[test]
fn table_cell_beyond_alignments_gets_no_style() {
    let cfg = Config { autolink: false, raw_text_links_as_plain: false, table_support: true };
    let mut ctx = Ctx::new(cfg);
    ctx.run(&vec![
        Event::Start(Tag::Table(vec![Align::Right])),
        Event::Start(Tag::TableRow),
        Event::Start(Tag::TableCell),
        Event::End(Tag::TableCell),
        Event::Start(Tag::TableCell),
        Event::End(Tag::TableCell),
        Event::End(Tag::TableRow),
        Event::End(Tag::Table(vec![Align::Right])),
    ]);
    // table start opens the head section; the first row is still in it
    let expected = b"<table><tr>\
<th style=\"text-align: right\"></th>\
<th></th>\
</tr>\
</table>\n"
        .to_vec();
    assert_eq!(ctx.buf, expected);
}
