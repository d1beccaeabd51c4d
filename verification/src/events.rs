//! The event alphabet the renderer consumes: tags, events, and their
//! spec-level images with byte payloads as sequences.

use vstd::prelude::*;

verus! {

/// Which optional layers of the renderer are switched on.
///
/// `autolink` wraps bare URLs found in text runs in anchor markup.
/// `raw_text_links_as_plain` degrades a closing link tag to `: ` plus the raw
/// destination instead of `</a>`, for flattened output contexts.
/// `table_support` routes the table tags into the table sub-state; with it
/// off they are ignored like any unrecognized tag.
#[derive(Clone, Copy)]
pub struct Config {
    pub autolink: bool,
    pub raw_text_links_as_plain: bool,
    pub table_support: bool,
}

/// Column alignment captured at table start.
#[derive(Clone, Copy)]
pub enum Align {
    Unspecified,
    Left,
    Center,
    Right,
}

/// The markup construct bounded by a `Start`/`End` pair of events.
///
/// Payloads are byte strings: a header level, a code block's info string, a
/// link's destination and title, a table's column alignments.
pub enum Tag {
    Paragraph,
    Header(u32),
    BlockQuote,
    CodeBlock(Vec<u8>),
    List,
    Item,
    Emphasis,
    Strong,
    Code,
    Link(Vec<u8>, Vec<u8>),
    Rule,
    Table(Vec<Align>),
    TableHead,
    TableRow,
    TableCell,
}

/// One unit of the flattened markdown structure stream.
pub enum Event {
    Start(Tag),
    End(Tag),
    Text(Vec<u8>),
    Html(Vec<u8>),
    InlineHtml(Vec<u8>),
    SoftBreak,
    HardBreak,
    FootnoteReference(Vec<u8>),
}

/// Spec-level image of a `Tag`, with payloads as sequences.
pub enum TagV {
    Paragraph,
    Header(u32),
    BlockQuote,
    CodeBlock(Seq<u8>),
    List,
    Item,
    Emphasis,
    Strong,
    Code,
    Link(Seq<u8>, Seq<u8>),
    Rule,
    Table(Seq<Align>),
    TableHead,
    TableRow,
    TableCell,
}

/// Spec-level image of an `Event`.
pub enum EvV {
    Start(TagV),
    End(TagV),
    Text(Seq<u8>),
    Html(Seq<u8>),
    InlineHtml(Seq<u8>),
    SoftBreak,
    HardBreak,
    FootnoteReference(Seq<u8>),
}

impl DeepView for Tag {
    type V = TagV;

    open spec fn deep_view(&self) -> TagV {
        match self {
            Tag::Paragraph => TagV::Paragraph,
            Tag::Header(n) => TagV::Header(*n),
            Tag::BlockQuote => TagV::BlockQuote,
            Tag::CodeBlock(info) => TagV::CodeBlock(info@),
            Tag::List => TagV::List,
            Tag::Item => TagV::Item,
            Tag::Emphasis => TagV::Emphasis,
            Tag::Strong => TagV::Strong,
            Tag::Code => TagV::Code,
            Tag::Link(dest, title) => TagV::Link(dest@, title@),
            Tag::Rule => TagV::Rule,
            Tag::Table(aligns) => TagV::Table(aligns@),
            Tag::TableHead => TagV::TableHead,
            Tag::TableRow => TagV::TableRow,
            Tag::TableCell => TagV::TableCell,
        }
    }
}

impl DeepView for Event {
    type V = EvV;

    open spec fn deep_view(&self) -> EvV {
        match self {
            Event::Start(tag) => EvV::Start(tag.deep_view()),
            Event::End(tag) => EvV::End(tag.deep_view()),
            Event::Text(s) => EvV::Text(s@),
            Event::Html(s) => EvV::Html(s@),
            Event::InlineHtml(s) => EvV::InlineHtml(s@),
            Event::SoftBreak => EvV::SoftBreak,
            Event::HardBreak => EvV::HardBreak,
            Event::FootnoteReference(name) => EvV::FootnoteReference(name@),
        }
    }
}

impl Config {
    /// The configuration of the classic renderer: autolinking on, anchors
    /// closed with `</a>`, table tags ignored.
    pub fn classic() -> (c: Config)
        ensures
            c == classic_config(),
    {
        Config { autolink: true, raw_text_links_as_plain: false, table_support: false }
    }
}

/// The configuration `Config::classic` returns.
pub open spec fn classic_config() -> Config {
    Config { autolink: true, raw_text_links_as_plain: false, table_support: false }
}

} // verus!
