//! The spec-level model of the renderer: its state, the output of each
//! event handler, the fold over a whole event stream, and the laws the
//! model obeys.

use vstd::prelude::*;
use crate::autolink::{autolink_seq, url_spans};
use crate::escape::{dec_seq, esc_href, esc_html};
use crate::events::{Align, Config, EvV, TagV};
use crate::lit::{
    s_a_c, s_a_href, s_al_center, s_al_left, s_al_right, s_b_c, s_b_o, s_big_c, s_big_o, s_br,
    s_brk_c, s_brk_o, s_colon_sp, s_gt, s_i_c, s_i_o, s_nl, s_quot, s_quot_gt, s_sp,
    s_style_align, s_sup_c, s_sup_o, s_table_c, s_table_o, s_td_c, s_td_o, s_th_c, s_th_o,
    s_thead_c, s_thead_o, s_title_attr, s_tr_c, s_tr_o, s_tt_c, s_tt_c_nl, s_tt_o,
};

verus! {

/// The renderer's state: the output buffer, the footnote name table in
/// first-seen order, and the table sub-state (column alignments, whether the
/// current section is the head, and the current cell index).
#[verifier::ext_equal]
pub struct St {
    pub buf: Seq<u8>,
    pub nums: Seq<Seq<u8>>,
    pub aligns: Seq<Align>,
    pub in_head: bool,
    pub cell: int,
}

/// The state a render pass starts from: a given buffer and everything else
/// empty.
pub open spec fn init_st(buf: Seq<u8>) -> St {
    St { buf, nums: Seq::empty(), aligns: Seq::empty(), in_head: false, cell: 0 }
}

/// A newline is appended only to a non-empty buffer that does not already
/// end in one.
pub open spec fn fresh_line_seq(b: Seq<u8>) -> Seq<u8> {
    if b.len() == 0 || b.last() == 10u8 {
        b
    } else {
        b + s_nl()
    }
}

/// The index of the first entry of `nums` equal to `name`, or -1.
pub open spec fn name_index(nums: Seq<Seq<u8>>, name: Seq<u8>) -> int
    decreases nums.len(),
{
    if nums.len() == 0 {
        -1
    } else if nums[0] == name {
        0
    } else {
        let r = name_index(nums.skip(1), name);
        if r < 0 {
            -1
        } else {
            r + 1
        }
    }
}

/// The number a footnote reference to `name` renders with: the number
/// already assigned to `name`, or one past the count of assigned names.
pub open spec fn footnote_number(nums: Seq<Seq<u8>>, name: Seq<u8>) -> int {
    if name_index(nums, name) >= 0 {
        name_index(nums, name) + 1
    } else {
        nums.len() as int + 1
    }
}

/// The footnote table after a reference to `name`: unchanged if `name` is
/// already assigned, else extended with `name`.
pub open spec fn footnote_nums(nums: Seq<Seq<u8>>, name: Seq<u8>) -> Seq<Seq<u8>> {
    if name_index(nums, name) >= 0 {
        nums
    } else {
        nums.push(name)
    }
}

/// The markup of an inline footnote reference: a numbered superscript link
/// whose target is the HTML-escaped name.
pub open spec fn footnote_inline_out(nums: Seq<Seq<u8>>, name: Seq<u8>) -> Seq<u8> {
    s_sup_o() + esc_html(name, false) + s_quot_gt() + dec_seq(footnote_number(nums, name) as nat)
        + s_sup_c()
}

/// The markup of a footnote reference in raw-text mode: the number in
/// brackets, with no anchor.
pub open spec fn footnote_plain_out(nums: Seq<Seq<u8>>, name: Seq<u8>) -> Seq<u8> {
    s_brk_o() + dec_seq(footnote_number(nums, name) as nat) + s_brk_c()
}

/// The alignment attribute of a table cell; empty for the default alignment.
pub open spec fn align_attr(a: Align) -> Seq<u8> {
    match a {
        Align::Unspecified => Seq::empty(),
        Align::Left => s_style_align() + s_al_left() + s_quot(),
        Align::Center => s_style_align() + s_al_center() + s_quot(),
        Align::Right => s_style_align() + s_al_right() + s_quot(),
    }
}

/// The opening markup of a table cell: `th` in the head section, `td` in the
/// body, with the current column's alignment attribute if one is captured.
pub open spec fn cell_open(st: St) -> Seq<u8> {
    (if st.in_head {
        s_th_o()
    } else {
        s_td_o()
    }) + (if 0 <= st.cell < st.aligns.len() {
        align_attr(st.aligns[st.cell])
    } else {
        Seq::empty()
    }) + s_gt()
}

/// The cell index after a cell ends; it cannot pass the machine's limit.
pub open spec fn bump_cell(c: int) -> int {
    if c == usize::MAX as int {
        c
    } else {
        c + 1
    }
}

/// The markup a `Link` start tag emits: destination href-escaped, the title
/// attribute present only for a non-empty title.
pub open spec fn link_open(dest: Seq<u8>, title: Seq<u8>) -> Seq<u8> {
    s_a_href() + esc_href(dest) + (if title.len() > 0 {
        s_title_attr() + esc_html(title, false)
    } else {
        Seq::empty()
    }) + s_quot_gt()
}

/// The state after a start tag.
pub open spec fn start_tag_st(st: St, tag: TagV, cfg: Config) -> St {
    match tag {
        TagV::Header(_) => (St { buf: fresh_line_seq(st.buf) + s_big_o(), ..st }),
        TagV::CodeBlock(_) => (St { buf: fresh_line_seq(st.buf) + s_tt_o(), ..st }),
        TagV::Emphasis => (St { buf: st.buf + s_i_o(), ..st }),
        TagV::Strong => (St { buf: st.buf + s_b_o(), ..st }),
        TagV::Code => (St { buf: st.buf + s_tt_o(), ..st }),
        TagV::Link(dest, title) => (St { buf: st.buf + link_open(dest, title), ..st }),
        TagV::Table(aligns) => if cfg.table_support {
            St {
                buf: fresh_line_seq(st.buf) + s_table_o(),
                aligns,
                in_head: true,
                cell: 0,
                ..st
            }
        } else {
            st
        },
        TagV::TableHead => if cfg.table_support {
            St { buf: st.buf + s_thead_o(), in_head: true, cell: 0, ..st }
        } else {
            st
        },
        TagV::TableRow => if cfg.table_support {
            St { buf: st.buf + s_tr_o(), cell: 0, ..st }
        } else {
            st
        },
        TagV::TableCell => if cfg.table_support {
            St { buf: st.buf + cell_open(st), ..st }
        } else {
            st
        },
        _ => st,
    }
}

/// The state after an end tag.
pub open spec fn end_tag_st(st: St, tag: TagV, cfg: Config) -> St {
    match tag {
        TagV::Header(_) => (St { buf: st.buf + s_big_c(), ..st }),
        TagV::CodeBlock(_) => (St { buf: st.buf + s_tt_c_nl(), ..st }),
        TagV::Emphasis => (St { buf: st.buf + s_i_c(), ..st }),
        TagV::Strong => (St { buf: st.buf + s_b_c(), ..st }),
        TagV::Code => (St { buf: st.buf + s_tt_c(), ..st }),
        TagV::Link(dest, _) => if cfg.raw_text_links_as_plain {
            St { buf: st.buf + s_colon_sp() + dest, ..st }
        } else {
            St { buf: st.buf + s_a_c(), ..st }
        },
        TagV::Table(_) => if cfg.table_support {
            St { buf: st.buf + s_table_c() + s_nl(), ..st }
        } else {
            st
        },
        TagV::TableHead => if cfg.table_support {
            St { buf: st.buf + s_thead_c(), in_head: false, ..st }
        } else {
            st
        },
        TagV::TableRow => if cfg.table_support {
            St { buf: st.buf + s_tr_c(), ..st }
        } else {
            st
        },
        TagV::TableCell => if cfg.table_support {
            St {
                buf: st.buf + (if st.in_head {
                    s_th_c()
                } else {
                    s_td_c()
                }),
                cell: bump_cell(st.cell),
                ..st
            }
        } else {
            st
        },
        _ => st,
    }
}

/// What a text run appends: its HTML escaping, run through the autolink
/// transform when that layer is on.
pub open spec fn text_out(s: Seq<u8>, cfg: Config) -> Seq<u8> {
    let e = esc_html(s, false);
    if cfg.autolink {
        autolink_seq(e, url_spans(e))
    } else {
        e
    }
}

/// The state after one event in the default dispatch mode.
pub open spec fn step_st(st: St, ev: EvV, cfg: Config) -> St {
    match ev {
        EvV::Start(tag) => start_tag_st(st, tag, cfg),
        EvV::End(tag) => end_tag_st(st, tag, cfg),
        EvV::Text(s) => (St { buf: st.buf + text_out(s, cfg), ..st }),
        EvV::Html(s) => (St { buf: st.buf + s, ..st }),
        EvV::InlineHtml(s) => (St { buf: st.buf + s, ..st }),
        EvV::SoftBreak => (St { buf: st.buf + s_nl(), ..st }),
        EvV::HardBreak => (St { buf: st.buf + s_br(), ..st }),
        EvV::FootnoteReference(name) => (St {
            buf: st.buf + footnote_inline_out(st.nums, name),
            nums: footnote_nums(st.nums, name),
            ..st
        }),
    }
}

/// The state after a whole event stream, one event at a time, in order.
pub open spec fn run_st(st: St, evs: Seq<EvV>, cfg: Config) -> St
    decreases evs.len(),
{
    if evs.len() == 0 {
        st
    } else {
        run_st(step_st(st, evs[0], cfg), evs.skip(1), cfg)
    }
}

/// The state after one event in raw-text skip mode: text and inline HTML are
/// escaped, raw HTML is dropped, breaks become one space, and a footnote
/// reference becomes its bracketed number.
pub open spec fn raw_step_st(st: St, ev: EvV) -> St {
    match ev {
        EvV::Text(s) => (St { buf: st.buf + esc_html(s, false), ..st }),
        EvV::Html(_) => st,
        EvV::InlineHtml(s) => (St { buf: st.buf + esc_html(s, false), ..st }),
        EvV::SoftBreak => (St { buf: st.buf + s_sp(), ..st }),
        EvV::HardBreak => (St { buf: st.buf + s_sp(), ..st }),
        EvV::FootnoteReference(name) => (St {
            buf: st.buf + footnote_plain_out(st.nums, name),
            nums: footnote_nums(st.nums, name),
            ..st
        }),
        _ => st,
    }
}

/// Raw-text skip mode from position `i` at the given nesting depth: the
/// state when the matching end tag has been consumed, and the position just
/// after it. A stream that runs out before the matching end tag stops at its
/// end.
pub open spec fn raw_run_st(st: St, evs: Seq<EvV>, i: int, depth: nat) -> (St, int)
    decreases evs.len() - i,
{
    if !(0 <= i < evs.len()) {
        (st, evs.len() as int)
    } else {
        match evs[i] {
            EvV::Start(_) => raw_run_st(st, evs, i + 1, depth + 1),
            EvV::End(_) => if depth == 0 {
                (st, i + 1)
            } else {
                raw_run_st(st, evs, i + 1, (depth - 1) as nat)
            },
            _ => raw_run_st(raw_step_st(st, evs[i]), evs, i + 1, depth),
        }
    }
}

/// Appending a fresh line twice is the same as appending it once: the
/// normalization never yields two newlines in a row.
pub proof fn lemma_fresh_line_idempotent(b: Seq<u8>)
    ensures
        fresh_line_seq(fresh_line_seq(b)) == fresh_line_seq(b),
{
    if b.len() == 0 || b.last() == 10u8 {
    } else {
        assert((b + s_nl()).last() == 10u8);
    }
}

/// `name_index` points at the first occurrence of `name`, and is -1 exactly
/// when `name` does not occur.
pub proof fn lemma_name_index_first(nums: Seq<Seq<u8>>, name: Seq<u8>)
    ensures
        -1 <= name_index(nums, name) < nums.len(),
        name_index(nums, name) >= 0 ==> nums[name_index(nums, name)] == name,
        forall|k: int| 0 <= k < nums.len() && nums[k] == name ==> name_index(nums, name) >= 0
            && name_index(nums, name) <= k,
    decreases nums.len(),
{
    if nums.len() == 0 {
    } else if nums[0] == name {
    } else {
        lemma_name_index_first(nums.skip(1), name);
        assert forall|k: int| 0 <= k < nums.len() && nums[k] == name implies name_index(nums, name)
            >= 0 && name_index(nums, name) <= k by {
            assert(k >= 1);
            assert(nums.skip(1)[k - 1] == nums[k]);
        }
    }
}

/// A name that is not yet in the table lands at its end.
pub proof fn lemma_name_index_push_self(nums: Seq<Seq<u8>>, name: Seq<u8>)
    requires
        name_index(nums, name) == -1,
    ensures
        name_index(nums.push(name), name) == nums.len(),
    decreases nums.len(),
{
    if nums.len() == 0 {
        assert(nums.push(name)[0] == name);
    } else {
        assert(nums[0] != name);
        assert(nums.push(name)[0] == nums[0]);
        assert(nums.push(name).skip(1) =~= nums.skip(1).push(name));
        lemma_name_index_push_self(nums.skip(1), name);
    }
}

/// Extending the table with another name moves no assigned name.
pub proof fn lemma_name_index_push_other(nums: Seq<Seq<u8>>, name: Seq<u8>, other: Seq<u8>)
    requires
        name_index(nums, name) >= 0,
    ensures
        name_index(nums.push(other), name) == name_index(nums, name),
{
    lemma_name_index_first(nums, name);
    lemma_name_index_first(nums.push(other), name);
    let i = name_index(nums, name);
    let j = name_index(nums.push(other), name);
    assert(nums.push(other)[i] == name);
    assert(j >= 0 && j <= i);
    if j < i {
        assert(nums.push(other)[j] == name);
        assert(nums[j] == name);
    }
}

/// Footnote numbering is stable: a second reference to a name yields the
/// same number as the first and leaves the table unchanged.
pub proof fn lemma_footnote_number_stable(nums: Seq<Seq<u8>>, name: Seq<u8>)
    ensures
        footnote_number(footnote_nums(nums, name), name) == footnote_number(nums, name),
        footnote_nums(footnote_nums(nums, name), name) == footnote_nums(nums, name),
{
    if name_index(nums, name) >= 0 {
    } else {
        lemma_name_index_push_self(nums, name);
    }
}

/// A number is never reused across names: once `name` has been referenced, a
/// reference to a different name yields a different number.
pub proof fn lemma_footnote_numbers_distinct(nums: Seq<Seq<u8>>, name: Seq<u8>, other: Seq<u8>)
    requires
        name != other,
    ensures
        footnote_number(footnote_nums(nums, name), other) != footnote_number(
            footnote_nums(nums, name),
            name,
        ),
{
    let nums1 = footnote_nums(nums, name);
    lemma_name_index_first(nums, name);
    if name_index(nums, name) >= 0 {
    } else {
        lemma_name_index_push_self(nums, name);
    }
    let i = name_index(nums1, name);
    assert(i >= 0);
    lemma_name_index_first(nums1, name);
    lemma_name_index_first(nums1, other);
    let j = name_index(nums1, other);
    if j >= 0 {
        assert(nums1[i] == name && nums1[j] == other);
    }
}

/// A number once assigned is never renumbered: a reference to any other name
/// keeps the number of `name` as it is.
pub proof fn lemma_footnote_number_preserved(nums: Seq<Seq<u8>>, name: Seq<u8>, other: Seq<u8>)
    requires
        name_index(nums, name) >= 0,
    ensures
        footnote_number(footnote_nums(nums, other), name) == footnote_number(nums, name),
{
    if name_index(nums, other) >= 0 {
    } else {
        lemma_name_index_push_other(nums, name, other);
    }
}

} // verus!
