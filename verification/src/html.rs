//! The executable renderer: a context holding the output buffer, the
//! footnote table and the table sub-state, with one handler per event kind,
//! each proved to produce exactly what the spec model says.

use vstd::prelude::*;
use crate::autolink::{autolink, find_urls};
use crate::escape::{append_bytes, copy_bytes, escape_html, escape_href, push_dec};
use crate::events::{classic_config, Align, Config, Event, Tag};
use crate::lit::{
    push_al_center, push_al_left, push_al_right, push_a_c, push_a_href, push_b_c, push_b_o,
    push_big_c, push_big_o, push_br, push_brk_c, push_brk_o, push_colon_sp, push_gt, push_i_c,
    push_i_o, push_quot, push_quot_gt, push_style_align, push_sup_c, push_sup_o, push_table_c,
    push_table_o, push_td_c, push_td_o, push_th_c, push_th_o, push_thead_c, push_thead_o,
    push_nl, push_sp, push_title_attr, push_tr_c, push_tr_o, push_tt_c, push_tt_c_nl, push_tt_o,
};
use crate::model::{
    end_tag_st, footnote_inline_out, footnote_number, footnote_nums, footnote_plain_out,
    fresh_line_seq, init_st, lemma_name_index_first, name_index, raw_run_st, raw_step_st, run_st,
    start_tag_st, step_st, text_out, St,
};

verus! {

/// The footnote table as a sequence of names.
pub open spec fn names_view(v: Seq<Vec<u8>>) -> Seq<Seq<u8>> {
    Seq::new(v.len(), |i| v[i]@)
}

/// The rendering context: the output buffer, the footnote name table, the
/// captured table column alignments with the current section and cell index,
/// and the configuration the context was made with.
pub struct Ctx {
    pub cfg: Config,
    pub buf: Vec<u8>,
    pub numbers: Vec<Vec<u8>>,
    pub aligns: Vec<Align>,
    pub in_head: bool,
    pub cell: usize,
}

impl View for Ctx {
    type V = St;

    open spec fn view(&self) -> St {
        St {
            buf: self.buf@,
            nums: names_view(self.numbers@),
            aligns: self.aligns@,
            in_head: self.in_head,
            cell: self.cell as int,
        }
    }
}

/// Whether two byte strings hold the same bytes.
fn bytes_eq(a: &Vec<u8>, b: &Vec<u8>) -> (r: bool)
    ensures
        r == (a@ == b@),
{
    if a.len() != b.len() {
        return false;
    }
    let mut i: usize = 0;
    while i < a.len()
        invariant
            i <= a@.len(),
            a@.len() == b@.len(),
            forall|k: int| 0 <= k < i ==> a@[k] == b@[k],
        decreases a@.len() - i,
    {
        if a[i] != b[i] {
            return false;
        }
        i = i + 1;
    }
    proof {
        assert(a@ =~= b@);
    }
    true
}

/// Return a copy of a column alignment vector.
fn copy_aligns(v: &Vec<Align>) -> (r: Vec<Align>)
    ensures
        r@ == v@,
{
    let mut r: Vec<Align> = Vec::new();
    let mut i: usize = 0;
    while i < v.len()
        invariant
            i <= v@.len(),
            r@ == v@.take(i as int),
        decreases v@.len() - i,
    {
        r.push(v[i]);
        proof {
            assert(v@.take(i + 1) =~= v@.take(i as int).push(v@[i as int]));
        }
        i = i + 1;
    }
    proof {
        assert(v@.take(v@.len() as int) =~= v@);
    }
    r
}

impl Ctx {
    /// A fresh context with an empty buffer and empty tables.
    pub fn new(cfg: Config) -> (c: Ctx)
        ensures
            c@ == init_st(Seq::<u8>::empty()),
            c.cfg == cfg,
    {
        let c = Ctx {
            cfg,
            buf: Vec::new(),
            numbers: Vec::new(),
            aligns: Vec::new(),
            in_head: false,
            cell: 0,
        };
        proof {
            assert(c@ =~= init_st(Seq::<u8>::empty()));
        }
        c
    }

    /// Append a newline unless the buffer is empty or already ends in one.
    pub fn fresh_line(&mut self)
        ensures
            final(self)@ == (St { buf: fresh_line_seq(old(self)@.buf), ..old(self)@ }),
            final(self).cfg == old(self).cfg,
    {
        let n = self.buf.len();
        if n == 0 {
        } else if self.buf[n - 1] == 10 {
        } else {
            push_nl(&mut self.buf);
        }
        proof {
            assert(self@ =~= (St { buf: fresh_line_seq(old(self)@.buf), ..old(self)@ }));
        }
    }

    /// Look up the number of `name`, assigning the next one on a first
    /// reference, and return it.
    fn assign_number(&mut self, name: &Vec<u8>) -> (n: usize)
        ensures
            n as int == footnote_number(old(self)@.nums, name@),
            final(self)@ == (St { nums: footnote_nums(old(self)@.nums, name@), ..old(self)@ }),
            final(self).cfg == old(self).cfg,
    {
        let ghost nums = self@.nums;
        let mut j: usize = 0;
        while j < self.numbers.len()
            invariant
                j <= self.numbers@.len(),
                nums == names_view(self.numbers@),
                *self == *old(self),
                forall|k: int| 0 <= k < j ==> nums[k] != name@,
            decreases self.numbers@.len() - j,
        {
            if bytes_eq(&self.numbers[j], name) {
                proof {
                    assert(nums[j as int] == name@);
                    lemma_name_index_first(nums, name@);
                    assert(name_index(nums, name@) == j);
                }
                return j + 1;
            }
            j = j + 1;
        }
        proof {
            lemma_name_index_first(nums, name@);
            assert(name_index(nums, name@) == -1);
        }
        let entry = copy_bytes(name);
        self.numbers.push(entry);
        proof {
            assert(names_view(self.numbers@) =~= nums.push(name@));
            assert(self@ =~= (St { nums: footnote_nums(nums, name@), ..old(self)@ }));
        }
        self.numbers.len()
    }

    /// Render an inline footnote reference: a numbered superscript anchor
    /// whose target is the escaped name.
    fn footnote(&mut self, name: &Vec<u8>)
        ensures
            final(self)@ == (St {
                buf: old(self)@.buf + footnote_inline_out(old(self)@.nums, name@),
                nums: footnote_nums(old(self)@.nums, name@),
                ..old(self)@
            }),
            final(self).cfg == old(self).cfg,
    {
        push_sup_o(&mut self.buf);
        escape_html(&mut self.buf, name, false);
        push_quot_gt(&mut self.buf);
        let n = self.assign_number(name);
        push_dec(&mut self.buf, n);
        push_sup_c(&mut self.buf);
        proof {
            assert(self@ =~= (St {
                buf: old(self)@.buf + footnote_inline_out(old(self)@.nums, name@),
                nums: footnote_nums(old(self)@.nums, name@),
                ..old(self)@
            }));
        }
    }

    /// Render a footnote reference in raw-text mode: the bracketed number,
    /// with the same numbering table.
    fn footnote_plain(&mut self, name: &Vec<u8>)
        ensures
            final(self)@ == (St {
                buf: old(self)@.buf + footnote_plain_out(old(self)@.nums, name@),
                nums: footnote_nums(old(self)@.nums, name@),
                ..old(self)@
            }),
            final(self).cfg == old(self).cfg,
    {
        push_brk_o(&mut self.buf);
        let n = self.assign_number(name);
        push_dec(&mut self.buf, n);
        push_brk_c(&mut self.buf);
        proof {
            assert(self@ =~= (St {
                buf: old(self)@.buf + footnote_plain_out(old(self)@.nums, name@),
                nums: footnote_nums(old(self)@.nums, name@),
                ..old(self)@
            }));
        }
    }

    /// Render a text run: escape it, and wrap detected URLs in anchors when
    /// the autolink layer is on.
    fn text(&mut self, s: &Vec<u8>)
        ensures
            final(self)@ == (St {
                buf: old(self)@.buf + text_out(s@, old(self).cfg),
                ..old(self)@
            }),
            final(self).cfg == old(self).cfg,
    {
        let mut e: Vec<u8> = Vec::new();
        escape_html(&mut e, s, false);
        proof {
            assert(e@ =~= crate::escape::esc_html(s@, false));
        }
        if self.cfg.autolink {
            let spans = find_urls(&e);
            let mut a = autolink(&e, &spans);
            self.buf.append(&mut a);
        } else {
            self.buf.append(&mut e);
        }
        proof {
            assert(self@ =~= (St {
                buf: old(self)@.buf + text_out(s@, old(self).cfg),
                ..old(self)@
            }));
        }
    }

    /// Emit the opening markup of a tag.
    pub fn start_tag(&mut self, tag: &Tag)
        ensures
            final(self)@ == start_tag_st(old(self)@, tag.deep_view(), old(self).cfg),
            final(self).cfg == old(self).cfg,
    {
        match tag {
            Tag::Header(_) => {
                self.fresh_line();
                push_big_o(&mut self.buf);
            },
            Tag::CodeBlock(_) => {
                self.fresh_line();
                push_tt_o(&mut self.buf);
            },
            Tag::Emphasis => push_i_o(&mut self.buf),
            Tag::Strong => push_b_o(&mut self.buf),
            Tag::Code => push_tt_o(&mut self.buf),
            Tag::Link(dest, title) => {
                push_a_href(&mut self.buf);
                escape_href(&mut self.buf, dest);
                if title.len() > 0 {
                    push_title_attr(&mut self.buf);
                    escape_html(&mut self.buf, title, false);
                }
                push_quot_gt(&mut self.buf);
            },
            Tag::Table(aligns) => {
                if self.cfg.table_support {
                    self.fresh_line();
                    push_table_o(&mut self.buf);
                    self.aligns = copy_aligns(aligns);
                    self.in_head = true;
                    self.cell = 0;
                }
            },
            Tag::TableHead => {
                if self.cfg.table_support {
                    push_thead_o(&mut self.buf);
                    self.in_head = true;
                    self.cell = 0;
                }
            },
            Tag::TableRow => {
                if self.cfg.table_support {
                    push_tr_o(&mut self.buf);
                    self.cell = 0;
                }
            },
            Tag::TableCell => {
                if self.cfg.table_support {
                    if self.in_head {
                        push_th_o(&mut self.buf);
                    } else {
                        push_td_o(&mut self.buf);
                    }
                    if self.cell < self.aligns.len() {
                        match self.aligns[self.cell] {
                            Align::Unspecified => {},
                            Align::Left => {
                                push_style_align(&mut self.buf);
                                push_al_left(&mut self.buf);
                                push_quot(&mut self.buf);
                            },
                            Align::Center => {
                                push_style_align(&mut self.buf);
                                push_al_center(&mut self.buf);
                                push_quot(&mut self.buf);
                            },
                            Align::Right => {
                                push_style_align(&mut self.buf);
                                push_al_right(&mut self.buf);
                                push_quot(&mut self.buf);
                            },
                        }
                    }
                    push_gt(&mut self.buf);
                }
            },
            _ => {},
        }
        proof {
            assert(self@ =~= start_tag_st(old(self)@, tag.deep_view(), old(self).cfg));
        }
    }

    /// Emit the closing markup of a tag.
    pub fn end_tag(&mut self, tag: &Tag)
        ensures
            final(self)@ == end_tag_st(old(self)@, tag.deep_view(), old(self).cfg),
            final(self).cfg == old(self).cfg,
    {
        match tag {
            Tag::Header(_) => push_big_c(&mut self.buf),
            Tag::CodeBlock(_) => push_tt_c_nl(&mut self.buf),
            Tag::Emphasis => push_i_c(&mut self.buf),
            Tag::Strong => push_b_c(&mut self.buf),
            Tag::Code => push_tt_c(&mut self.buf),
            Tag::Link(dest, _) => {
                if self.cfg.raw_text_links_as_plain {
                    push_colon_sp(&mut self.buf);
                    append_bytes(&mut self.buf, dest);
                } else {
                    push_a_c(&mut self.buf);
                }
            },
            Tag::Table(_) => {
                if self.cfg.table_support {
                    push_table_c(&mut self.buf);
                    push_nl(&mut self.buf);
                }
            },
            Tag::TableHead => {
                if self.cfg.table_support {
                    push_thead_c(&mut self.buf);
                    self.in_head = false;
                }
            },
            Tag::TableRow => {
                if self.cfg.table_support {
                    push_tr_c(&mut self.buf);
                }
            },
            Tag::TableCell => {
                if self.cfg.table_support {
                    if self.in_head {
                        push_th_c(&mut self.buf);
                    } else {
                        push_td_c(&mut self.buf);
                    }
                    if self.cell < usize::MAX {
                        self.cell = self.cell + 1;
                    }
                }
            },
            _ => {},
        }
        proof {
            assert(self@ =~= end_tag_st(old(self)@, tag.deep_view(), old(self).cfg));
        }
    }

    /// Consume the whole event stream in order, dispatching each event to
    /// its handler.
    pub fn run(&mut self, events: &Vec<Event>)
        ensures
            final(self)@ == run_st(old(self)@, events.deep_view(), old(self).cfg),
            final(self).cfg == old(self).cfg,
    {
        let ghost st0 = self@;
        let ghost evs = events.deep_view();
        let ghost cfg0 = self.cfg;
        proof {
            assert(evs.skip(0) =~= evs);
        }
        let mut i: usize = 0;
        while i < events.len()
            invariant
                i <= events@.len(),
                evs == events.deep_view(),
                evs.len() == events@.len(),
                self.cfg == cfg0,
                run_st(self@, evs.skip(i as int), cfg0) == run_st(st0, evs, cfg0),
            decreases events@.len() - i,
        {
            let ghost pre = self@;
            proof {
                assert(evs.skip(i as int)[0] == evs[i as int]);
                assert(evs.skip(i as int).skip(1) =~= evs.skip(i + 1));
            }
            let ev = &events[i];
            proof {
                assert(ev.deep_view() == evs[i as int]);
            }
            match ev {
                Event::Start(tag) => self.start_tag(tag),
                Event::End(tag) => self.end_tag(tag),
                Event::Text(s) => self.text(s),
                Event::Html(s) => append_bytes(&mut self.buf, s),
                Event::InlineHtml(s) => append_bytes(&mut self.buf, s),
                Event::SoftBreak => push_nl(&mut self.buf),
                Event::HardBreak => push_br(&mut self.buf),
                Event::FootnoteReference(name) => self.footnote(name),
            }
            proof {
                assert(self@ =~= step_st(pre, evs[i as int], cfg0));
                assert(run_st(self@, evs.skip(i + 1), cfg0) == run_st(st0, evs, cfg0));
            }
            i = i + 1;
        }
        proof {
            assert(evs.skip(evs.len() as int) =~= Seq::<crate::events::EvV>::empty());
        }
    }

    /// Consume events from `start` until the end tag matching the start tag
    /// just before `start`, flattening the subtree: text is escaped, markup
    /// wrappers and raw HTML are dropped, breaks become one space, and
    /// footnote references become bracketed numbers. Returns the position
    /// just after the matching end tag.
    pub fn raw_text(&mut self, events: &Vec<Event>, start: usize) -> (end: usize)
        requires
            start <= events@.len(),
        ensures
            final(self)@ == raw_run_st(old(self)@, events.deep_view(), start as int, 0).0,
            end as int == raw_run_st(old(self)@, events.deep_view(), start as int, 0).1,
            end <= events@.len(),
            final(self).cfg == old(self).cfg,
    {
        let ghost st0 = self@;
        let ghost evs = events.deep_view();
        let ghost cfg0 = self.cfg;
        let mut i: usize = start;
        let mut depth: usize = 0;
        while i < events.len()
            invariant
                start <= i <= events@.len(),
                evs == events.deep_view(),
                evs.len() == events@.len(),
                st0 == old(self)@,
                depth <= i - start,
                self.cfg == cfg0,
                cfg0 == old(self).cfg,
                raw_run_st(self@, evs, i as int, depth as nat) == raw_run_st(
                    st0,
                    evs,
                    start as int,
                    0,
                ),
            decreases events@.len() - i,
        {
            let ghost pre = self@;
            let ev = &events[i];
            proof {
                assert(ev.deep_view() == evs[i as int]);
            }
            match ev {
                Event::Start(_) => {
                    depth = depth + 1;
                },
                Event::End(_) => {
                    if depth == 0 {
                        proof {
                            assert(raw_run_st(pre, evs, i as int, 0nat) == (pre, i + 1));
                        }
                        return i + 1;
                    } else {
                        depth = depth - 1;
                    }
                },
                Event::Text(s) => {
                    escape_html(&mut self.buf, s, false);
                    proof {
                        assert(self@ =~= raw_step_st(pre, evs[i as int]));
                    }
                },
                Event::Html(_) => {},
                Event::InlineHtml(s) => {
                    escape_html(&mut self.buf, s, false);
                    proof {
                        assert(self@ =~= raw_step_st(pre, evs[i as int]));
                    }
                },
                Event::SoftBreak => {
                    push_sp(&mut self.buf);
                    proof {
                        assert(self@ =~= raw_step_st(pre, evs[i as int]));
                    }
                },
                Event::HardBreak => {
                    push_sp(&mut self.buf);
                    proof {
                        assert(self@ =~= raw_step_st(pre, evs[i as int]));
                    }
                },
                Event::FootnoteReference(name) => {
                    self.footnote_plain(name);
                    proof {
                        assert(self@ =~= raw_step_st(pre, evs[i as int]));
                    }
                },
            }
            proof {
                assert(raw_run_st(self@, evs, i + 1, depth as nat) == raw_run_st(
                    st0,
                    evs,
                    start as int,
                    0,
                ));
            }
            i = i + 1;
        }
        i
    }
}

/// Render the whole event stream onto the end of `buf` with the classic
/// configuration: autolinking on, anchors closed with `</a>`, table tags
/// ignored.
pub fn push_html(buf: &mut Vec<u8>, events: &Vec<Event>)
    ensures
        final(buf)@ == run_st(init_st(old(buf)@), events.deep_view(), classic_config()).buf,
{
    let mut ctx = Ctx::new(Config::classic());
    core::mem::swap(&mut ctx.buf, buf);
    proof {
        assert(ctx@ =~= init_st(old(buf)@));
    }
    ctx.run(events);
    core::mem::swap(&mut ctx.buf, buf);
}

} // verus!
