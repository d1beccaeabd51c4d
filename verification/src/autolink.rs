//! Autolinking of bare URLs: an external detector reports byte spans that
//! look like URLs, and a verified pass wraps each span in anchor markup.

use vstd::prelude::*;
use crate::escape::{esc_href, escape_href, push_range};
use crate::lit::{s_a_href, s_quot_gt, s_a_c, push_a_href, push_quot_gt, push_a_c};

verus! {

/// The byte spans of the URL-shaped substrings the external link detector
/// reports for a given byte string, in the order it reports them.
pub uninterp spec fn url_spans(s: Seq<u8>) -> Seq<(usize, usize)>;

/// Relies on linkify's `LinkFinder`, restricted to URL-kind matches, for the
/// byte ranges of URL-shaped substrings: they depend on the input text alone.
/// Input that is not valid UTF-8 yields no spans.
#[verifier::external_body]
pub(crate) fn find_urls(s: &Vec<u8>) -> (r: Vec<(usize, usize)>)
    ensures
        r@ == url_spans(s@),
{
    match core::str::from_utf8(s.as_slice()) {
        Ok(text) => {
            let mut finder = linkify::LinkFinder::new();
            finder.kinds(&[linkify::LinkKind::Url]);
            finder.links(text).map(|l| (l.start(), l.end())).collect()
        },
        Err(_) => Vec::new(),
    }
}

/// The anchor markup opening a detected URL: `<a href="` plus the
/// href-escaped URL plus `">`.
pub open spec fn anchor_open(url: Seq<u8>) -> Seq<u8> {
    s_a_href() + esc_href(url) + s_quot_gt()
}

/// The bytes of `s` from position `cur` on, with each reported span wrapped
/// in anchor markup. Spans are taken in the order given; one that starts
/// before the end of the span last taken, runs backwards, or reaches past the
/// end of `s` is skipped.
pub open spec fn autolink_from(s: Seq<u8>, spans: Seq<(usize, usize)>, cur: int) -> Seq<u8>
    decreases spans.len(),
{
    if !(0 <= cur <= s.len()) {
        Seq::empty()
    } else if spans.len() == 0 {
        s.skip(cur)
    } else {
        let a = spans[0].0;
        let b = spans[0].1;
        if cur <= a && a <= b && b <= s.len() {
            s.subrange(cur, a as int) + anchor_open(s.subrange(a as int, b as int)) + s.subrange(
                a as int,
                b as int,
            ) + s_a_c() + autolink_from(s, spans.skip(1), b as int)
        } else {
            autolink_from(s, spans.skip(1), cur)
        }
    }
}

/// The whole of `s` with every reported span wrapped in anchor markup.
pub open spec fn autolink_seq(s: Seq<u8>, spans: Seq<(usize, usize)>) -> Seq<u8> {
    autolink_from(s, spans, 0)
}

/// Wrap each given span of `s` in anchor markup, in order, skipping spans
/// that overlap an earlier one or fall outside `s`.
pub fn autolink(s: &Vec<u8>, spans: &Vec<(usize, usize)>) -> (r: Vec<u8>)
    ensures
        r@ == autolink_seq(s@, spans@),
{
    let mut out: Vec<u8> = Vec::new();
    let mut cur: usize = 0;
    let mut j: usize = 0;
    proof {
        assert(spans@.skip(0) =~= spans@);
        assert(Seq::<u8>::empty() + autolink_from(s@, spans@, 0) =~= autolink_from(s@, spans@, 0));
    }
    while j < spans.len()
        invariant
            j <= spans@.len(),
            cur <= s@.len(),
            out@ + autolink_from(s@, spans@.skip(j as int), cur as int) == autolink_seq(s@, spans@),
        decreases spans@.len() - j,
    {
        proof {
            assert(spans@.skip(j as int)[0] == spans@[j as int]);
            assert(spans@.skip(j as int).skip(1) =~= spans@.skip(j + 1));
        }
        let ghost before: Seq<u8> = out@;
        let (a, b) = spans[j];
        if cur <= a && a <= b && b <= s.len() {
            push_range(&mut out, s, cur, a);
            push_a_href(&mut out);
            escape_href_range(&mut out, s, a, b);
            push_quot_gt(&mut out);
            push_range(&mut out, s, a, b);
            push_a_c(&mut out);
            proof {
                assert(out@ =~= before + s@.subrange(cur as int, a as int) + anchor_open(
                    s@.subrange(a as int, b as int),
                ) + s@.subrange(a as int, b as int) + s_a_c());
                assert(out@ + autolink_from(s@, spans@.skip(j + 1), b as int) =~= before
                    + autolink_from(s@, spans@.skip(j as int), cur as int));
            }
            cur = b;
        } else {
            proof {
                assert(autolink_from(s@, spans@.skip(j as int), cur as int) == autolink_from(
                    s@,
                    spans@.skip(j + 1),
                    cur as int,
                ));
            }
        }
        j = j + 1;
    }
    let n = s.len();
    push_range(&mut out, s, cur, n);
    proof {
        assert(spans@.skip(spans@.len() as int) =~= Seq::<(usize, usize)>::empty());
        assert(autolink_from(s@, spans@.skip(spans@.len() as int), cur as int) == s@.skip(
            cur as int,
        ));
        assert(s@.subrange(cur as int, s@.len() as int) =~= s@.skip(cur as int));
    }
    out
}

/// With no spans reported, the autolink transform hands the text back
/// unchanged.
pub proof fn lemma_autolink_no_spans(s: Seq<u8>)
    ensures
        autolink_seq(s, Seq::empty()) == s,
{
    assert(s.skip(0) =~= s);
}

/// One valid span is wrapped in place: the text before and after it stands
/// unchanged, the span's bytes appear once inside the anchor's opening
/// markup (href-escaped) and once as the link text.
pub proof fn lemma_autolink_single_span(s: Seq<u8>, a: usize, b: usize)
    requires
        a <= b <= s.len(),
    ensures
        autolink_seq(s, seq![(a, b)]) == s.take(a as int) + anchor_open(
            s.subrange(a as int, b as int),
        ) + s.subrange(a as int, b as int) + s_a_c() + s.skip(b as int),
{
    let spans: Seq<(usize, usize)> = seq![(a, b)];
    assert(spans.skip(1) =~= Seq::<(usize, usize)>::empty());
    assert(s.subrange(0, a as int) =~= s.take(a as int));
    assert(autolink_from(s, spans.skip(1), b as int) == s.skip(b as int));
}

/// Append the href escaping of `s[from..to]` to `buf`.
fn escape_href_range(buf: &mut Vec<u8>, s: &Vec<u8>, from: usize, to: usize)
    requires
        from <= to <= s@.len(),
    ensures
        final(buf)@ == old(buf)@ + esc_href(s@.subrange(from as int, to as int)),
{
    let mut url: Vec<u8> = Vec::new();
    push_range(&mut url, s, from, to);
    proof {
        assert(url@ =~= s@.subrange(from as int, to as int));
    }
    escape_href(buf, &url);
}

} // verus!
