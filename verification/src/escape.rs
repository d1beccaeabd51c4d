//! HTML text escaping, href-attribute escaping, and decimal formatting,
//! each verified against a spec-level description of the emitted bytes.

use vstd::prelude::*;
use crate::lit::{
    s_amp_ent, s_lt_ent, s_gt_ent, s_quot_ent, s_apos_ent,
    push_amp_ent, push_lt_ent, push_gt_ent, push_quot_ent, push_apos_ent,
};

verus! {

/// Append the bytes `s[from..to]` to `buf`.
pub fn push_range(buf: &mut Vec<u8>, s: &Vec<u8>, from: usize, to: usize)
    requires
        from <= to <= s@.len(),
    ensures
        final(buf)@ == old(buf)@ + s@.subrange(from as int, to as int),
{
    let ghost orig: Seq<u8> = buf@;
    let mut i: usize = from;
    while i < to
        invariant
            from <= i <= to <= s@.len(),
            buf@ == orig + s@.subrange(from as int, i as int),
        decreases to - i,
    {
        buf.push(s[i]);
        proof {
            assert(s@.subrange(from as int, i + 1) =~= s@.subrange(from as int, i as int).push(
                s@[i as int],
            ));
        }
        i = i + 1;
    }
}

/// Append all of `s` to `buf`.
pub fn append_bytes(buf: &mut Vec<u8>, s: &Vec<u8>)
    ensures
        final(buf)@ == old(buf)@ + s@,
{
    let n = s.len();
    push_range(buf, s, 0, n);
    proof {
        assert(s@.subrange(0, s@.len() as int) =~= s@);
    }
}

/// Return a copy of the bytes of `s`.
pub fn copy_bytes(s: &Vec<u8>) -> (r: Vec<u8>)
    ensures
        r@ == s@,
{
    let mut r: Vec<u8> = Vec::new();
    append_bytes(&mut r, s);
    proof {
        assert(Seq::<u8>::empty() + s@ =~= s@);
    }
    r
}

/// What HTML escaping turns one byte into: `&`, `<` and `>` become entities,
/// `"` becomes one only when `quotes` is set, all else passes through.
pub open spec fn esc_html_byte(b: u8, quotes: bool) -> Seq<u8> {
    if b == 38 {
        s_amp_ent()
    } else if b == 60 {
        s_lt_ent()
    } else if b == 62 {
        s_gt_ent()
    } else if quotes && b == 34 {
        s_quot_ent()
    } else {
        seq![b]
    }
}

/// The HTML escaping of a whole byte string.
pub open spec fn esc_html(s: Seq<u8>, quotes: bool) -> Seq<u8>
    decreases s.len(),
{
    if s.len() == 0 {
        Seq::empty()
    } else {
        esc_html_byte(s[0], quotes) + esc_html(s.skip(1), quotes)
    }
}

/// Append `text` to `dst` with `&` as `&amp;`, `<` as `&lt;`, `>` as `&gt;`,
/// and, only when `escape_quotes` is set, `"` as `&quot;`.
pub fn escape_html(dst: &mut Vec<u8>, text: &Vec<u8>, escape_quotes: bool)
    ensures
        final(dst)@ == old(dst)@ + esc_html(text@, escape_quotes),
{
    let ghost orig: Seq<u8> = dst@;
    let ghost whole: Seq<u8> = esc_html(text@, escape_quotes);
    proof {
        assert(text@.skip(0) =~= text@);
    }
    let mut i: usize = 0;
    while i < text.len()
        invariant
            i <= text@.len(),
            whole == esc_html(text@, escape_quotes),
            dst@ + esc_html(text@.skip(i as int), escape_quotes) == orig + whole,
        decreases text@.len() - i,
    {
        proof {
            assert(text@.skip(i as int)[0] == text@[i as int]);
            assert(text@.skip(i as int).skip(1) =~= text@.skip(i + 1));
        }
        let ghost before: Seq<u8> = dst@;
        let b = text[i];
        if b == 38 {
            push_amp_ent(dst);
        } else if b == 60 {
            push_lt_ent(dst);
        } else if b == 62 {
            push_gt_ent(dst);
        } else if escape_quotes && b == 34 {
            push_quot_ent(dst);
        } else {
            dst.push(b);
            proof {
                assert(dst@ =~= before + seq![b]);
            }
        }
        proof {
            assert(dst@ == before + esc_html_byte(text@[i as int], escape_quotes));
            assert(dst@ + esc_html(text@.skip(i + 1), escape_quotes) =~= before + esc_html(
                text@.skip(i as int),
                escape_quotes,
            ));
        }
        i = i + 1;
    }
    proof {
        assert(text@.skip(text@.len() as int) =~= Seq::<u8>::empty());
        assert(dst@ =~= orig + whole);
    }
}

/// Escaped text can never be read back as markup: the HTML escaping of any
/// byte string contains no `<` and no `>`, and, when quotes are escaped, no
/// `"` either.
pub proof fn lemma_esc_html_no_markup(s: Seq<u8>, quotes: bool)
    ensures
        forall|k: int|
            0 <= k < esc_html(s, quotes).len() ==> esc_html(s, quotes)[k] != 60 && esc_html(
                s,
                quotes,
            )[k] != 62 && (quotes ==> esc_html(s, quotes)[k] != 34),
    decreases s.len(),
{
    if s.len() == 0 {
    } else {
        lemma_esc_html_no_markup(s.skip(1), quotes);
        let head = esc_html_byte(s[0], quotes);
        let rest = esc_html(s.skip(1), quotes);
        assert forall|k: int| 0 <= k < esc_html(s, quotes).len() implies esc_html(s, quotes)[k]
            != 60 && esc_html(s, quotes)[k] != 62 && (quotes ==> esc_html(s, quotes)[k]
            != 34) by {
            if k < head.len() {
                assert(esc_html(s, quotes)[k] == head[k]);
            } else {
                assert(esc_html(s, quotes)[k] == rest[k - head.len()]);
            }
        }
    }
}

/// Bytes that pass through href escaping unchanged: ASCII alphanumerics and
/// `! # $ % ( ) * + , - . / : ; = ? @ _ ~`.
pub open spec fn href_safe(b: u8) -> bool {
    (48 <= b <= 57) || (65 <= b <= 90) || (97 <= b <= 122) || b == 33 || (35 <= b <= 37) || (40 <= b
        <= 47) || b == 58 || b == 59 || b == 61 || b == 63 || b == 64 || b == 95 || b == 126
}

/// The byte for one hexadecimal digit, upper case.
pub open spec fn hex_digit(n: int) -> u8 {
    if n < 10 {
        (48 + n) as u8
    } else {
        (55 + n) as u8
    }
}

/// What href escaping turns one byte into: safe bytes pass through, `&`
/// becomes `&amp;`, `'` becomes `&#x27;`, all else is percent-encoded.
pub open spec fn esc_href_byte(b: u8) -> Seq<u8> {
    if href_safe(b) {
        seq![b]
    } else if b == 38 {
        s_amp_ent()
    } else if b == 39 {
        s_apos_ent()
    } else {
        seq![37u8, hex_digit(b as int / 16), hex_digit(b as int % 16)]
    }
}

/// The href escaping of a whole byte string.
pub open spec fn esc_href(s: Seq<u8>) -> Seq<u8>
    decreases s.len(),
{
    if s.len() == 0 {
        Seq::empty()
    } else {
        esc_href_byte(s[0]) + esc_href(s.skip(1))
    }
}

/// Whether an exec byte is href-safe; mirrors `href_safe`.
fn is_href_safe(b: u8) -> (r: bool)
    ensures
        r == href_safe(b),
{
    (48 <= b && b <= 57) || (65 <= b && b <= 90) || (97 <= b && b <= 122) || b == 33 || (35 <= b
        && b <= 37) || (40 <= b && b <= 47) || b == 58 || b == 59 || b == 61 || b == 63 || b == 64
        || b == 95 || b == 126
}

/// Append `url` to `dst`, escaping bytes unsafe in an HTML attribute value:
/// `&` and `'` as entities, other unsafe bytes percent-encoded.
pub fn escape_href(dst: &mut Vec<u8>, url: &Vec<u8>)
    ensures
        final(dst)@ == old(dst)@ + esc_href(url@),
{
    let ghost orig: Seq<u8> = dst@;
    let ghost whole: Seq<u8> = esc_href(url@);
    proof {
        assert(url@.skip(0) =~= url@);
    }
    let mut i: usize = 0;
    while i < url.len()
        invariant
            i <= url@.len(),
            whole == esc_href(url@),
            dst@ + esc_href(url@.skip(i as int)) == orig + whole,
        decreases url@.len() - i,
    {
        proof {
            assert(url@.skip(i as int)[0] == url@[i as int]);
            assert(url@.skip(i as int).skip(1) =~= url@.skip(i + 1));
        }
        let ghost before: Seq<u8> = dst@;
        let b = url[i];
        if is_href_safe(b) {
            dst.push(b);
            proof {
                assert(dst@ =~= before + seq![b]);
            }
        } else if b == 38 {
            push_amp_ent(dst);
        } else if b == 39 {
            push_apos_ent(dst);
        } else {
            let hi = b / 16;
            let lo = b % 16;
            dst.push(37);
            dst.push(if hi < 10 { 48 + hi } else { 55 + hi });
            dst.push(if lo < 10 { 48 + lo } else { 55 + lo });
            proof {
                assert(dst@ =~= before + seq![
                    37u8,
                    hex_digit(b as int / 16),
                    hex_digit(b as int % 16),
                ]);
            }
        }
        proof {
            assert(dst@ == before + esc_href_byte(url@[i as int]));
            assert(dst@ + esc_href(url@.skip(i + 1)) =~= before + esc_href(url@.skip(i as int)));
        }
        i = i + 1;
    }
    proof {
        assert(url@.skip(url@.len() as int) =~= Seq::<u8>::empty());
        assert(dst@ =~= orig + whole);
    }
}

/// The decimal digits of `n`, most significant first.
pub open spec fn dec_seq(n: nat) -> Seq<u8>
    decreases n,
{
    if n < 10 {
        seq![(48 + n) as u8]
    } else {
        dec_seq(n / 10).push((48 + n % 10) as u8)
    }
}

/// Append the decimal digits of `n` to `buf`.
pub fn push_dec(buf: &mut Vec<u8>, n: usize)
    ensures
        final(buf)@ == old(buf)@ + dec_seq(n as nat),
    decreases n,
{
    if n < 10 {
        buf.push(48 + (n as u8));
        proof {
            assert(buf@ =~= old(buf)@ + dec_seq(n as nat));
        }
    } else {
        let q = n / 10;
        let r = n % 10;
        proof {
            assert(q < n) by (nonlinear_arith)
                requires
                    q == n / 10,
                    10 <= n,
            ;
        }
        push_dec(buf, q);
        buf.push(48 + (r as u8));
        proof {
            assert(buf@ =~= old(buf)@ + dec_seq(n as nat));
        }
    }
}

} // verus!
