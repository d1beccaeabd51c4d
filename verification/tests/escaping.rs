use mdhtml::autolink::autolink;
use mdhtml::escape::{escape_href, escape_html, push_dec};

#[test]
fn html_escaping_without_quotes() {
    let mut buf = Vec::new();
    escape_html(&mut buf, &b"a&b<c>d\"e'f".to_vec(), false);
    assert_eq!(buf, b"a&amp;b&lt;c&gt;d\"e'f".to_vec());
}

#[test]
fn html_escaping_with_quotes() {
    let mut buf = Vec::new();
    escape_html(&mut buf, &b"a\"b".to_vec(), true);
    assert_eq!(buf, b"a&quot;b".to_vec());
}

#[test]
fn html_escaping_appends() {
    let mut buf = b"x".to_vec();
    escape_html(&mut buf, &b"<".to_vec(), false);
    assert_eq!(buf, b"x&lt;".to_vec());
}

#[test]
fn href_escaping_passes_url_bytes_through() {
    let mut buf = Vec::new();
    escape_href(&mut buf, &b"http://x.test/a-b_c.d~e/?q=1&r=2#f".to_vec());
    assert_eq!(buf, b"http://x.test/a-b_c.d~e/?q=1&amp;r=2#f".to_vec());
}

#[test]
fn href_escaping_encodes_unsafe_bytes() {
    let mut buf = Vec::new();
    escape_href(&mut buf, &b"a b\"c<d>e'f".to_vec());
    assert_eq!(buf, b"a%20b%22c%3Cd%3Ee&#x27;f".to_vec());
}

#[test]
fn href_escaping_percent_encodes_non_ascii() {
    let mut buf = Vec::new();
    escape_href(&mut buf, &vec![0xC3, 0xA9]);
    assert_eq!(buf, b"%C3%A9".to_vec());
}

#[test]
fn decimal_digits() {
    let mut buf = Vec::new();
    push_dec(&mut buf, 0);
    push_dec(&mut buf, 7);
    push_dec(&mut buf, 10);
    push_dec(&mut buf, 905);
    assert_eq!(buf, b"0710905".to_vec());
}

#[test]
fn autolink_wraps_given_spans() {
    let out = autolink(&b"see x now".to_vec(), &vec![(4, 5)]);
    assert_eq!(out, b"see <a href=\"x\">x</a> now".to_vec());
}

#[test]
fn autolink_escapes_href_but_not_link_text() {
    let out = autolink(&b"a'b".to_vec(), &vec![(0, 3)]);
    assert_eq!(out, b"<a href=\"a&#x27;b\">a'b</a>".to_vec());
}

#[test]
fn autolink_skips_overlapping_and_bad_spans() {
    // (0,2) overlaps the first span; (9,5) runs backwards; (5,99) is out of bounds
    let out = autolink(&b"ab cd".to_vec(), &vec![(0, 1), (0, 2), (9, 5), (5, 99), (3, 5)]);
    assert_eq!(out, b"<a href=\"a\">a</a>b <a href=\"cd\">cd</a>".to_vec());
}

#[test]
fn autolink_with_no_spans_is_identity() {
    let out = autolink(&b"plain".to_vec(), &vec![]);
    assert_eq!(out, b"plain".to_vec());
}
