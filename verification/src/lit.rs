//! Byte-sequence constants for the HTML fragments the renderer emits,
//! each as a spec-level sequence paired with a verified append helper.

use vstd::prelude::*;

verus! {

/// The byte sequence of `"\n"`.
pub open spec fn s_nl() -> Seq<u8> {
    seq![10u8]
}

/// Append `"\n"` to the buffer.
pub fn push_nl(buf: &mut Vec<u8>)
    ensures
        final(buf)@ == old(buf)@ + s_nl(),
{
    buf.push(10);
    assert(buf@ =~= old(buf)@ + s_nl());
}

/// The byte sequence of `"<br />\n"`.
pub open spec fn s_br() -> Seq<u8> {
    seq![60u8, 98, 114, 32, 47, 62, 10]
}

/// Append `"<br />\n"` to the buffer.
pub fn push_br(buf: &mut Vec<u8>)
    ensures
        final(buf)@ == old(buf)@ + s_br(),
{
    buf.push(60);
    buf.push(98);
    buf.push(114);
    buf.push(32);
    buf.push(47);
    buf.push(62);
    buf.push(10);
    assert(buf@ =~= old(buf)@ + s_br());
}

/// The byte sequence of `"<big>"`.
pub open spec fn s_big_o() -> Seq<u8> {
    seq![60u8, 98, 105, 103, 62]
}

/// Append `"<big>"` to the buffer.
pub fn push_big_o(buf: &mut Vec<u8>)
    ensures
        final(buf)@ == old(buf)@ + s_big_o(),
{
    buf.push(60);
    buf.push(98);
    buf.push(105);
    buf.push(103);
    buf.push(62);
    assert(buf@ =~= old(buf)@ + s_big_o());
}

/// The byte sequence of `"</big>"`.
pub open spec fn s_big_c() -> Seq<u8> {
    seq![60u8, 47, 98, 105, 103, 62]
}

/// Append `"</big>"` to the buffer.
pub fn push_big_c(buf: &mut Vec<u8>)
    ensures
        final(buf)@ == old(buf)@ + s_big_c(),
{
    buf.push(60);
    buf.push(47);
    buf.push(98);
    buf.push(105);
    buf.push(103);
    buf.push(62);
    assert(buf@ =~= old(buf)@ + s_big_c());
}

/// The byte sequence of `"<tt>"`.
pub open spec fn s_tt_o() -> Seq<u8> {
    seq![60u8, 116, 116, 62]
}

/// Append `"<tt>"` to the buffer.
pub fn push_tt_o(buf: &mut Vec<u8>)
    ensures
        final(buf)@ == old(buf)@ + s_tt_o(),
{
    buf.push(60);
    buf.push(116);
    buf.push(116);
    buf.push(62);
    assert(buf@ =~= old(buf)@ + s_tt_o());
}

/// The byte sequence of `"</tt>"`.
pub open spec fn s_tt_c() -> Seq<u8> {
    seq![60u8, 47, 116, 116, 62]
}

/// Append `"</tt>"` to the buffer.
pub fn push_tt_c(buf: &mut Vec<u8>)
    ensures
        final(buf)@ == old(buf)@ + s_tt_c(),
{
    buf.push(60);
    buf.push(47);
    buf.push(116);
    buf.push(116);
    buf.push(62);
    assert(buf@ =~= old(buf)@ + s_tt_c());
}

/// The byte sequence of `"</tt>\n"`.
pub open spec fn s_tt_c_nl() -> Seq<u8> {
    seq![60u8, 47, 116, 116, 62, 10]
}

/// Append `"</tt>\n"` to the buffer.
pub fn push_tt_c_nl(buf: &mut Vec<u8>)
    ensures
        final(buf)@ == old(buf)@ + s_tt_c_nl(),
{
    buf.push(60);
    buf.push(47);
    buf.push(116);
    buf.push(116);
    buf.push(62);
    buf.push(10);
    assert(buf@ =~= old(buf)@ + s_tt_c_nl());
}

/// The byte sequence of `"<i>"`.
pub open spec fn s_i_o() -> Seq<u8> {
    seq![60u8, 105, 62]
}

/// Append `"<i>"` to the buffer.
pub fn push_i_o(buf: &mut Vec<u8>)
    ensures
        final(buf)@ == old(buf)@ + s_i_o(),
{
    buf.push(60);
    buf.push(105);
    buf.push(62);
    assert(buf@ =~= old(buf)@ + s_i_o());
}

/// The byte sequence of `"</i>"`.
pub open spec fn s_i_c() -> Seq<u8> {
    seq![60u8, 47, 105, 62]
}

/// Append `"</i>"` to the buffer.
pub fn push_i_c(buf: &mut Vec<u8>)
    ensures
        final(buf)@ == old(buf)@ + s_i_c(),
{
    buf.push(60);
    buf.push(47);
    buf.push(105);
    buf.push(62);
    assert(buf@ =~= old(buf)@ + s_i_c());
}

/// The byte sequence of `"<b>"`.
pub open spec fn s_b_o() -> Seq<u8> {
    seq![60u8, 98, 62]
}

/// Append `"<b>"` to the buffer.
pub fn push_b_o(buf: &mut Vec<u8>)
    ensures
        final(buf)@ == old(buf)@ + s_b_o(),
{
    buf.push(60);
    buf.push(98);
    buf.push(62);
    assert(buf@ =~= old(buf)@ + s_b_o());
}

/// The byte sequence of `"</b>"`.
pub open spec fn s_b_c() -> Seq<u8> {
    seq![60u8, 47, 98, 62]
}

/// Append `"</b>"` to the buffer.
pub fn push_b_c(buf: &mut Vec<u8>)
    ensures
        final(buf)@ == old(buf)@ + s_b_c(),
{
    buf.push(60);
    buf.push(47);
    buf.push(98);
    buf.push(62);
    assert(buf@ =~= old(buf)@ + s_b_c());
}

/// The byte sequence of `"<a href=\""`.
pub open spec fn s_a_href() -> Seq<u8> {
    seq![60u8, 97, 32, 104, 114, 101, 102, 61, 34]
}

/// Append `"<a href=\""` to the buffer.
pub fn push_a_href(buf: &mut Vec<u8>)
    ensures
        final(buf)@ == old(buf)@ + s_a_href(),
{
    buf.push(60);
    buf.push(97);
    buf.push(32);
    buf.push(104);
    buf.push(114);
    buf.push(101);
    buf.push(102);
    buf.push(61);
    buf.push(34);
    assert(buf@ =~= old(buf)@ + s_a_href());
}

/// The byte sequence of `"\" title=\""`.
pub open spec fn s_title_attr() -> Seq<u8> {
    seq![34u8, 32, 116, 105, 116, 108, 101, 61, 34]
}

/// Append `"\" title=\""` to the buffer.
pub fn push_title_attr(buf: &mut Vec<u8>)
    ensures
        final(buf)@ == old(buf)@ + s_title_attr(),
{
    buf.push(34);
    buf.push(32);
    buf.push(116);
    buf.push(105);
    buf.push(116);
    buf.push(108);
    buf.push(101);
    buf.push(61);
    buf.push(34);
    assert(buf@ =~= old(buf)@ + s_title_attr());
}

/// The byte sequence of `"\">"`.
pub open spec fn s_quot_gt() -> Seq<u8> {
    seq![34u8, 62]
}

/// Append `"\">"` to the buffer.
pub fn push_quot_gt(buf: &mut Vec<u8>)
    ensures
        final(buf)@ == old(buf)@ + s_quot_gt(),
{
    buf.push(34);
    buf.push(62);
    assert(buf@ =~= old(buf)@ + s_quot_gt());
}

/// The byte sequence of `"</a>"`.
pub open spec fn s_a_c() -> Seq<u8> {
    seq![60u8, 47, 97, 62]
}

/// Append `"</a>"` to the buffer.
pub fn push_a_c(buf: &mut Vec<u8>)
    ensures
        final(buf)@ == old(buf)@ + s_a_c(),
{
    buf.push(60);
    buf.push(47);
    buf.push(97);
    buf.push(62);
    assert(buf@ =~= old(buf)@ + s_a_c());
}

/// The byte sequence of `"<sup class=\"footnote-reference\"><a href=\"#"`.
pub open spec fn s_sup_o() -> Seq<u8> {
    seq![60u8, 115, 117, 112, 32, 99, 108, 97, 115, 115, 61, 34, 102, 111, 111, 116, 110, 111, 116, 101, 45, 114, 101, 102, 101, 114, 101, 110, 99, 101, 34, 62, 60, 97, 32, 104, 114, 101, 102, 61, 34, 35]
}

/// Append `"<sup class=\"footnote-reference\"><a href=\"#"` to the buffer.
pub fn push_sup_o(buf: &mut Vec<u8>)
    ensures
        final(buf)@ == old(buf)@ + s_sup_o(),
{
    buf.push(60);
    buf.push(115);
    buf.push(117);
    buf.push(112);
    buf.push(32);
    buf.push(99);
    buf.push(108);
    buf.push(97);
    buf.push(115);
    buf.push(115);
    buf.push(61);
    buf.push(34);
    buf.push(102);
    buf.push(111);
    buf.push(111);
    buf.push(116);
    buf.push(110);
    buf.push(111);
    buf.push(116);
    buf.push(101);
    buf.push(45);
    buf.push(114);
    buf.push(101);
    buf.push(102);
    buf.push(101);
    buf.push(114);
    buf.push(101);
    buf.push(110);
    buf.push(99);
    buf.push(101);
    buf.push(34);
    buf.push(62);
    buf.push(60);
    buf.push(97);
    buf.push(32);
    buf.push(104);
    buf.push(114);
    buf.push(101);
    buf.push(102);
    buf.push(61);
    buf.push(34);
    buf.push(35);
    assert(buf@ =~= old(buf)@ + s_sup_o());
}

/// The byte sequence of `"</a></sup>"`.
pub open spec fn s_sup_c() -> Seq<u8> {
    seq![60u8, 47, 97, 62, 60, 47, 115, 117, 112, 62]
}

/// Append `"</a></sup>"` to the buffer.
pub fn push_sup_c(buf: &mut Vec<u8>)
    ensures
        final(buf)@ == old(buf)@ + s_sup_c(),
{
    buf.push(60);
    buf.push(47);
    buf.push(97);
    buf.push(62);
    buf.push(60);
    buf.push(47);
    buf.push(115);
    buf.push(117);
    buf.push(112);
    buf.push(62);
    assert(buf@ =~= old(buf)@ + s_sup_c());
}

/// The byte sequence of `"["`.
pub open spec fn s_brk_o() -> Seq<u8> {
    seq![91u8]
}

/// Append `"["` to the buffer.
pub fn push_brk_o(buf: &mut Vec<u8>)
    ensures
        final(buf)@ == old(buf)@ + s_brk_o(),
{
    buf.push(91);
    assert(buf@ =~= old(buf)@ + s_brk_o());
}

/// The byte sequence of `"]"`.
pub open spec fn s_brk_c() -> Seq<u8> {
    seq![93u8]
}

/// Append `"]"` to the buffer.
pub fn push_brk_c(buf: &mut Vec<u8>)
    ensures
        final(buf)@ == old(buf)@ + s_brk_c(),
{
    buf.push(93);
    assert(buf@ =~= old(buf)@ + s_brk_c());
}

/// The byte sequence of `": "`.
pub open spec fn s_colon_sp() -> Seq<u8> {
    seq![58u8, 32]
}

/// Append `": "` to the buffer.
pub fn push_colon_sp(buf: &mut Vec<u8>)
    ensures
        final(buf)@ == old(buf)@ + s_colon_sp(),
{
    buf.push(58);
    buf.push(32);
    assert(buf@ =~= old(buf)@ + s_colon_sp());
}

/// The byte sequence of `" "`.
pub open spec fn s_sp() -> Seq<u8> {
    seq![32u8]
}

/// Append `" "` to the buffer.
pub fn push_sp(buf: &mut Vec<u8>)
    ensures
        final(buf)@ == old(buf)@ + s_sp(),
{
    buf.push(32);
    assert(buf@ =~= old(buf)@ + s_sp());
}

/// The byte sequence of `"&amp;"`.
pub open spec fn s_amp_ent() -> Seq<u8> {
    seq![38u8, 97, 109, 112, 59]
}

/// Append `"&amp;"` to the buffer.
pub fn push_amp_ent(buf: &mut Vec<u8>)
    ensures
        final(buf)@ == old(buf)@ + s_amp_ent(),
{
    buf.push(38);
    buf.push(97);
    buf.push(109);
    buf.push(112);
    buf.push(59);
    assert(buf@ =~= old(buf)@ + s_amp_ent());
}

/// The byte sequence of `"&lt;"`.
pub open spec fn s_lt_ent() -> Seq<u8> {
    seq![38u8, 108, 116, 59]
}

/// Append `"&lt;"` to the buffer.
pub fn push_lt_ent(buf: &mut Vec<u8>)
    ensures
        final(buf)@ == old(buf)@ + s_lt_ent(),
{
    buf.push(38);
    buf.push(108);
    buf.push(116);
    buf.push(59);
    assert(buf@ =~= old(buf)@ + s_lt_ent());
}

/// The byte sequence of `"&gt;"`.
pub open spec fn s_gt_ent() -> Seq<u8> {
    seq![38u8, 103, 116, 59]
}

/// Append `"&gt;"` to the buffer.
pub fn push_gt_ent(buf: &mut Vec<u8>)
    ensures
        final(buf)@ == old(buf)@ + s_gt_ent(),
{
    buf.push(38);
    buf.push(103);
    buf.push(116);
    buf.push(59);
    assert(buf@ =~= old(buf)@ + s_gt_ent());
}

/// The byte sequence of `"&quot;"`.
pub open spec fn s_quot_ent() -> Seq<u8> {
    seq![38u8, 113, 117, 111, 116, 59]
}

/// Append `"&quot;"` to the buffer.
pub fn push_quot_ent(buf: &mut Vec<u8>)
    ensures
        final(buf)@ == old(buf)@ + s_quot_ent(),
{
    buf.push(38);
    buf.push(113);
    buf.push(117);
    buf.push(111);
    buf.push(116);
    buf.push(59);
    assert(buf@ =~= old(buf)@ + s_quot_ent());
}

/// The byte sequence of `"&#x27;"`.
pub open spec fn s_apos_ent() -> Seq<u8> {
    seq![38u8, 35, 120, 50, 55, 59]
}

/// Append `"&#x27;"` to the buffer.
pub fn push_apos_ent(buf: &mut Vec<u8>)
    ensures
        final(buf)@ == old(buf)@ + s_apos_ent(),
{
    buf.push(38);
    buf.push(35);
    buf.push(120);
    buf.push(50);
    buf.push(55);
    buf.push(59);
    assert(buf@ =~= old(buf)@ + s_apos_ent());
}

/// The byte sequence of `"<table>"`.
pub open spec fn s_table_o() -> Seq<u8> {
    seq![60u8, 116, 97, 98, 108, 101, 62]
}

/// Append `"<table>"` to the buffer.
pub fn push_table_o(buf: &mut Vec<u8>)
    ensures
        final(buf)@ == old(buf)@ + s_table_o(),
{
    buf.push(60);
    buf.push(116);
    buf.push(97);
    buf.push(98);
    buf.push(108);
    buf.push(101);
    buf.push(62);
    assert(buf@ =~= old(buf)@ + s_table_o());
}

/// The byte sequence of `"</table>"`.
pub open spec fn s_table_c() -> Seq<u8> {
    seq![60u8, 47, 116, 97, 98, 108, 101, 62]
}

/// Append `"</table>"` to the buffer.
pub fn push_table_c(buf: &mut Vec<u8>)
    ensures
        final(buf)@ == old(buf)@ + s_table_c(),
{
    buf.push(60);
    buf.push(47);
    buf.push(116);
    buf.push(97);
    buf.push(98);
    buf.push(108);
    buf.push(101);
    buf.push(62);
    assert(buf@ =~= old(buf)@ + s_table_c());
}

/// The byte sequence of `"<thead><tr>"`.
pub open spec fn s_thead_o() -> Seq<u8> {
    seq![60u8, 116, 104, 101, 97, 100, 62, 60, 116, 114, 62]
}

/// Append `"<thead><tr>"` to the buffer.
pub fn push_thead_o(buf: &mut Vec<u8>)
    ensures
        final(buf)@ == old(buf)@ + s_thead_o(),
{
    buf.push(60);
    buf.push(116);
    buf.push(104);
    buf.push(101);
    buf.push(97);
    buf.push(100);
    buf.push(62);
    buf.push(60);
    buf.push(116);
    buf.push(114);
    buf.push(62);
    assert(buf@ =~= old(buf)@ + s_thead_o());
}

/// The byte sequence of `"</tr></thead>"`.
pub open spec fn s_thead_c() -> Seq<u8> {
    seq![60u8, 47, 116, 114, 62, 60, 47, 116, 104, 101, 97, 100, 62]
}

/// Append `"</tr></thead>"` to the buffer.
pub fn push_thead_c(buf: &mut Vec<u8>)
    ensures
        final(buf)@ == old(buf)@ + s_thead_c(),
{
    buf.push(60);
    buf.push(47);
    buf.push(116);
    buf.push(114);
    buf.push(62);
    buf.push(60);
    buf.push(47);
    buf.push(116);
    buf.push(104);
    buf.push(101);
    buf.push(97);
    buf.push(100);
    buf.push(62);
    assert(buf@ =~= old(buf)@ + s_thead_c());
}

/// The byte sequence of `"<tr>"`.
pub open spec fn s_tr_o() -> Seq<u8> {
    seq![60u8, 116, 114, 62]
}

/// Append `"<tr>"` to the buffer.
pub fn push_tr_o(buf: &mut Vec<u8>)
    ensures
        final(buf)@ == old(buf)@ + s_tr_o(),
{
    buf.push(60);
    buf.push(116);
    buf.push(114);
    buf.push(62);
    assert(buf@ =~= old(buf)@ + s_tr_o());
}

/// The byte sequence of `"</tr>"`.
pub open spec fn s_tr_c() -> Seq<u8> {
    seq![60u8, 47, 116, 114, 62]
}

/// Append `"</tr>"` to the buffer.
pub fn push_tr_c(buf: &mut Vec<u8>)
    ensures
        final(buf)@ == old(buf)@ + s_tr_c(),
{
    buf.push(60);
    buf.push(47);
    buf.push(116);
    buf.push(114);
    buf.push(62);
    assert(buf@ =~= old(buf)@ + s_tr_c());
}

/// The byte sequence of `"<th"`.
pub open spec fn s_th_o() -> Seq<u8> {
    seq![60u8, 116, 104]
}

/// Append `"<th"` to the buffer.
pub fn push_th_o(buf: &mut Vec<u8>)
    ensures
        final(buf)@ == old(buf)@ + s_th_o(),
{
    buf.push(60);
    buf.push(116);
    buf.push(104);
    assert(buf@ =~= old(buf)@ + s_th_o());
}

/// The byte sequence of `"<td"`.
pub open spec fn s_td_o() -> Seq<u8> {
    seq![60u8, 116, 100]
}

/// Append `"<td"` to the buffer.
pub fn push_td_o(buf: &mut Vec<u8>)
    ensures
        final(buf)@ == old(buf)@ + s_td_o(),
{
    buf.push(60);
    buf.push(116);
    buf.push(100);
    assert(buf@ =~= old(buf)@ + s_td_o());
}

/// The byte sequence of `"</th>"`.
pub open spec fn s_th_c() -> Seq<u8> {
    seq![60u8, 47, 116, 104, 62]
}

/// Append `"</th>"` to the buffer.
pub fn push_th_c(buf: &mut Vec<u8>)
    ensures
        final(buf)@ == old(buf)@ + s_th_c(),
{
    buf.push(60);
    buf.push(47);
    buf.push(116);
    buf.push(104);
    buf.push(62);
    assert(buf@ =~= old(buf)@ + s_th_c());
}

/// The byte sequence of `"</td>"`.
pub open spec fn s_td_c() -> Seq<u8> {
    seq![60u8, 47, 116, 100, 62]
}

/// Append `"</td>"` to the buffer.
pub fn push_td_c(buf: &mut Vec<u8>)
    ensures
        final(buf)@ == old(buf)@ + s_td_c(),
{
    buf.push(60);
    buf.push(47);
    buf.push(116);
    buf.push(100);
    buf.push(62);
    assert(buf@ =~= old(buf)@ + s_td_c());
}

/// The byte sequence of `" style=\"text-align: "`.
pub open spec fn s_style_align() -> Seq<u8> {
    seq![32u8, 115, 116, 121, 108, 101, 61, 34, 116, 101, 120, 116, 45, 97, 108, 105, 103, 110, 58, 32]
}

/// Append `" style=\"text-align: "` to the buffer.
pub fn push_style_align(buf: &mut Vec<u8>)
    ensures
        final(buf)@ == old(buf)@ + s_style_align(),
{
    buf.push(32);
    buf.push(115);
    buf.push(116);
    buf.push(121);
    buf.push(108);
    buf.push(101);
    buf.push(61);
    buf.push(34);
    buf.push(116);
    buf.push(101);
    buf.push(120);
    buf.push(116);
    buf.push(45);
    buf.push(97);
    buf.push(108);
    buf.push(105);
    buf.push(103);
    buf.push(110);
    buf.push(58);
    buf.push(32);
    assert(buf@ =~= old(buf)@ + s_style_align());
}

/// The byte sequence of `"left"`.
pub open spec fn s_al_left() -> Seq<u8> {
    seq![108u8, 101, 102, 116]
}

/// Append `"left"` to the buffer.
pub fn push_al_left(buf: &mut Vec<u8>)
    ensures
        final(buf)@ == old(buf)@ + s_al_left(),
{
    buf.push(108);
    buf.push(101);
    buf.push(102);
    buf.push(116);
    assert(buf@ =~= old(buf)@ + s_al_left());
}

/// The byte sequence of `"center"`.
pub open spec fn s_al_center() -> Seq<u8> {
    seq![99u8, 101, 110, 116, 101, 114]
}

/// Append `"center"` to the buffer.
pub fn push_al_center(buf: &mut Vec<u8>)
    ensures
        final(buf)@ == old(buf)@ + s_al_center(),
{
    buf.push(99);
    buf.push(101);
    buf.push(110);
    buf.push(116);
    buf.push(101);
    buf.push(114);
    assert(buf@ =~= old(buf)@ + s_al_center());
}

/// The byte sequence of `"right"`.
pub open spec fn s_al_right() -> Seq<u8> {
    seq![114u8, 105, 103, 104, 116]
}

/// Append `"right"` to the buffer.
pub fn push_al_right(buf: &mut Vec<u8>)
    ensures
        final(buf)@ == old(buf)@ + s_al_right(),
{
    buf.push(114);
    buf.push(105);
    buf.push(103);
    buf.push(104);
    buf.push(116);
    assert(buf@ =~= old(buf)@ + s_al_right());
}

/// The byte sequence of `"\""`.
pub open spec fn s_quot() -> Seq<u8> {
    seq![34u8]
}

/// Append `"\""` to the buffer.
pub fn push_quot(buf: &mut Vec<u8>)
    ensures
        final(buf)@ == old(buf)@ + s_quot(),
{
    buf.push(34);
    assert(buf@ =~= old(buf)@ + s_quot());
}

/// The byte sequence of `">"`.
pub open spec fn s_gt() -> Seq<u8> {
    seq![62u8]
}

/// Append `">"` to the buffer.
pub fn push_gt(buf: &mut Vec<u8>)
    ensures
        final(buf)@ == old(buf)@ + s_gt(),
{
    buf.push(62);
    assert(buf@ =~= old(buf)@ + s_gt());
}

} // verus!
