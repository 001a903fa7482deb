use vstd::prelude::*;
use vstd::utf8::valid_utf8;
use crate::escape::{escaped_html, dec_digits, escape_html_range, push_decimal};
use crate::hrefs::{href_escaped, href_escape_plain, is_dangerous_url, symbol_escaped,
    escape_href_into, url_is_dangerous, push_symbol_escaped};
use crate::options::RenderOptions;
use crate::placeholder::{has_placeholder, placeholder_matches, find_placeholders,
    contains_placeholder, lemma_matches_wf};

verus! {

pub open spec fn lit_sourcepos_open() -> Seq<u8> {
    seq![' ' as u8, 'd' as u8, 'a' as u8, 't' as u8, 'a' as u8, '-' as u8, 's' as u8, 'o' as u8, 'u' as u8, 'r' as u8, 'c' as u8, 'e' as u8, 'p' as u8, 'o' as u8, 's' as u8, '=' as u8, '"' as u8]
}

fn push_sourcepos_open(out: &mut Vec<u8>)
    ensures
        final(out)@ == old(out)@ + lit_sourcepos_open(),
{
    out.extend_from_slice([' ' as u8, 'd' as u8, 'a' as u8, 't' as u8, 'a' as u8, '-' as u8, 's' as u8, 'o' as u8, 'u' as u8, 'r' as u8, 'c' as u8, 'e' as u8, 'p' as u8, 'o' as u8, 's' as u8, '=' as u8, '"' as u8].as_slice());
}

pub open spec fn lit_quote() -> Seq<u8> {
    seq!['"' as u8]
}

fn push_quote(out: &mut Vec<u8>)
    ensures
        final(out)@ == old(out)@ + lit_quote(),
{
    out.extend_from_slice(['"' as u8].as_slice());
}

pub open spec fn lit_colon() -> Seq<u8> {
    seq![':' as u8]
}

fn push_colon(out: &mut Vec<u8>)
    ensures
        final(out)@ == old(out)@ + lit_colon(),
{
    out.extend_from_slice([':' as u8].as_slice());
}

pub open spec fn lit_dash() -> Seq<u8> {
    seq!['-' as u8]
}

fn push_dash(out: &mut Vec<u8>)
    ensures
        final(out)@ == old(out)@ + lit_dash(),
{
    out.extend_from_slice(['-' as u8].as_slice());
}

pub open spec fn lit_a_open() -> Seq<u8> {
    seq!['<' as u8, 'a' as u8]
}

fn push_a_open(out: &mut Vec<u8>)
    ensures
        final(out)@ == old(out)@ + lit_a_open(),
{
    out.extend_from_slice(['<' as u8, 'a' as u8].as_slice());
}

pub open spec fn lit_href_open() -> Seq<u8> {
    seq![' ' as u8, 'h' as u8, 'r' as u8, 'e' as u8, 'f' as u8, '=' as u8, '"' as u8]
}

fn push_href_open(out: &mut Vec<u8>)
    ensures
        final(out)@ == old(out)@ + lit_href_open(),
{
    out.extend_from_slice([' ' as u8, 'h' as u8, 'r' as u8, 'e' as u8, 'f' as u8, '=' as u8, '"' as u8].as_slice());
}

pub open spec fn lit_title_open() -> Seq<u8> {
    seq![' ' as u8, 't' as u8, 'i' as u8, 't' as u8, 'l' as u8, 'e' as u8, '=' as u8, '"' as u8]
}

fn push_title_open(out: &mut Vec<u8>)
    ensures
        final(out)@ == old(out)@ + lit_title_open(),
{
    out.extend_from_slice([' ' as u8, 't' as u8, 'i' as u8, 't' as u8, 'l' as u8, 'e' as u8, '=' as u8, '"' as u8].as_slice());
}

pub open spec fn lit_data_placeholder() -> Seq<u8> {
    seq![' ' as u8, 'd' as u8, 'a' as u8, 't' as u8, 'a' as u8, '-' as u8, 'p' as u8, 'l' as u8, 'a' as u8, 'c' as u8, 'e' as u8, 'h' as u8, 'o' as u8, 'l' as u8, 'd' as u8, 'e' as u8, 'r' as u8]
}

fn push_data_placeholder(out: &mut Vec<u8>)
    ensures
        final(out)@ == old(out)@ + lit_data_placeholder(),
{
    out.extend_from_slice([' ' as u8, 'd' as u8, 'a' as u8, 't' as u8, 'a' as u8, '-' as u8, 'p' as u8, 'l' as u8, 'a' as u8, 'c' as u8, 'e' as u8, 'h' as u8, 'o' as u8, 'l' as u8, 'd' as u8, 'e' as u8, 'r' as u8].as_slice());
}

pub open spec fn lit_gt() -> Seq<u8> {
    seq!['>' as u8]
}

fn push_gt(out: &mut Vec<u8>)
    ensures
        final(out)@ == old(out)@ + lit_gt(),
{
    out.extend_from_slice(['>' as u8].as_slice());
}

pub open spec fn lit_a_close() -> Seq<u8> {
    seq!['<' as u8, '/' as u8, 'a' as u8, '>' as u8]
}

fn push_a_close(out: &mut Vec<u8>)
    ensures
        final(out)@ == old(out)@ + lit_a_close(),
{
    out.extend_from_slice(['<' as u8, '/' as u8, 'a' as u8, '>' as u8].as_slice());
}

pub open spec fn lit_figure_open() -> Seq<u8> {
    seq!['<' as u8, 'f' as u8, 'i' as u8, 'g' as u8, 'u' as u8, 'r' as u8, 'e' as u8, '>' as u8]
}

fn push_figure_open(out: &mut Vec<u8>)
    ensures
        final(out)@ == old(out)@ + lit_figure_open(),
{
    out.extend_from_slice(['<' as u8, 'f' as u8, 'i' as u8, 'g' as u8, 'u' as u8, 'r' as u8, 'e' as u8, '>' as u8].as_slice());
}

pub open spec fn lit_img_open() -> Seq<u8> {
    seq!['<' as u8, 'i' as u8, 'm' as u8, 'g' as u8]
}

fn push_img_open(out: &mut Vec<u8>)
    ensures
        final(out)@ == old(out)@ + lit_img_open(),
{
    out.extend_from_slice(['<' as u8, 'i' as u8, 'm' as u8, 'g' as u8].as_slice());
}

pub open spec fn lit_src_open() -> Seq<u8> {
    seq![' ' as u8, 's' as u8, 'r' as u8, 'c' as u8, '=' as u8, '"' as u8]
}

fn push_src_open(out: &mut Vec<u8>)
    ensures
        final(out)@ == old(out)@ + lit_src_open(),
{
    out.extend_from_slice([' ' as u8, 's' as u8, 'r' as u8, 'c' as u8, '=' as u8, '"' as u8].as_slice());
}

pub open spec fn lit_alt_open() -> Seq<u8> {
    seq![' ' as u8, 'a' as u8, 'l' as u8, 't' as u8, '=' as u8, '"' as u8]
}

fn push_alt_open(out: &mut Vec<u8>)
    ensures
        final(out)@ == old(out)@ + lit_alt_open(),
{
    out.extend_from_slice([' ' as u8, 'a' as u8, 'l' as u8, 't' as u8, '=' as u8, '"' as u8].as_slice());
}

pub open spec fn lit_quote_title_open() -> Seq<u8> {
    seq!['"' as u8, ' ' as u8, 't' as u8, 'i' as u8, 't' as u8, 'l' as u8, 'e' as u8, '=' as u8, '"' as u8]
}

fn push_quote_title_open(out: &mut Vec<u8>)
    ensures
        final(out)@ == old(out)@ + lit_quote_title_open(),
{
    out.extend_from_slice(['"' as u8, ' ' as u8, 't' as u8, 'i' as u8, 't' as u8, 'l' as u8, 'e' as u8, '=' as u8, '"' as u8].as_slice());
}

pub open spec fn lit_img_end() -> Seq<u8> {
    seq!['"' as u8, ' ' as u8, '/' as u8, '>' as u8]
}

fn push_img_end(out: &mut Vec<u8>)
    ensures
        final(out)@ == old(out)@ + lit_img_end(),
{
    out.extend_from_slice(['"' as u8, ' ' as u8, '/' as u8, '>' as u8].as_slice());
}

pub open spec fn lit_figcaption_open() -> Seq<u8> {
    seq!['<' as u8, 'f' as u8, 'i' as u8, 'g' as u8, 'c' as u8, 'a' as u8, 'p' as u8, 't' as u8, 'i' as u8, 'o' as u8, 'n' as u8, '>' as u8]
}

fn push_figcaption_open(out: &mut Vec<u8>)
    ensures
        final(out)@ == old(out)@ + lit_figcaption_open(),
{
    out.extend_from_slice(['<' as u8, 'f' as u8, 'i' as u8, 'g' as u8, 'c' as u8, 'a' as u8, 'p' as u8, 't' as u8, 'i' as u8, 'o' as u8, 'n' as u8, '>' as u8].as_slice());
}

pub open spec fn lit_figcaption_close() -> Seq<u8> {
    seq!['<' as u8, '/' as u8, 'f' as u8, 'i' as u8, 'g' as u8, 'c' as u8, 'a' as u8, 'p' as u8, 't' as u8, 'i' as u8, 'o' as u8, 'n' as u8, '>' as u8]
}

fn push_figcaption_close(out: &mut Vec<u8>)
    ensures
        final(out)@ == old(out)@ + lit_figcaption_close(),
{
    out.extend_from_slice(['<' as u8, '/' as u8, 'f' as u8, 'i' as u8, 'g' as u8, 'c' as u8, 'a' as u8, 'p' as u8, 't' as u8, 'i' as u8, 'o' as u8, 'n' as u8, '>' as u8].as_slice());
}

pub open spec fn lit_figure_close() -> Seq<u8> {
    seq!['<' as u8, '/' as u8, 'f' as u8, 'i' as u8, 'g' as u8, 'u' as u8, 'r' as u8, 'e' as u8, '>' as u8]
}

fn push_figure_close(out: &mut Vec<u8>)
    ensures
        final(out)@ == old(out)@ + lit_figure_close(),
{
    out.extend_from_slice(['<' as u8, '/' as u8, 'f' as u8, 'i' as u8, 'g' as u8, 'u' as u8, 'r' as u8, 'e' as u8, '>' as u8].as_slice());
}

pub open spec fn lit_span_open() -> Seq<u8> {
    seq!['<' as u8, 's' as u8, 'p' as u8, 'a' as u8, 'n' as u8, ' ' as u8, 'd' as u8, 'a' as u8, 't' as u8, 'a' as u8, '-' as u8, 'p' as u8, 'l' as u8, 'a' as u8, 'c' as u8, 'e' as u8, 'h' as u8, 'o' as u8, 'l' as u8, 'd' as u8, 'e' as u8, 'r' as u8, '>' as u8]
}

fn push_span_open(out: &mut Vec<u8>)
    ensures
        final(out)@ == old(out)@ + lit_span_open(),
{
    out.extend_from_slice(['<' as u8, 's' as u8, 'p' as u8, 'a' as u8, 'n' as u8, ' ' as u8, 'd' as u8, 'a' as u8, 't' as u8, 'a' as u8, '-' as u8, 'p' as u8, 'l' as u8, 'a' as u8, 'c' as u8, 'e' as u8, 'h' as u8, 'o' as u8, 'l' as u8, 'd' as u8, 'e' as u8, 'r' as u8, '>' as u8].as_slice());
}

pub open spec fn lit_span_close() -> Seq<u8> {
    seq!['<' as u8, '/' as u8, 's' as u8, 'p' as u8, 'a' as u8, 'n' as u8, '>' as u8]
}

fn push_span_close(out: &mut Vec<u8>)
    ensures
        final(out)@ == old(out)@ + lit_span_close(),
{
    out.extend_from_slice(['<' as u8, '/' as u8, 's' as u8, 'p' as u8, 'a' as u8, 'n' as u8, '>' as u8].as_slice());
}

pub open spec fn lit_ul_open() -> Seq<u8> {
    seq!['<' as u8, 'u' as u8, 'l' as u8]
}

fn push_ul_open(out: &mut Vec<u8>)
    ensures
        final(out)@ == old(out)@ + lit_ul_open(),
{
    out.extend_from_slice(['<' as u8, 'u' as u8, 'l' as u8].as_slice());
}

pub open spec fn lit_ol_open() -> Seq<u8> {
    seq!['<' as u8, 'o' as u8, 'l' as u8]
}

fn push_ol_open(out: &mut Vec<u8>)
    ensures
        final(out)@ == old(out)@ + lit_ol_open(),
{
    out.extend_from_slice(['<' as u8, 'o' as u8, 'l' as u8].as_slice());
}

pub open spec fn lit_task_list_class() -> Seq<u8> {
    seq![' ' as u8, 'c' as u8, 'l' as u8, 'a' as u8, 's' as u8, 's' as u8, '=' as u8, '"' as u8, 't' as u8, 'a' as u8, 's' as u8, 'k' as u8, '-' as u8, 'l' as u8, 'i' as u8, 's' as u8, 't' as u8, '"' as u8]
}

fn push_task_list_class(out: &mut Vec<u8>)
    ensures
        final(out)@ == old(out)@ + lit_task_list_class(),
{
    out.extend_from_slice([' ' as u8, 'c' as u8, 'l' as u8, 'a' as u8, 's' as u8, 's' as u8, '=' as u8, '"' as u8, 't' as u8, 'a' as u8, 's' as u8, 'k' as u8, '-' as u8, 'l' as u8, 'i' as u8, 's' as u8, 't' as u8, '"' as u8].as_slice());
}

pub open spec fn lit_gt_nl() -> Seq<u8> {
    seq!['>' as u8, '\n' as u8]
}

fn push_gt_nl(out: &mut Vec<u8>)
    ensures
        final(out)@ == old(out)@ + lit_gt_nl(),
{
    out.extend_from_slice(['>' as u8, '\n' as u8].as_slice());
}

pub open spec fn lit_start_open() -> Seq<u8> {
    seq![' ' as u8, 's' as u8, 't' as u8, 'a' as u8, 'r' as u8, 't' as u8, '=' as u8, '"' as u8]
}

fn push_start_open(out: &mut Vec<u8>)
    ensures
        final(out)@ == old(out)@ + lit_start_open(),
{
    out.extend_from_slice([' ' as u8, 's' as u8, 't' as u8, 'a' as u8, 'r' as u8, 't' as u8, '=' as u8, '"' as u8].as_slice());
}

pub open spec fn lit_start_close() -> Seq<u8> {
    seq!['"' as u8, '>' as u8, '\n' as u8]
}

fn push_start_close(out: &mut Vec<u8>)
    ensures
        final(out)@ == old(out)@ + lit_start_close(),
{
    out.extend_from_slice(['"' as u8, '>' as u8, '\n' as u8].as_slice());
}

pub open spec fn lit_li_open() -> Seq<u8> {
    seq!['<' as u8, 'l' as u8, 'i' as u8]
}

fn push_li_open(out: &mut Vec<u8>)
    ensures
        final(out)@ == old(out)@ + lit_li_open(),
{
    out.extend_from_slice(['<' as u8, 'l' as u8, 'i' as u8].as_slice());
}

pub open spec fn lit_li_inapplicable() -> Seq<u8> {
    seq!['<' as u8, 'l' as u8, 'i' as u8, ' ' as u8, 'c' as u8, 'l' as u8, 'a' as u8, 's' as u8, 's' as u8, '=' as u8, '"' as u8, 'i' as u8, 'n' as u8, 'a' as u8, 'p' as u8, 'p' as u8, 'l' as u8, 'i' as u8, 'c' as u8, 'a' as u8, 'b' as u8, 'l' as u8, 'e' as u8]
}

fn push_li_inapplicable(out: &mut Vec<u8>)
    ensures
        final(out)@ == old(out)@ + lit_li_inapplicable(),
{
    out.extend_from_slice(['<' as u8, 'l' as u8, 'i' as u8, ' ' as u8, 'c' as u8, 'l' as u8, 'a' as u8, 's' as u8, 's' as u8, '=' as u8, '"' as u8, 'i' as u8, 'n' as u8, 'a' as u8, 'p' as u8, 'p' as u8, 'l' as u8, 'i' as u8, 'c' as u8, 'a' as u8, 'b' as u8, 'l' as u8, 'e' as u8].as_slice());
}

pub open spec fn lit_task_list_item() -> Seq<u8> {
    seq![' ' as u8, 't' as u8, 'a' as u8, 's' as u8, 'k' as u8, '-' as u8, 'l' as u8, 'i' as u8, 's' as u8, 't' as u8, '-' as u8, 'i' as u8, 't' as u8, 'e' as u8, 'm' as u8]
}

fn push_task_list_item(out: &mut Vec<u8>)
    ensures
        final(out)@ == old(out)@ + lit_task_list_item(),
{
    out.extend_from_slice([' ' as u8, 't' as u8, 'a' as u8, 's' as u8, 'k' as u8, '-' as u8, 'l' as u8, 'i' as u8, 's' as u8, 't' as u8, '-' as u8, 'i' as u8, 't' as u8, 'e' as u8, 'm' as u8].as_slice());
}

pub open spec fn lit_task_list_item_class() -> Seq<u8> {
    seq![' ' as u8, 'c' as u8, 'l' as u8, 'a' as u8, 's' as u8, 's' as u8, '=' as u8, '"' as u8, 't' as u8, 'a' as u8, 's' as u8, 'k' as u8, '-' as u8, 'l' as u8, 'i' as u8, 's' as u8, 't' as u8, '-' as u8, 'i' as u8, 't' as u8, 'e' as u8, 'm' as u8, '"' as u8]
}

fn push_task_list_item_class(out: &mut Vec<u8>)
    ensures
        final(out)@ == old(out)@ + lit_task_list_item_class(),
{
    out.extend_from_slice([' ' as u8, 'c' as u8, 'l' as u8, 'a' as u8, 's' as u8, 's' as u8, '=' as u8, '"' as u8, 't' as u8, 'a' as u8, 's' as u8, 'k' as u8, '-' as u8, 'l' as u8, 'i' as u8, 's' as u8, 't' as u8, '-' as u8, 'i' as u8, 't' as u8, 'e' as u8, 'm' as u8, '"' as u8].as_slice());
}

pub open spec fn lit_input_open() -> Seq<u8> {
    seq!['<' as u8, 'i' as u8, 'n' as u8, 'p' as u8, 'u' as u8, 't' as u8, ' ' as u8, 't' as u8, 'y' as u8, 'p' as u8, 'e' as u8, '=' as u8, '"' as u8, 'c' as u8, 'h' as u8, 'e' as u8, 'c' as u8, 'k' as u8, 'b' as u8, 'o' as u8, 'x' as u8, '"' as u8]
}

fn push_input_open(out: &mut Vec<u8>)
    ensures
        final(out)@ == old(out)@ + lit_input_open(),
{
    out.extend_from_slice(['<' as u8, 'i' as u8, 'n' as u8, 'p' as u8, 'u' as u8, 't' as u8, ' ' as u8, 't' as u8, 'y' as u8, 'p' as u8, 'e' as u8, '=' as u8, '"' as u8, 'c' as u8, 'h' as u8, 'e' as u8, 'c' as u8, 'k' as u8, 'b' as u8, 'o' as u8, 'x' as u8, '"' as u8].as_slice());
}

pub open spec fn lit_checkbox_class() -> Seq<u8> {
    seq![' ' as u8, 'c' as u8, 'l' as u8, 'a' as u8, 's' as u8, 's' as u8, '=' as u8, '"' as u8, 't' as u8, 'a' as u8, 's' as u8, 'k' as u8, '-' as u8, 'l' as u8, 'i' as u8, 's' as u8, 't' as u8, '-' as u8, 'i' as u8, 't' as u8, 'e' as u8, 'm' as u8, '-' as u8, 'c' as u8, 'h' as u8, 'e' as u8, 'c' as u8, 'k' as u8, 'b' as u8, 'o' as u8, 'x' as u8, '"' as u8]
}

fn push_checkbox_class(out: &mut Vec<u8>)
    ensures
        final(out)@ == old(out)@ + lit_checkbox_class(),
{
    out.extend_from_slice([' ' as u8, 'c' as u8, 'l' as u8, 'a' as u8, 's' as u8, 's' as u8, '=' as u8, '"' as u8, 't' as u8, 'a' as u8, 's' as u8, 'k' as u8, '-' as u8, 'l' as u8, 'i' as u8, 's' as u8, 't' as u8, '-' as u8, 'i' as u8, 't' as u8, 'e' as u8, 'm' as u8, '-' as u8, 'c' as u8, 'h' as u8, 'e' as u8, 'c' as u8, 'k' as u8, 'b' as u8, 'o' as u8, 'x' as u8, '"' as u8].as_slice());
}

pub open spec fn lit_inapplicable_end() -> Seq<u8> {
    seq![' ' as u8, 'd' as u8, 'a' as u8, 't' as u8, 'a' as u8, '-' as u8, 'i' as u8, 'n' as u8, 'a' as u8, 'p' as u8, 'p' as u8, 'l' as u8, 'i' as u8, 'c' as u8, 'a' as u8, 'b' as u8, 'l' as u8, 'e' as u8, ' ' as u8, 'd' as u8, 'i' as u8, 's' as u8, 'a' as u8, 'b' as u8, 'l' as u8, 'e' as u8, 'd' as u8, '=' as u8, '"' as u8, '"' as u8, '>' as u8, ' ' as u8]
}

fn push_inapplicable_end(out: &mut Vec<u8>)
    ensures
        final(out)@ == old(out)@ + lit_inapplicable_end(),
{
    out.extend_from_slice([' ' as u8, 'd' as u8, 'a' as u8, 't' as u8, 'a' as u8, '-' as u8, 'i' as u8, 'n' as u8, 'a' as u8, 'p' as u8, 'p' as u8, 'l' as u8, 'i' as u8, 'c' as u8, 'a' as u8, 'b' as u8, 'l' as u8, 'e' as u8, ' ' as u8, 'd' as u8, 'i' as u8, 's' as u8, 'a' as u8, 'b' as u8, 'l' as u8, 'e' as u8, 'd' as u8, '=' as u8, '"' as u8, '"' as u8, '>' as u8, ' ' as u8].as_slice());
}

pub open spec fn lit_li_close() -> Seq<u8> {
    seq!['<' as u8, '/' as u8, 'l' as u8, 'i' as u8, '>' as u8, '\n' as u8]
}

fn push_li_close(out: &mut Vec<u8>)
    ensures
        final(out)@ == old(out)@ + lit_li_close(),
{
    out.extend_from_slice(['<' as u8, '/' as u8, 'l' as u8, 'i' as u8, '>' as u8, '\n' as u8].as_slice());
}

pub open spec fn lit_bracket_open() -> Seq<u8> {
    seq!['[' as u8]
}

fn push_bracket_open(out: &mut Vec<u8>)
    ensures
        final(out)@ == old(out)@ + lit_bracket_open(),
{
    out.extend_from_slice(['[' as u8].as_slice());
}

pub open spec fn lit_bracket_close() -> Seq<u8> {
    seq![']' as u8, ' ' as u8]
}

fn push_bracket_close(out: &mut Vec<u8>)
    ensures
        final(out)@ == old(out)@ + lit_bracket_close(),
{
    out.extend_from_slice([']' as u8, ' ' as u8].as_slice());
}


// ----- the document-tree model, as far as the overrides read it -----

/// The literal content of a text node.
pub struct TextData {
    pub literal: Vec<u8>,
}

/// The destination and title of a link or image node. An absent title is the
/// empty string.
pub struct LinkData {
    pub url: Vec<u8>,
    pub title: Vec<u8>,
}

pub enum ListStyle {
    Bullet,
    Ordered,
}

/// The rendering-relevant attributes of a list node.
pub struct ListData {
    pub style: ListStyle,
    pub is_task_list: bool,
    pub start: usize,
}

/// The status symbol of a task item: absent (no checkbox), `x`/`X` (checked),
/// `~` (inapplicable), or any other character (an unrecognized custom symbol).
pub struct TaskData {
    pub symbol: Option<char>,
}

/// One node of the document tree, restricted to the five kinds this layer
/// overrides. Nodes of every other kind always go to the default formatter.
pub enum NodeData {
    Text(TextData),
    Link(LinkData),
    Image(LinkData),
    List(ListData),
    TaskItem(TaskData),
}

/// The kind of a node's parent, as far as the overrides consult it.
pub enum ParentKind {
    Link,
    Image,
    Other,
}

/// A node's position in the source document. A start line of zero means the
/// node carries no position.
pub struct Sourcepos {
    pub start_line: usize,
    pub start_col: usize,
    pub end_line: usize,
    pub end_col: usize,
}

/// What an override decides for one visit of one node: hand the node to the
/// default formatter, or emit these bytes (after a block-start line break when
/// `cr` is set) and have the walker render the children as HTML or as plain
/// text.
pub enum Emission {
    Delegate,
    Custom { cr: bool, bytes: Vec<u8>, plain_children: bool },
}

/// The mathematical model of an `Emission`.
pub enum EmissionModel {
    Delegate,
    Custom { cr: bool, bytes: Seq<u8>, plain_children: bool },
}

impl View for Emission {
    type V = EmissionModel;

    open spec fn view(&self) -> EmissionModel {
        match self {
            Emission::Delegate => EmissionModel::Delegate,
            Emission::Custom { cr, bytes, plain_children } => EmissionModel::Custom {
                cr: *cr,
                bytes: bytes@,
                plain_children: *plain_children,
            },
        }
    }
}

// ----- the source-position attribute -----

/// The source-position attribute: ` data-sourcepos="a:b-c:d"` when position
/// emission is enabled and the node carries a position, nothing otherwise.
pub open spec fn sourcepos_attr(enabled: bool, sp: Sourcepos) -> Seq<u8> {
    if enabled && sp.start_line > 0 {
        lit_sourcepos_open() + dec_digits(sp.start_line as nat) + lit_colon()
            + dec_digits(sp.start_col as nat) + lit_dash() + dec_digits(sp.end_line as nat)
            + lit_colon() + dec_digits(sp.end_col as nat) + lit_quote()
    } else {
        Seq::empty()
    }
}

fn push_sourcepos(out: &mut Vec<u8>, enabled: bool, sp: &Sourcepos)
    ensures
        final(out)@ == old(out)@ + sourcepos_attr(enabled, *sp),
{
    if enabled && sp.start_line > 0 {
        push_sourcepos_open(out);
        push_decimal(out, sp.start_line);
        push_colon(out);
        push_decimal(out, sp.start_col);
        push_dash(out);
        push_decimal(out, sp.end_line);
        push_colon(out);
        push_decimal(out, sp.end_col);
        push_quote(out);
        assert(out@ =~= old(out)@ + sourcepos_attr(enabled, *sp));
    }
}

// ----- the text override -----

/// The bytes the text override emits: the escaped text before, between and
/// after the placeholder matches, with each matched token escaped and wrapped
/// in a `data-placeholder` span.
pub open spec fn text_segments(s: Seq<u8>, ms: Seq<(int, int)>, k: int, cursor: int) -> Seq<u8>
    decreases ms.len() - k,
{
    if !(0 <= k < ms.len()) {
        escaped_html(s.subrange(cursor, s.len() as int))
    } else {
        escaped_html(s.subrange(cursor, ms[k].0)) + lit_span_open()
            + escaped_html(s.subrange(ms[k].0, ms[k].1)) + lit_span_close()
            + text_segments(s, ms, k + 1, ms[k].1)
    }
}

pub open spec fn text_bytes(s: Seq<u8>) -> Seq<u8> {
    text_segments(s, placeholder_matches(s), 0, 0)
}

/// What the text override does: delegate when detection is off, when the text
/// holds no placeholder, or when the parent is a link or an image (an
/// acknowledged limitation: the parser can split such a literal around the
/// token's punctuation before this layer sees it); otherwise emit the
/// annotated text on the entering visit and nothing on the leaving visit.
pub open spec fn text_emission(
    opts: RenderOptions,
    literal: Seq<u8>,
    parent: ParentKind,
    entering: bool,
) -> EmissionModel {
    if !(opts.placeholder_detection && has_placeholder(literal)) {
        EmissionModel::Delegate
    } else if parent is Link || parent is Image {
        EmissionModel::Delegate
    } else if entering {
        EmissionModel::Custom { cr: false, bytes: text_bytes(literal), plain_children: false }
    } else {
        EmissionModel::Custom { cr: false, bytes: Seq::empty(), plain_children: false }
    }
}

/// Renders one visit of a text node.
pub fn render_text(opts: &RenderOptions, text: &TextData, parent: ParentKind, entering: bool) -> (e:
    Emission)
    ensures
        e@ == text_emission(*opts, text.literal@, parent, entering),
{
    let s = text.literal.as_slice();
    if !opts.placeholder_detection || !contains_placeholder(s) {
        return Emission::Delegate;
    }
    match parent {
        ParentKind::Link => {
            return Emission::Delegate;
        },
        ParentKind::Image => {
            return Emission::Delegate;
        },
        ParentKind::Other => {},
    }
    if !entering {
        let bytes: Vec<u8> = Vec::new();
        return Emission::Custom { cr: false, bytes, plain_children: false };
    }
    let ms = find_placeholders(s);
    let ghost sms = placeholder_matches(s@);
    proof {
        lemma_matches_wf(s@, 0);
    }
    let mut b: Vec<u8> = Vec::new();
    let mut k: usize = 0;
    let mut cursor: usize = 0;
    while k < ms.len()
        invariant
            sms == placeholder_matches(s@),
            ms@.map_values(|m: (usize, usize)| (m.0 as int, m.1 as int)) == sms,
            ms@.len() == sms.len(),
            k <= ms@.len(),
            cursor <= s@.len(),
            k > 0 ==> cursor == sms[k - 1].1,
            k == 0 ==> cursor == 0,
            text_bytes(s@) == b@ + text_segments(s@, sms, k as int, cursor as int),
        decreases ms@.len() - k,
    {
        proof {
            lemma_matches_wf(s@, 0);
        }
        let st = ms[k].0;
        let en = ms[k].1;
        assert(sms[k as int] == (st as int, en as int));
        assert(cursor <= st && st + 4 <= en && en <= s@.len());
        let ghost b0 = b@;
        escape_html_range(&mut b, s, cursor, st);
        push_span_open(&mut b);
        escape_html_range(&mut b, s, st, en);
        push_span_close(&mut b);
        proof {
            assert(text_segments(s@, sms, k as int, cursor as int) == escaped_html(
                s@.subrange(cursor as int, st as int),
            ) + lit_span_open() + escaped_html(s@.subrange(st as int, en as int)) + lit_span_close()
                + text_segments(s@, sms, k + 1, en as int));
            assert(b@ =~= b0 + escaped_html(s@.subrange(cursor as int, st as int)) + lit_span_open()
                + escaped_html(s@.subrange(st as int, en as int)) + lit_span_close());
            assert(b@ + text_segments(s@, sms, k + 1, en as int) =~= b0 + text_segments(
                s@,
                sms,
                k as int,
                cursor as int,
            ));
        }
        cursor = en;
        k = k + 1;
    }
    escape_html_range(&mut b, s, cursor, s.len());
    assert(b@ =~= text_bytes(s@));
    Emission::Custom { cr: false, bytes: b, plain_children: false }
}

// ----- the link and image overrides -----

/// The string whose escaped form goes into `href`/`src`: the rewritten URL
/// when a URL rewriter is configured, the node's own URL otherwise.
pub open spec fn href_target(url: Seq<u8>, rw: Option<Seq<u8>>) -> Seq<u8> {
    match rw {
        Option::Some(r) => r,
        Option::None => url,
    }
}

/// The attribute-escaped form of a URL: written out in full for URLs without
/// a `[`, the escaper's named result for the rest (which may open with a
/// bracketed IPv6 host that passes through unescaped).
pub open spec fn escaped_href_value(s: Seq<u8>, relaxed: bool) -> Seq<u8> {
    if s.contains('[' as u8) {
        href_escaped(s, relaxed)
    } else {
        href_escape_plain(s)
    }
}

/// The value of the `href`/`src` attribute: empty when unsafe rendering is
/// off and the node's own URL is dangerous, the escaped target otherwise.
pub open spec fn href_value(opts: RenderOptions, url: Seq<u8>, rw: Option<Seq<u8>>) -> Seq<u8> {
    if opts.unsafe_ || !is_dangerous_url(url) {
        escaped_href_value(href_target(url, rw), opts.relaxed_autolinks)
    } else {
        Seq::empty()
    }
}

pub open spec fn rewritten_view(rw: Option<&Vec<u8>>) -> Option<Seq<u8>> {
    match rw {
        Option::Some(v) => Option::Some(v@),
        Option::None => Option::None,
    }
}

/// The URL fields a link or image override reads must hold UTF-8, as every
/// string handed over by the parser does.
pub open spec fn url_inputs_wf(url: Seq<u8>, rw: Option<Seq<u8>>) -> bool {
    &&& valid_utf8(url)
    &&& match rw {
        Option::Some(r) => valid_utf8(r),
        Option::None => true,
    }
}

/// Appends the `href`/`src` attribute value for `url` to `out`.
fn push_href_value(
    out: &mut Vec<u8>,
    opts: &RenderOptions,
    url: &Vec<u8>,
    rw: Option<&Vec<u8>>,
)
    requires
        url_inputs_wf(url@, rewritten_view(rw)),
    ensures
        final(out)@ == old(out)@ + href_value(*opts, url@, rewritten_view(rw)),
{
    if opts.unsafe_ || !url_is_dangerous(url.as_slice()) {
        let target: &Vec<u8> = match rw {
            Option::Some(v) => v,
            Option::None => url,
        };
        escape_href_into(out, target.as_slice(), opts.relaxed_autolinks);
    }
}

/// The opening tag the link override emits.
pub open spec fn link_open_bytes(
    opts: RenderOptions,
    url: Seq<u8>,
    title: Seq<u8>,
    sp: Sourcepos,
    rw: Option<Seq<u8>>,
) -> Seq<u8> {
    lit_a_open() + sourcepos_attr(opts.sourcepos, sp) + lit_href_open() + href_value(opts, url, rw)
        + lit_quote() + (if title.len() > 0 {
        lit_title_open() + escaped_html(title) + lit_quote()
    } else {
        Seq::empty()
    }) + (if has_placeholder(url) {
        lit_data_placeholder()
    } else {
        Seq::empty()
    }) + lit_gt()
}

/// What the link override does: delegate unless placeholder detection is on
/// and the URL holds a placeholder; emit nothing at all for a link nested
/// directly inside another link while relaxed autolinks are active; otherwise
/// emit the annotated opening tag on entering and `</a>` on leaving.
pub open spec fn link_emission(
    opts: RenderOptions,
    url: Seq<u8>,
    title: Seq<u8>,
    parent: ParentKind,
    sp: Sourcepos,
    rw: Option<Seq<u8>>,
    entering: bool,
) -> EmissionModel {
    if !(opts.placeholder_detection && has_placeholder(url)) {
        EmissionModel::Delegate
    } else if opts.relaxed_autolinks && parent is Link {
        EmissionModel::Custom { cr: false, bytes: Seq::empty(), plain_children: false }
    } else if entering {
        EmissionModel::Custom {
            cr: false,
            bytes: link_open_bytes(opts, url, title, sp, rw),
            plain_children: false,
        }
    } else {
        EmissionModel::Custom { cr: false, bytes: lit_a_close(), plain_children: false }
    }
}

/// Renders one visit of a link node.
pub fn render_link(
    opts: &RenderOptions,
    link: &LinkData,
    parent: ParentKind,
    sp: &Sourcepos,
    rw: Option<&Vec<u8>>,
    entering: bool,
) -> (e: Emission)
    requires
        url_inputs_wf(link.url@, rewritten_view(rw)),
    ensures
        e@ == link_emission(*opts, link.url@, link.title@, parent, *sp, rewritten_view(rw), entering),
{
    let url = link.url.as_slice();
    if !opts.placeholder_detection || !contains_placeholder(url) {
        return Emission::Delegate;
    }
    if opts.relaxed_autolinks && matches!(parent, ParentKind::Link) {
        let bytes: Vec<u8> = Vec::new();
        return Emission::Custom { cr: false, bytes, plain_children: false };
    }
    let mut b: Vec<u8> = Vec::new();
    if entering {
        push_a_open(&mut b);
        push_sourcepos(&mut b, opts.sourcepos, sp);
        push_href_open(&mut b);
        push_href_value(&mut b, opts, &link.url, rw);
        push_quote(&mut b);
        if link.title.len() > 0 {
            push_title_open(&mut b);
            escape_html_range(&mut b, link.title.as_slice(), 0, link.title.len());
            push_quote(&mut b);
        }
        proof {
            assert(link.title@.subrange(0, link.title@.len() as int) =~= link.title@);
        }
        push_data_placeholder(&mut b);
        push_gt(&mut b);
        assert(b@ =~= link_open_bytes(*opts, link.url@, link.title@, *sp, rewritten_view(rw)));
    } else {
        push_a_close(&mut b);
    }
    Emission::Custom { cr: false, bytes: b, plain_children: false }
}

/// The opening bytes the image override emits; the walker then renders the
/// children as plain text into the open `alt` attribute.
pub open spec fn image_open_bytes(
    opts: RenderOptions,
    url: Seq<u8>,
    sp: Sourcepos,
    rw: Option<Seq<u8>>,
) -> Seq<u8> {
    (if opts.figure_with_caption {
        lit_figure_open()
    } else {
        Seq::empty()
    }) + lit_img_open() + sourcepos_attr(opts.sourcepos, sp) + lit_src_open() + href_value(
        opts,
        url,
        rw,
    ) + lit_quote() + (if has_placeholder(url) {
        lit_data_placeholder()
    } else {
        Seq::empty()
    }) + lit_alt_open()
}

/// The closing bytes the image override emits: the `alt` close with the
/// optional title, then the figure caption when figures are active.
pub open spec fn image_close_bytes(opts: RenderOptions, title: Seq<u8>) -> Seq<u8> {
    (if title.len() > 0 {
        lit_quote_title_open() + escaped_html(title)
    } else {
        Seq::empty()
    }) + lit_img_end() + (if opts.figure_with_caption {
        (if title.len() > 0 {
            lit_figcaption_open() + escaped_html(title) + lit_figcaption_close()
        } else {
            Seq::empty()
        }) + lit_figure_close()
    } else {
        Seq::empty()
    })
}

/// What the image override does: delegate unless placeholder detection is on
/// and the URL holds a placeholder; otherwise open the annotated `img` tag on
/// entering — leaving the `alt` attribute open for the children, rendered as
/// plain text — and close it on leaving.
pub open spec fn image_emission(
    opts: RenderOptions,
    url: Seq<u8>,
    title: Seq<u8>,
    sp: Sourcepos,
    rw: Option<Seq<u8>>,
    entering: bool,
) -> EmissionModel {
    if !(opts.placeholder_detection && has_placeholder(url)) {
        EmissionModel::Delegate
    } else if entering {
        EmissionModel::Custom {
            cr: false,
            bytes: image_open_bytes(opts, url, sp, rw),
            plain_children: true,
        }
    } else {
        EmissionModel::Custom {
            cr: false,
            bytes: image_close_bytes(opts, title),
            plain_children: false,
        }
    }
}

/// Renders one visit of an image node.
pub fn render_image(
    opts: &RenderOptions,
    image: &LinkData,
    sp: &Sourcepos,
    rw: Option<&Vec<u8>>,
    entering: bool,
) -> (e: Emission)
    requires
        url_inputs_wf(image.url@, rewritten_view(rw)),
    ensures
        e@ == image_emission(*opts, image.url@, image.title@, *sp, rewritten_view(rw), entering),
{
    let url = image.url.as_slice();
    if !opts.placeholder_detection || !contains_placeholder(url) {
        return Emission::Delegate;
    }
    let mut b: Vec<u8> = Vec::new();
    if entering {
        if opts.figure_with_caption {
            push_figure_open(&mut b);
        }
        push_img_open(&mut b);
        push_sourcepos(&mut b, opts.sourcepos, sp);
        push_src_open(&mut b);
        push_href_value(&mut b, opts, &image.url, rw);
        push_quote(&mut b);
        push_data_placeholder(&mut b);
        push_alt_open(&mut b);
        assert(b@ =~= image_open_bytes(*opts, image.url@, *sp, rewritten_view(rw)));
        Emission::Custom { cr: false, bytes: b, plain_children: true }
    } else {
        if image.title.len() > 0 {
            push_quote_title_open(&mut b);
            escape_html_range(&mut b, image.title.as_slice(), 0, image.title.len());
        }
        push_img_end(&mut b);
        if opts.figure_with_caption {
            if image.title.len() > 0 {
                push_figcaption_open(&mut b);
                escape_html_range(&mut b, image.title.as_slice(), 0, image.title.len());
                push_figcaption_close(&mut b);
            }
            push_figure_close(&mut b);
        }
        proof {
            assert(image.title@.subrange(0, image.title@.len() as int) =~= image.title@);
        }
        assert(b@ =~= image_close_bytes(*opts, image.title@));
        Emission::Custom { cr: false, bytes: b, plain_children: false }
    }
}

// ----- the list override -----

/// The opening tag the list override emits: the default formatter's tag with
/// the class `task-list` in place of its own task-list class name.
pub open spec fn list_bytes(opts: RenderOptions, l: ListData, sp: Sourcepos) -> Seq<u8> {
    let cls = if l.is_task_list {
        lit_task_list_class()
    } else {
        Seq::empty()
    };
    match l.style {
        ListStyle::Bullet => lit_ul_open() + cls + sourcepos_attr(opts.sourcepos, sp) + lit_gt_nl(),
        ListStyle::Ordered => lit_ol_open() + cls + sourcepos_attr(opts.sourcepos, sp) + (if l.start
            == 1 {
            lit_gt_nl()
        } else {
            lit_start_open() + dec_digits(l.start as nat) + lit_start_close()
        }),
    }
}

/// What the list override does: it exists only to rename the task-list CSS
/// class, so it emits the opening tag itself exactly when the tasklist-class
/// option is on and the visit is the entering one, and delegates otherwise
/// (in particular, the closing tag is always the default formatter's).
pub open spec fn list_emission(
    opts: RenderOptions,
    l: ListData,
    sp: Sourcepos,
    entering: bool,
) -> EmissionModel {
    if !entering || !opts.tasklist_classes {
        EmissionModel::Delegate
    } else {
        EmissionModel::Custom { cr: true, bytes: list_bytes(opts, l, sp), plain_children: false }
    }
}

/// Renders one visit of a list node.
pub fn render_list(opts: &RenderOptions, list: &ListData, sp: &Sourcepos, entering: bool) -> (e:
    Emission)
    ensures
        e@ == list_emission(*opts, *list, *sp, entering),
{
    if !entering || !opts.tasklist_classes {
        return Emission::Delegate;
    }
    let mut b: Vec<u8> = Vec::new();
    match list.style {
        ListStyle::Bullet => {
            push_ul_open(&mut b);
            if list.is_task_list {
                push_task_list_class(&mut b);
            }
            push_sourcepos(&mut b, opts.sourcepos, sp);
            push_gt_nl(&mut b);
        },
        ListStyle::Ordered => {
            push_ol_open(&mut b);
            if list.is_task_list {
                push_task_list_class(&mut b);
            }
            push_sourcepos(&mut b, opts.sourcepos, sp);
            if list.start == 1 {
                push_gt_nl(&mut b);
            } else {
                push_start_open(&mut b);
                push_decimal(&mut b, list.start);
                push_start_close(&mut b);
            }
        },
    }
    assert(b@ =~= list_bytes(*opts, *list, *sp));
    Emission::Custom { cr: true, bytes: b, plain_children: false }
}

// ----- the task-item override -----

/// The entering bytes for an inapplicable task item: a list item of class
/// `inapplicable` holding a disabled checkbox marked `data-inapplicable`.
pub open spec fn inapplicable_bytes(opts: RenderOptions, sp: Sourcepos) -> Seq<u8> {
    lit_li_inapplicable() + (if opts.tasklist_classes {
        lit_task_list_item()
    } else {
        Seq::empty()
    }) + lit_quote() + sourcepos_attr(opts.sourcepos, sp) + lit_gt() + lit_input_open() + (
    if opts.tasklist_classes {
        lit_checkbox_class()
    } else {
        Seq::empty()
    }) + lit_inapplicable_end()
}

/// The entering bytes for a task item with an unrecognized symbol: a plain
/// list item with the symbol as bracketed, escaped text — deliberately not a
/// checkbox.
pub open spec fn custom_symbol_bytes(opts: RenderOptions, sp: Sourcepos, c: char) -> Seq<u8> {
    lit_li_open() + (if opts.tasklist_classes {
        lit_task_list_item_class()
    } else {
        Seq::empty()
    }) + sourcepos_attr(opts.sourcepos, sp) + lit_gt() + lit_bracket_open() + symbol_escaped(c)
        + lit_bracket_close()
}

/// What the task-item override does. It acts only when inapplicable-task
/// detection is on and the symbol is present and not a recognized check mark
/// (`x`/`X`); the default formatter already renders those correctly. For `~`
/// it emits the inapplicable item, for any other symbol the bracketed-text
/// item; both close with `</li>` on the leaving visit.
pub open spec fn task_item_emission(
    opts: RenderOptions,
    t: TaskData,
    sp: Sourcepos,
    entering: bool,
) -> EmissionModel {
    if !opts.inapplicable_tasks {
        EmissionModel::Delegate
    } else {
        match t.symbol {
            Option::None => EmissionModel::Delegate,
            Option::Some(c) => {
                if c == 'x' || c == 'X' {
                    EmissionModel::Delegate
                } else if !entering {
                    EmissionModel::Custom {
                        cr: false,
                        bytes: lit_li_close(),
                        plain_children: false,
                    }
                } else if c == '~' {
                    EmissionModel::Custom {
                        cr: true,
                        bytes: inapplicable_bytes(opts, sp),
                        plain_children: false,
                    }
                } else {
                    EmissionModel::Custom {
                        cr: true,
                        bytes: custom_symbol_bytes(opts, sp, c),
                        plain_children: false,
                    }
                }
            },
        }
    }
}

/// Renders one visit of a task item node.
pub fn render_task_item(opts: &RenderOptions, task: &TaskData, sp: &Sourcepos, entering: bool) -> (e:
    Emission)
    ensures
        e@ == task_item_emission(*opts, *task, *sp, entering),
{
    if !opts.inapplicable_tasks {
        return Emission::Delegate;
    }
    let c: char = match task.symbol {
        Option::None => {
            return Emission::Delegate;
        },
        Option::Some(c) => c,
    };
    if c == 'x' || c == 'X' {
        return Emission::Delegate;
    }
    let mut b: Vec<u8> = Vec::new();
    if !entering {
        push_li_close(&mut b);
        return Emission::Custom { cr: false, bytes: b, plain_children: false };
    }
    if c == '~' {
        push_li_inapplicable(&mut b);
        if opts.tasklist_classes {
            push_task_list_item(&mut b);
        }
        push_quote(&mut b);
        push_sourcepos(&mut b, opts.sourcepos, sp);
        push_gt(&mut b);
        push_input_open(&mut b);
        if opts.tasklist_classes {
            push_checkbox_class(&mut b);
        }
        push_inapplicable_end(&mut b);
        assert(b@ =~= inapplicable_bytes(*opts, *sp));
    } else {
        push_li_open(&mut b);
        if opts.tasklist_classes {
            push_task_list_item_class(&mut b);
        }
        push_sourcepos(&mut b, opts.sourcepos, sp);
        push_gt(&mut b);
        push_bracket_open(&mut b);
        push_symbol_escaped(&mut b, c);
        push_bracket_close(&mut b);
        assert(b@ =~= custom_symbol_bytes(*opts, *sp, c));
    }
    Emission::Custom { cr: true, bytes: b, plain_children: false }
}

// ----- dispatch -----

/// The URL fields of a node must hold UTF-8, as every string handed over by
/// the parser does; the other fields are unconstrained.
pub open spec fn node_wf(node: NodeData, rw: Option<Seq<u8>>) -> bool {
    match node {
        NodeData::Link(l) => url_inputs_wf(l.url@, rw),
        NodeData::Image(l) => url_inputs_wf(l.url@, rw),
        _ => true,
    }
}

/// What the override layer does with one visit of one node: always the
/// default formatter when the default-HTML master switch is set, otherwise
/// the override for the node's kind.
pub open spec fn node_emission(
    opts: RenderOptions,
    node: NodeData,
    parent: ParentKind,
    sp: Sourcepos,
    rw: Option<Seq<u8>>,
    entering: bool,
) -> EmissionModel {
    if opts.default_html {
        EmissionModel::Delegate
    } else {
        match node {
            NodeData::Text(t) => text_emission(opts, t.literal@, parent, entering),
            NodeData::Link(l) => link_emission(opts, l.url@, l.title@, parent, sp, rw, entering),
            NodeData::Image(l) => image_emission(opts, l.url@, l.title@, sp, rw, entering),
            NodeData::List(l) => list_emission(opts, l, sp, entering),
            NodeData::TaskItem(t) => task_item_emission(opts, t, sp, entering),
        }
    }
}

/// Renders one visit of one node: routes the node to the override for its
/// kind, or to the default formatter (`Delegate`) when the master switch
/// bypasses the overrides.
pub fn render_node(
    opts: &RenderOptions,
    node: &NodeData,
    parent: ParentKind,
    sp: &Sourcepos,
    rw: Option<&Vec<u8>>,
    entering: bool,
) -> (e: Emission)
    requires
        node_wf(*node, rewritten_view(rw)),
    ensures
        e@ == node_emission(*opts, *node, parent, *sp, rewritten_view(rw), entering),
{
    if opts.default_html {
        return Emission::Delegate;
    }
    match node {
        NodeData::Text(t) => render_text(opts, t, parent, entering),
        NodeData::Link(l) => render_link(opts, l, parent, sp, rw, entering),
        NodeData::Image(l) => render_image(opts, l, sp, rw, entering),
        NodeData::List(l) => render_list(opts, l, sp, entering),
        NodeData::TaskItem(t) => render_task_item(opts, t, sp, entering),
    }
}

// ----- laws -----

/// For text holding no placeholder — and for any text while detection is off —
/// the override delegates, so its output is the default formatter's output,
/// byte for byte.
pub proof fn lemma_text_without_placeholder_delegates(
    opts: RenderOptions,
    literal: Seq<u8>,
    parent: ParentKind,
    entering: bool,
)
    requires
        !(opts.placeholder_detection && has_placeholder(literal)),
    ensures
        text_emission(opts, literal, parent, entering) == EmissionModel::Delegate,
{
}

/// Rendering is a pure function of the node, its context and the options: any
/// two emissions of the same visit are equal, so rendering the same tree with
/// the same options twice yields byte-identical output.
pub proof fn lemma_rendering_deterministic(
    e1: EmissionModel,
    e2: EmissionModel,
    opts: RenderOptions,
    node: NodeData,
    parent: ParentKind,
    sp: Sourcepos,
    rw: Option<Seq<u8>>,
    entering: bool,
)
    requires
        e1 == node_emission(opts, node, parent, sp, rw, entering),
        e2 == node_emission(opts, node, parent, sp, rw, entering),
    ensures
        e1 == e2,
{
}

/// A URL the dangerous-URL predicate flags is rendered with an empty
/// `href`/`src` value when unsafe rendering is off, and with its real escaped
/// value when unsafe rendering is on; a URL it does not flag always keeps its
/// value.
pub proof fn lemma_dangerous_url_suppressed(opts: RenderOptions, url: Seq<u8>, rw: Option<Seq<u8>>)
    ensures
        is_dangerous_url(url) && !opts.unsafe_ ==> href_value(opts, url, rw) == Seq::<u8>::empty(),
        opts.unsafe_ || !is_dangerous_url(url) ==> href_value(opts, url, rw)
            == escaped_href_value(href_target(url, rw), opts.relaxed_autolinks),
{
}

/// For a link or image whose URL holds no placeholder — and for any while
/// detection is off — the overrides delegate, so their output is the default
/// formatter's output, byte for byte.
pub proof fn lemma_url_without_placeholder_delegates(
    opts: RenderOptions,
    url: Seq<u8>,
    title: Seq<u8>,
    parent: ParentKind,
    sp: Sourcepos,
    rw: Option<Seq<u8>>,
    entering: bool,
)
    requires
        !(opts.placeholder_detection && has_placeholder(url)),
    ensures
        link_emission(opts, url, title, parent, sp, rw, entering) == EmissionModel::Delegate,
        image_emission(opts, url, title, sp, rw, entering) == EmissionModel::Delegate,
{
}

} // verus!
