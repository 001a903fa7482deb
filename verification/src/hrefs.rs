use vstd::prelude::*;
use vstd::utf8::valid_utf8;
use vstd::utf8::encode_utf8;
use crate::escape::escaped_html;

verus! {

/// A byte that the attribute escaper passes through unchanged: an ASCII
/// alphanumeric or one of `-_.+!*(),#@?=;:/$~`.
pub open spec fn href_safe_byte(b: u8) -> bool {
    ||| 'a' as u8 <= b <= 'z' as u8
    ||| 'A' as u8 <= b <= 'Z' as u8
    ||| '0' as u8 <= b <= '9' as u8
    ||| b == '-' as u8
    ||| b == '_' as u8
    ||| b == '.' as u8
    ||| b == '+' as u8
    ||| b == '!' as u8
    ||| b == '*' as u8
    ||| b == '(' as u8
    ||| b == ')' as u8
    ||| b == ',' as u8
    ||| b == '#' as u8
    ||| b == '@' as u8
    ||| b == '?' as u8
    ||| b == '=' as u8
    ||| b == ';' as u8
    ||| b == ':' as u8
    ||| b == '/' as u8
    ||| b == '$' as u8
    ||| b == '~' as u8
}

pub open spec fn is_hex_digit_byte(b: u8) -> bool {
    ||| '0' as u8 <= b <= '9' as u8
    ||| 'a' as u8 <= b <= 'f' as u8
    ||| 'A' as u8 <= b <= 'F' as u8
}

/// The uppercase hexadecimal digit for a value below sixteen.
pub open spec fn hex_digit(v: u8) -> u8 {
    if v < 10 {
        ('0' as u8 + v) as u8
    } else {
        ('A' as u8 + (v - 10)) as u8
    }
}

/// How the attribute escaper rewrites a URL that carries no IPv6 host
/// bracket: safe bytes pass through; `&` and `'` become entities; `%` passes
/// through exactly when two hexadecimal digits follow it (an already
/// percent-encoded byte), and otherwise becomes `%25`; a NUL byte becomes the
/// encoded U+FFFD; every other byte is percent-encoded.
pub open spec fn href_escape_plain(s: Seq<u8>) -> Seq<u8>
    decreases s.len(),
{
    if s.len() == 0 {
        Seq::empty()
    } else {
        let b = s[0];
        if b == '&' as u8 {
            seq!['&' as u8, 'a' as u8, 'm' as u8, 'p' as u8, ';' as u8] + href_escape_plain(s.drop_first())
        } else if b == '\'' as u8 {
            seq!['&' as u8, '#' as u8, 'x' as u8, '2' as u8, '7' as u8, ';' as u8] + href_escape_plain(s.drop_first())
        } else if b == '%' as u8 {
            if s.len() >= 3 && is_hex_digit_byte(s[1]) && is_hex_digit_byte(s[2]) {
                s.subrange(0, 3) + href_escape_plain(s.skip(3))
            } else {
                seq!['%' as u8, '2' as u8, '5' as u8] + href_escape_plain(s.drop_first())
            }
        } else if b == 0 {
            seq!['%' as u8, 'E' as u8, 'F' as u8, '%' as u8, 'B' as u8, 'F' as u8, '%' as u8, 'B' as u8, 'D' as u8]
                + href_escape_plain(s.drop_first())
        } else if href_safe_byte(b) {
            seq![b] + href_escape_plain(s.drop_first())
        } else {
            seq!['%' as u8, hex_digit(b / 16), hex_digit(b % 16)] + href_escape_plain(s.drop_first())
        }
    }
}

/// What the external attribute escaper emits for a URL. For URLs that may
/// open with a bracketed IPv6 host the exact result depends on the escaper's
/// address scanner, so the result is named rather than written out; the
/// wrapper below ties it to `href_escape_plain` for every bracket-free URL.
pub uninterp spec fn href_escaped(s: Seq<u8>, relaxed_ipv6: bool) -> Seq<u8>;

/// Relies on comrak::html::escape_href: escapes a URL for use in an HTML
/// attribute. Safe bytes pass through; `&` and `'` become entities; `%`
/// passes through exactly when followed by two hex digits, else becomes
/// `%25`; other bytes are percent-encoded. A prefix of the form
/// `scheme://[ipv6]` (which requires a `[`) is passed through unescaped, so
/// the result is only pinned down for URLs without `[`.
#[verifier::external_body]
pub fn escape_href_into(out: &mut Vec<u8>, s: &[u8], relaxed_ipv6: bool)
    requires
        valid_utf8(s@),
    ensures
        final(out)@ == old(out)@ + href_escaped(s@, relaxed_ipv6),
        !s@.contains('[' as u8) ==> final(out)@ == old(out)@ + href_escape_plain(s@),
{
    let text = std::str::from_utf8(s).unwrap();
    let mut buf = String::new();
    comrak::html::escape_href(&mut buf, text, relaxed_ipv6).unwrap();
    out.extend_from_slice(buf.as_bytes());
}

/// Whether the formatter's dangerous-URL predicate flags `s`: a scheme of
/// `javascript:`, `vbscript:`, `file:`, or `data:` other than a
/// `data:image/(png|gif|jpeg|webp)` payload, compared without regard to
/// ASCII case.
pub open spec fn is_dangerous_url(s: Seq<u8>) -> bool {
    let l = lower_bytes(s);
    &&& {
        ||| starts_with(l, seq!['j' as u8, 'a' as u8, 'v' as u8, 'a' as u8, 's' as u8, 'c' as u8, 'r' as u8, 'i' as u8, 'p' as u8, 't' as u8, ':' as u8])
        ||| starts_with(l, seq!['v' as u8, 'b' as u8, 's' as u8, 'c' as u8, 'r' as u8, 'i' as u8, 'p' as u8, 't' as u8, ':' as u8])
        ||| starts_with(l, seq!['f' as u8, 'i' as u8, 'l' as u8, 'e' as u8, ':' as u8])
        ||| starts_with(l, seq!['d' as u8, 'a' as u8, 't' as u8, 'a' as u8, ':' as u8])
    }
    &&& !{
        let img = seq!['d' as u8, 'a' as u8, 't' as u8, 'a' as u8, ':' as u8, 'i' as u8, 'm' as u8, 'a' as u8, 'g' as u8, 'e' as u8, '/' as u8];
        ||| starts_with(l, img + seq!['p' as u8, 'n' as u8, 'g' as u8])
        ||| starts_with(l, img + seq!['g' as u8, 'i' as u8, 'f' as u8])
        ||| starts_with(l, img + seq!['j' as u8, 'p' as u8, 'e' as u8, 'g' as u8])
        ||| starts_with(l, img + seq!['w' as u8, 'e' as u8, 'b' as u8, 'p' as u8])
    }
}

pub open spec fn lower_byte(b: u8) -> u8 {
    if 'A' as u8 <= b <= 'Z' as u8 {
        (b + 32) as u8
    } else {
        b
    }
}

pub open spec fn lower_bytes(s: Seq<u8>) -> Seq<u8> {
    s.map_values(|b: u8| lower_byte(b))
}

pub open spec fn starts_with(s: Seq<u8>, prefix: Seq<u8>) -> bool {
    prefix.len() <= s.len() && s.subrange(0, prefix.len() as int) == prefix
}

/// Relies on comrak::html::dangerous_url: flags a URL whose scheme is
/// `javascript:`, `vbscript:`, `file:`, or `data:` except for the four
/// `data:image/...` forms, matched case-insensitively at the start of the
/// URL.
#[verifier::external_body]
pub fn url_is_dangerous(s: &[u8]) -> (r: bool)
    requires
        valid_utf8(s@),
    ensures
        r == is_dangerous_url(s@),
{
    comrak::html::dangerous_url(std::str::from_utf8(s).unwrap())
}

/// Relies on char::to_string and String::into_bytes: the UTF-8 encoding of
/// one character.
#[verifier::external_body]
pub fn char_utf8_bytes(c: char) -> (r: Vec<u8>)
    ensures
        r@ == encode_utf8(seq![c]),
{
    c.to_string().into_bytes()
}

/// The bracketed text a task item with an unrecognized symbol renders:
/// the symbol's UTF-8 form, HTML-escaped.
pub open spec fn symbol_escaped(c: char) -> Seq<u8> {
    escaped_html(encode_utf8(seq![c]))
}

/// Appends the HTML-escaped UTF-8 form of `c` to `out`.
pub fn push_symbol_escaped(out: &mut Vec<u8>, c: char)
    ensures
        final(out)@ == old(out)@ + symbol_escaped(c),
{
    let bytes = char_utf8_bytes(c);
    crate::escape::escape_html_into(out, bytes.as_slice());
}

} // verus!
