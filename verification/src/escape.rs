use vstd::prelude::*;

verus! {

/// What one byte becomes under the formatter's HTML escaping: `"` `&` `<` `>`
/// become character entities, a NUL byte becomes U+FFFD, and every other byte
/// passes through unchanged.
pub open spec fn escape_byte(b: u8) -> Seq<u8> {
    if b == '"' as u8 {
        seq!['&' as u8, 'q' as u8, 'u' as u8, 'o' as u8, 't' as u8, ';' as u8]
    } else if b == '&' as u8 {
        seq!['&' as u8, 'a' as u8, 'm' as u8, 'p' as u8, ';' as u8]
    } else if b == '<' as u8 {
        seq!['&' as u8, 'l' as u8, 't' as u8, ';' as u8]
    } else if b == '>' as u8 {
        seq!['&' as u8, 'g' as u8, 't' as u8, ';' as u8]
    } else if b == 0 {
        seq![0xefu8, 0xbfu8, 0xbdu8]
    } else {
        seq![b]
    }
}

/// The HTML-escaped form of a byte sequence: each byte mapped by
/// `escape_byte`, in order.
pub open spec fn escaped_html(s: Seq<u8>) -> Seq<u8>
    decreases s.len(),
{
    if s.len() == 0 {
        Seq::empty()
    } else {
        escaped_html(s.drop_last()) + escape_byte(s.last())
    }
}

/// Appends the HTML-escaped form of `s[from..to]` to `out`. This is the same
/// escaping the external formatter applies to free text.
pub fn escape_html_range(out: &mut Vec<u8>, s: &[u8], from: usize, to: usize)
    requires
        from <= to <= s@.len(),
    ensures
        final(out)@ == old(out)@ + escaped_html(s@.subrange(from as int, to as int)),
{
    let mut j: usize = from;
    while j < to
        invariant
            from <= j <= to <= s@.len(),
            out@ == old(out)@ + escaped_html(s@.subrange(from as int, j as int)),
        decreases to - j,
    {
        let b = s[j];
        if b == '"' as u8 {
            out.extend_from_slice(['&' as u8, 'q' as u8, 'u' as u8, 'o' as u8, 't' as u8, ';' as u8].as_slice());
        } else if b == '&' as u8 {
            out.extend_from_slice(['&' as u8, 'a' as u8, 'm' as u8, 'p' as u8, ';' as u8].as_slice());
        } else if b == '<' as u8 {
            out.extend_from_slice(['&' as u8, 'l' as u8, 't' as u8, ';' as u8].as_slice());
        } else if b == '>' as u8 {
            out.extend_from_slice(['&' as u8, 'g' as u8, 't' as u8, ';' as u8].as_slice());
        } else if b == 0 {
            out.extend_from_slice([0xefu8, 0xbfu8, 0xbdu8].as_slice());
        } else {
            out.push(b);
        }
        proof {
            assert(s@.subrange(from as int, j + 1).drop_last() =~= s@.subrange(
                from as int,
                j as int,
            ));
            assert(s@.subrange(from as int, j + 1).last() == s@[j as int]);
            assert(out@ =~= old(out)@ + escaped_html(s@.subrange(from as int, j + 1)));
        }
        j = j + 1;
    }
}

/// Appends the HTML-escaped form of all of `s` to `out`.
pub fn escape_html_into(out: &mut Vec<u8>, s: &[u8])
    ensures
        final(out)@ == old(out)@ + escaped_html(s@),
{
    escape_html_range(out, s, 0, s.len());
    proof {
        assert(s@.subrange(0, s@.len() as int) =~= s@);
    }
}

/// The decimal digits of `n`, most significant first.
pub open spec fn dec_digits(n: nat) -> Seq<u8>
    decreases n,
{
    if n < 10 {
        seq![('0' as u8 + n) as u8]
    } else {
        dec_digits(n / 10) + seq![('0' as u8 + n % 10) as u8]
    }
}

/// Appends the decimal form of `n` to `out`.
pub fn push_decimal(out: &mut Vec<u8>, n: usize)
    ensures
        final(out)@ == old(out)@ + dec_digits(n as nat),
    decreases n,
{
    if n < 10 {
        out.push('0' as u8 + n as u8);
    } else {
        push_decimal(out, n / 10);
        out.push('0' as u8 + (n % 10) as u8);
    }
}

} // verus!
