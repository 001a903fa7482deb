use vstd::prelude::*;

verus! {

/// A word byte: an ASCII letter, an ASCII digit, or an underscore.
pub open spec fn is_word_byte(b: u8) -> bool {
    ||| 'a' as u8 <= b <= 'z' as u8
    ||| 'A' as u8 <= b <= 'Z' as u8
    ||| '0' as u8 <= b <= '9' as u8
    ||| b == '_' as u8
}

/// Length of the maximal run of word bytes starting at position `i`.
pub open spec fn word_run(s: Seq<u8>, i: int) -> int
    decreases s.len() - i,
{
    if 0 <= i < s.len() && is_word_byte(s[i]) {
        1 + word_run(s, i + 1)
    } else {
        0
    }
}

/// A placeholder written with literal braces starts at `i`: `%{` followed by
/// one to thirty word bytes and a closing `}`.
pub open spec fn brace_match(s: Seq<u8>, i: int) -> bool {
    let r = word_run(s, i + 2);
    &&& 0 <= i
    &&& i + 1 < s.len()
    &&& s[i] == '%' as u8
    &&& s[i + 1] == '{' as u8
    &&& 1 <= r <= 30
    &&& i + 2 + r < s.len()
    &&& s[i + 2 + r] == '}' as u8
}

/// A placeholder written with percent-encoded braces starts at `i`: `%7B`
/// followed by one to thirty word bytes and a closing `%7D`.
pub open spec fn encoded_match(s: Seq<u8>, i: int) -> bool {
    let r = word_run(s, i + 3);
    &&& 0 <= i
    &&& i + 2 < s.len()
    &&& s[i] == '%' as u8
    &&& s[i + 1] == '7' as u8
    &&& s[i + 2] == 'B' as u8
    &&& 1 <= r <= 30
    &&& i + 3 + r + 2 < s.len()
    &&& s[i + 3 + r] == '%' as u8
    &&& s[i + 3 + r + 1] == '7' as u8
    &&& s[i + 3 + r + 2] == 'D' as u8
}

/// Length of the placeholder token starting at position `i`, or 0 when no
/// placeholder starts there. The two written forms cannot both start at one
/// position, since they disagree on the byte after `%`.
pub open spec fn match_len(s: Seq<u8>, i: int) -> int {
    if brace_match(s, i) {
        word_run(s, i + 2) + 3
    } else if encoded_match(s, i) {
        word_run(s, i + 3) + 6
    } else {
        0
    }
}

/// The non-overlapping placeholder matches at or after position `i`, scanning
/// left to right and resuming after the end of each match, as `(start, end)`
/// offset pairs.
pub open spec fn matches_from(s: Seq<u8>, i: int) -> Seq<(int, int)>
    decreases s.len() - i,
{
    if !(0 <= i < s.len()) {
        Seq::empty()
    } else if match_len(s, i) > 0 {
        seq![(i, i + match_len(s, i))] + matches_from(s, i + match_len(s, i))
    } else {
        matches_from(s, i + 1)
    }
}

/// All placeholder matches in `s`, leftmost first.
pub open spec fn placeholder_matches(s: Seq<u8>) -> Seq<(int, int)> {
    matches_from(s, 0)
}

/// Whether `s` contains at least one placeholder.
pub open spec fn has_placeholder(s: Seq<u8>) -> bool {
    placeholder_matches(s).len() > 0
}

pub proof fn lemma_word_run_nonneg(s: Seq<u8>, i: int)
    ensures
        word_run(s, i) >= 0,
    decreases s.len() - i,
{
    if 0 <= i < s.len() && is_word_byte(s[i]) {
        lemma_word_run_nonneg(s, i + 1);
    }
}

/// A match has length at least four and ends within the sequence.
pub proof fn lemma_match_len_bounds(s: Seq<u8>, i: int)
    ensures
        match_len(s, i) == 0 || (4 <= match_len(s, i) && i + match_len(s, i) <= s.len()),
{
    if brace_match(s, i) {
        lemma_word_run_nonneg(s, i + 2);
    } else if encoded_match(s, i) {
        lemma_word_run_nonneg(s, i + 3);
    }
}

/// Every match lies within the sequence, is at least four bytes long, and the
/// matches are in increasing order without overlap.
pub proof fn lemma_matches_wf(s: Seq<u8>, i: int)
    requires
        0 <= i <= s.len(),
    ensures
        forall|k: int|
            0 <= k < matches_from(s, i).len() ==> {
                let m = #[trigger] matches_from(s, i)[k];
                &&& i <= m.0
                &&& m.0 + 4 <= m.1
                &&& m.1 <= s.len()
                &&& (k + 1 < matches_from(s, i).len() ==> m.1 <= matches_from(s, i)[k + 1].0)
            },
    decreases s.len() - i,
{
    if i < s.len() {
        lemma_match_len_bounds(s, i);
        if match_len(s, i) > 0 {
            let l = match_len(s, i);
            lemma_matches_wf(s, i + l);
            let rest = matches_from(s, i + l);
            let ms = matches_from(s, i);
            assert(ms == seq![(i, i + l)] + rest);
            assert forall|k: int| 0 <= k < ms.len() implies {
                let m = #[trigger] ms[k];
                &&& i <= m.0
                &&& m.0 + 4 <= m.1
                &&& m.1 <= s.len()
                &&& (k + 1 < ms.len() ==> m.1 <= ms[k + 1].0)
            } by {
                if k >= 1 {
                    assert(ms[k] == rest[k - 1]);
                }
                if k + 1 < ms.len() {
                    assert(ms[k + 1] == rest[k]);
                }
            }
        } else {
            lemma_matches_wf(s, i + 1);
            let rest = matches_from(s, i + 1);
            let ms = matches_from(s, i);
            assert(ms == rest);
            assert forall|k: int| 0 <= k < ms.len() implies {
                let m = #[trigger] ms[k];
                &&& i <= m.0
                &&& m.0 + 4 <= m.1
                &&& m.1 <= s.len()
                &&& (k + 1 < ms.len() ==> m.1 <= ms[k + 1].0)
            } by {
                assert(ms[k] == rest[k]);
                if k + 1 < ms.len() {
                    assert(ms[k + 1] == rest[k + 1]);
                }
            }
        }
    }
}

fn is_word_byte_exec(b: u8) -> (r: bool)
    ensures
        r == is_word_byte(b),
{
    ('a' <= b as char && b as char <= 'z') || ('A' <= b as char && b as char <= 'Z')
        || ('0' <= b as char && b as char <= '9') || b as char == '_'
}

/// The length of the run of word bytes starting at `i`, capped at 31: runs of
/// 31 or more bytes are already too long for a placeholder name.
fn word_run_capped(s: &[u8], i: usize) -> (r: usize)
    requires
        i <= s@.len(),
    ensures
        r as int == if word_run(s@, i as int) > 31 { 31int } else { word_run(s@, i as int) },
{
    proof { lemma_word_run_nonneg(s@, i as int); }
    let mut j = i;
    while j < s.len() && j - i < 31 && is_word_byte_exec(s[j])
        invariant
            i <= j <= s@.len(),
            j - i <= 31,
            word_run(s@, i as int) == (j - i) + word_run(s@, j as int),
        decreases s@.len() - j,
    {
        proof { lemma_word_run_nonneg(s@, j + 1); }
        j = j + 1;
    }
    proof { lemma_word_run_nonneg(s@, j as int); }
    j - i
}

/// The length of the placeholder token starting at `i`, or 0 when none starts
/// there.
pub fn match_len_at(s: &[u8], i: usize) -> (l: usize)
    requires
        i <= s@.len(),
    ensures
        l == match_len(s@, i as int),
{
    if i < s.len() && s.len() - i >= 2 && s[i] == '%' as u8 && s[i + 1] == '{' as u8 {
        let r = word_run_capped(s, i + 2);
        if 1 <= r && r <= 30 && r < s.len() - (i + 2) && s[i + 2 + r] == '}' as u8 {
            r + 3
        } else {
            0
        }
    } else if i < s.len() && s.len() - i >= 3 && s[i] == '%' as u8 && s[i + 1] == '7' as u8
        && s[i + 2] == 'B' as u8 {
        let r = word_run_capped(s, i + 3);
        if 1 <= r && r <= 30 && r + 2 < s.len() - (i + 3) && s[i + 3 + r] == '%' as u8
            && s[i + 3 + r + 1] == '7' as u8 && s[i + 3 + r + 2] == 'D' as u8 {
            r + 6
        } else {
            0
        }
    } else {
        0
    }
}

/// All placeholder matches in `s` as `(start, end)` byte offsets, leftmost
/// first, non-overlapping.
pub fn find_placeholders(s: &[u8]) -> (ms: Vec<(usize, usize)>)
    ensures
        ms@.map_values(|m: (usize, usize)| (m.0 as int, m.1 as int)) == placeholder_matches(s@),
{
    let mut ms: Vec<(usize, usize)> = Vec::new();
    let mut i: usize = 0;
    while i < s.len()
        invariant
            i <= s@.len(),
            placeholder_matches(s@) == ms@.map_values(|m: (usize, usize)| (m.0 as int, m.1 as int))
                + matches_from(s@, i as int),
        decreases s@.len() - i,
    {
        let l = match_len_at(s, i);
        proof { lemma_match_len_bounds(s@, i as int); }
        if l > 0 {
            let ghost prev = ms@;
            ms.push((i, i + l));
            proof {
                assert(ms@.map_values(|m: (usize, usize)| (m.0 as int, m.1 as int)) =~= prev.map_values(
                    |m: (usize, usize)| (m.0 as int, m.1 as int),
                ) + seq![(i as int, i + l as int)]);
            }
            i = i + l;
        } else {
            i = i + 1;
        }
    }
    assert(ms@.map_values(|m: (usize, usize)| (m.0 as int, m.1 as int)) =~= placeholder_matches(s@));
    ms
}

/// Whether `s` contains at least one placeholder.
pub fn contains_placeholder(s: &[u8]) -> (b: bool)
    ensures
        b == has_placeholder(s@),
{
    let ms = find_placeholders(s);
    assert(ms@.len() == placeholder_matches(s@).len());
    ms.len() > 0
}

/// The maximal word run over `[i, j)` is exactly `j - i` when every byte
/// there is a word byte and position `j` is the end or a non-word byte.
pub proof fn lemma_word_run_exact(s: Seq<u8>, i: int, j: int)
    requires
        0 <= i <= j <= s.len(),
        forall|m: int| i <= m < j ==> is_word_byte(#[trigger] s[m]),
        j == s.len() || !is_word_byte(s[j]),
    ensures
        word_run(s, i) == j - i,
    decreases j - i,
{
    if i < j {
        lemma_word_run_exact(s, i + 1, j);
    }
}

/// When no position carries a match, the match list is empty.
pub proof fn lemma_no_match_anywhere(s: Seq<u8>, i: int)
    requires
        0 <= i,
        forall|k: int| i <= k < s.len() ==> #[trigger] match_len(s, k) == 0,
    ensures
        matches_from(s, i).len() == 0,
    decreases s.len() - i,
{
    if 0 <= i < s.len() {
        lemma_no_match_anywhere(s, i + 1);
    }
}

/// A name of one to thirty word bytes between literal braces is detected.
pub proof fn lemma_brace_placeholder_detected(name: Seq<u8>)
    requires
        1 <= name.len() <= 30,
        forall|m: int| 0 <= m < name.len() ==> is_word_byte(#[trigger] name[m]),
    ensures
        has_placeholder(seq!['%' as u8, '{' as u8] + name + seq!['}' as u8]),
{
    let s = seq!['%' as u8, '{' as u8] + name + seq!['}' as u8];
    assert forall|m: int| 2 <= m < 2 + name.len() as int implies is_word_byte(#[trigger] s[m]) by {
        assert(s[m] == name[m - 2]);
    }
    assert(s[2 + name.len() as int] == '}' as u8);
    lemma_word_run_exact(s, 2, 2 + name.len() as int);
    assert(brace_match(s, 0));
    assert(matches_from(s, 0).len() > 0);
}

/// A name of one to thirty word bytes between percent-encoded braces is
/// detected.
pub proof fn lemma_encoded_placeholder_detected(name: Seq<u8>)
    requires
        1 <= name.len() <= 30,
        forall|m: int| 0 <= m < name.len() ==> is_word_byte(#[trigger] name[m]),
    ensures
        has_placeholder(
            seq!['%' as u8, '7' as u8, 'B' as u8] + name + seq!['%' as u8, '7' as u8, 'D' as u8],
        ),
{
    let s = seq!['%' as u8, '7' as u8, 'B' as u8] + name + seq!['%' as u8, '7' as u8, 'D' as u8];
    assert forall|m: int| 3 <= m < 3 + name.len() as int implies is_word_byte(#[trigger] s[m]) by {
        assert(s[m] == name[m - 3]);
    }
    assert(s[3 + name.len() as int] == '%' as u8);
    assert(s[3 + name.len() as int + 1] == '7' as u8);
    assert(s[3 + name.len() as int + 2] == 'D' as u8);
    lemma_word_run_exact(s, 3, 3 + name.len() as int);
    assert(encoded_match(s, 0));
    assert(matches_from(s, 0).len() > 0);
}

/// `%{}` — an empty name — is not detected.
pub proof fn lemma_empty_name_not_detected()
    ensures
        !has_placeholder(seq!['%' as u8, '{' as u8, '}' as u8]),
{
    let s = seq!['%' as u8, '{' as u8, '}' as u8];
    assert forall|k: int| 0 <= k < s.len() implies #[trigger] match_len(s, k) == 0 by {
        assert(!brace_match(s, k));
        assert(!encoded_match(s, k));
    }
    lemma_no_match_anywhere(s, 0);
}

/// A braced name of thirty-one or more word bytes is not detected.
pub proof fn lemma_long_name_not_detected(name: Seq<u8>)
    requires
        name.len() >= 31,
        forall|m: int| 0 <= m < name.len() ==> is_word_byte(#[trigger] name[m]),
    ensures
        !has_placeholder(seq!['%' as u8, '{' as u8] + name + seq!['}' as u8]),
{
    let s = seq!['%' as u8, '{' as u8] + name + seq!['}' as u8];
    assert forall|m: int| 2 <= m < 2 + name.len() as int implies is_word_byte(#[trigger] s[m]) by {
        assert(s[m] == name[m - 2]);
    }
    lemma_word_run_exact(s, 2, 2 + name.len() as int);
    assert forall|k: int| 0 <= k < s.len() implies #[trigger] match_len(s, k) == 0 by {
        if k == 0 {
            assert(word_run(s, 2) >= 31);
            assert(!brace_match(s, k));
            assert(!encoded_match(s, k));
        } else if 2 <= k < 2 + name.len() as int {
            assert(is_word_byte(s[k]));
            assert(s[k] != '%' as u8);
            assert(!brace_match(s, k));
            assert(!encoded_match(s, k));
        } else {
            assert(s[k] != '%' as u8);
            assert(!brace_match(s, k));
            assert(!encoded_match(s, k));
        }
    }
    lemma_no_match_anywhere(s, 0);
}

} // verus!
