//! Line-oriented `key: value` reports.
use vstd::prelude::*;

verus! {

/// Unicode whitespace (the `White_Space` property), as `char::is_whitespace`
/// decides it.
pub open spec fn is_ws(c: char) -> bool {
    ||| ('\u{9}' <= c <= '\u{d}')
    ||| c == ' '
    ||| c == '\u{85}'
    ||| c == '\u{a0}'
    ||| c == '\u{1680}'
    ||| ('\u{2000}' <= c <= '\u{200a}')
    ||| c == '\u{2028}'
    ||| c == '\u{2029}'
    ||| c == '\u{202f}'
    ||| c == '\u{205f}'
    ||| c == '\u{3000}'
}

/// Decides `is_ws`.
pub fn is_whitespace(c: char) -> (r: bool)
    ensures
        r == is_ws(c),
{
    ('\u{9}' <= c && c <= '\u{d}') || c == ' ' || c == '\u{85}' || c == '\u{a0}' || c
        == '\u{1680}' || ('\u{2000}' <= c && c <= '\u{200a}') || c == '\u{2028}' || c
        == '\u{2029}' || c == '\u{202f}' || c == '\u{205f}' || c == '\u{3000}'
}

/// The first index at or after `i` that does not hold whitespace.
pub open spec fn skip_ws(s: Seq<char>, i: int) -> int
    decreases s.len() - i,
{
    if 0 <= i < s.len() && is_ws(s[i]) {
        skip_ws(s, i + 1)
    } else {
        i
    }
}

/// The end of the run of non-whitespace characters that starts at `i`.
pub open spec fn word_end(s: Seq<char>, i: int) -> int
    decreases s.len() - i,
{
    if 0 <= i < s.len() && !is_ws(s[i]) {
        word_end(s, i + 1)
    } else {
        i
    }
}

/// The end of `s[lo..hi]` once trailing whitespace is dropped.
pub open spec fn trim_back(s: Seq<char>, lo: int, hi: int) -> int
    decreases hi - lo,
{
    if lo < hi && is_ws(s[hi - 1]) {
        trim_back(s, lo, hi - 1)
    } else {
        hi
    }
}

/// The end of `s[lo..hi]` once trailing `.` characters are dropped.
pub open spec fn trim_dots(s: Seq<char>, lo: int, hi: int) -> int
    decreases hi - lo,
{
    if lo < hi && s[hi - 1] == '.' {
        trim_dots(s, lo, hi - 1)
    } else {
        hi
    }
}

/// `s[lo..hi]` holds ASCII decimal digits only.
pub open spec fn all_digits(s: Seq<char>, lo: int, hi: int) -> bool {
    forall|k: int| lo <= k < hi ==> '0' <= #[trigger] s[k] <= '9'
}

/// The value of a decimal digit.
pub open spec fn digit_of(c: char) -> int {
    c as u32 as int - 48
}

/// The number that the digits `s[lo..hi]` spell.
pub open spec fn digits_val(s: Seq<char>, lo: int, hi: int) -> int
    decreases hi - lo,
{
    if lo < hi {
        digits_val(s, lo, hi - 1) * 10 + digit_of(s[hi - 1])
    } else {
        0
    }
}

/// `s[lo..hi]` read as a `u64`: an optional `+`, then at least one digit,
/// and a value that fits.
pub open spec fn parse_u64(s: Seq<char>, lo: int, hi: int) -> Option<u64> {
    let d = if lo < hi && s[lo] == '+' { lo + 1 } else { lo };
    if d < hi && all_digits(s, d, hi) && digits_val(s, d, hi) <= u64::MAX {
        Some(digits_val(s, d, hi) as u64)
    } else {
        None
    }
}

/// `c` is the one and only `:` of `line`.
pub open spec fn sole_colon(line: Seq<char>, c: int) -> bool {
    &&& 0 <= c < line.len()
    &&& line[c] == ':'
    &&& forall|j: int| 0 <= j < line.len() && j != c ==> #[trigger] line[j] != ':'
}

pub open spec fn has_sole_colon(line: Seq<char>) -> bool {
    exists|c: int| sole_colon(line, c)
}

pub open spec fn colon_of(line: Seq<char>) -> int {
    choose|c: int| sole_colon(line, c)
}

/// The key of a line with a sole colon: what stands before it, trimmed.
pub open spec fn key_of(line: Seq<char>) -> Seq<char> {
    let ks = skip_ws(line, 0);
    line.subrange(ks, trim_back(line, ks, colon_of(line)))
}

/// `word` is the text `key`.
pub open spec fn spells(word: Seq<char>, key: Seq<char>) -> bool {
    word == key
}

proof fn lemma_digits_grow(s: Seq<char>, lo: int, i: int, j: int)
    requires
        0 <= lo <= i <= j <= s.len(),
        all_digits(s, lo, j),
    ensures
        digits_val(s, lo, i) <= digits_val(s, lo, j),
    decreases j - i,
{
    if i < j {
        lemma_digits_grow(s, lo, i, j - 1);
        lemma_digits_nonneg(s, lo, j - 1);
        assert('0' <= s[j - 1]);
    }
}

proof fn lemma_digits_nonneg(s: Seq<char>, lo: int, i: int)
    requires
        0 <= lo <= i <= s.len(),
        all_digits(s, lo, i),
    ensures
        digits_val(s, lo, i) >= 0,
    decreases i - lo,
{
    if lo < i {
        lemma_digits_nonneg(s, lo, i - 1);
        assert('0' <= s[i - 1]);
    }
}

/// Reads `s[lo..hi]` as a `u64`.
pub fn read_u64(s: &Vec<char>, lo: usize, hi: usize) -> (r: Option<u64>)
    requires
        lo <= hi <= s@.len(),
    ensures
        r == parse_u64(s@, lo as int, hi as int),
{
    let d: usize = if lo < hi && s[lo] == '+' { lo + 1 } else { lo };
    if d >= hi {
        return None;
    }
    let mut acc: u64 = 0;
    let mut i: usize = d;
    while i < hi
        invariant
            d <= i <= hi <= s@.len(),
            lo <= hi,
            d as int == (if lo < hi && s@[lo as int] == '+' { lo + 1 } else { lo as int }),
            all_digits(s@, d as int, i as int),
            acc as int == digits_val(s@, d as int, i as int),
        decreases hi - i,
    {
        let b = s[i];
        if b < '0' || b > '9' {
            assert(!('0' <= s@[i as int] <= '9'));
            assert(!all_digits(s@, d as int, hi as int));
            return None;
        }
        let next = match acc.checked_mul(10) {
            Some(m) => m.checked_add((b as u32 - 48) as u64),
            None => None,
        };
        match next {
            Some(n) => {
                acc = n;
            },
            None => {
                proof {
                    assert(digits_val(s@, d as int, i + 1) == acc * 10 + digit_of(b));
                    if all_digits(s@, d as int, hi as int) {
                        lemma_digits_grow(s@, d as int, i + 1, hi as int);
                    }
                }
                return None;
            },
        }
        i += 1;
    }
    Some(acc)
}

/// The first index at or after `i` that does not hold whitespace.
pub fn skip_ws_from(s: &Vec<char>, i: usize) -> (r: usize)
    requires
        i <= s@.len(),
    ensures
        r as int == skip_ws(s@, i as int),
        i <= r <= s@.len(),
{
    let mut j = i;
    while j < s.len() && is_whitespace(s[j])
        invariant
            i <= j <= s@.len(),
            skip_ws(s@, j as int) == skip_ws(s@, i as int),
        decreases s@.len() - j,
    {
        j += 1;
    }
    j
}

/// The end of the run of non-whitespace characters that starts at `i`.
pub fn word_end_from(s: &Vec<char>, i: usize) -> (r: usize)
    requires
        i <= s@.len(),
    ensures
        r as int == word_end(s@, i as int),
        i <= r <= s@.len(),
{
    let mut j = i;
    while j < s.len() && !is_whitespace(s[j])
        invariant
            i <= j <= s@.len(),
            word_end(s@, j as int) == word_end(s@, i as int),
        decreases s@.len() - j,
    {
        j += 1;
    }
    j
}

/// The end of `s[lo..hi]` once trailing whitespace is dropped.
pub fn trim_back_to(s: &Vec<char>, lo: usize, hi: usize) -> (r: usize)
    requires
        lo <= hi <= s@.len(),
    ensures
        r as int == trim_back(s@, lo as int, hi as int),
        lo <= r <= hi,
{
    let mut j = hi;
    while lo < j && is_whitespace(s[j - 1])
        invariant
            lo <= j <= hi <= s@.len(),
            trim_back(s@, lo as int, j as int) == trim_back(s@, lo as int, hi as int),
        decreases j - lo,
    {
        j -= 1;
    }
    j
}

/// The end of `s[lo..hi]` once trailing `.` characters are dropped.
pub fn trim_dots_to(s: &Vec<char>, lo: usize, hi: usize) -> (r: usize)
    requires
        lo <= hi <= s@.len(),
    ensures
        r as int == trim_dots(s@, lo as int, hi as int),
        lo <= r <= hi,
{
    let mut j = hi;
    while lo < j && s[j - 1] == '.'
        invariant
            lo <= j <= hi <= s@.len(),
            trim_dots(s@, lo as int, j as int) == trim_dots(s@, lo as int, hi as int),
        decreases j - lo,
    {
        j -= 1;
    }
    j
}

/// Finds the sole colon of `line` and the bounds of the key before it.
pub fn split_key(line: &Vec<char>) -> (r: Option<(usize, usize, usize)>)
    ensures
        match r {
            Some((ks, ke, c)) => {
                &&& has_sole_colon(line@)
                &&& c as int == colon_of(line@)
                &&& ks <= ke <= c < line@.len()
                &&& line@.subrange(ks as int, ke as int) == key_of(line@)
            },
            None => !has_sole_colon(line@),
        },
{
    let mut c: usize = 0;
    while c < line.len() && line[c] != ':'
        invariant
            c <= line@.len(),
            forall|j: int| 0 <= j < c ==> line@[j] != ':',
        decreases line@.len() - c,
    {
        c += 1;
    }
    if c == line.len() {
        assert(!has_sole_colon(line@));
        return None;
    }
    let mut j: usize = c + 1;
    while j < line.len()
        invariant
            c < j <= line@.len(),
            line@[c as int] == ':',
            forall|k: int| 0 <= k < c ==> line@[k] != ':',
            forall|k: int| c < k < j ==> line@[k] != ':',
        decreases line@.len() - j,
    {
        if line[j] == ':' {
            assert(!has_sole_colon(line@)) by {
                if has_sole_colon(line@) {
                    let w = choose|w: int| sole_colon(line@, w);
                    assert(line@[j as int] == ':');
                }
            }
            return None;
        }
        j += 1;
    }
    assert(sole_colon(line@, c as int));
    assert(colon_of(line@) == c as int) by {
        let w = colon_of(line@);
        assert(sole_colon(line@, w));
    }
    let ks = skip_ws_from(line, 0);
    assert(ks <= c) by {
        if ks > c {
            assert(skip_ws(line@, 0) == skip_ws(line@, c as int)) by {
                lemma_skip_ws_passes(line@, 0, c as int);
            }
        }
    }
    let ke = trim_back_to(line, ks, c);
    Some((ks, ke, c))
}

/// Skipping whitespace from `i` that ends past `j` passes through `j`.
proof fn lemma_skip_ws_passes(s: Seq<char>, i: int, j: int)
    requires
        0 <= i <= j,
        skip_ws(s, i) > j,
    ensures
        skip_ws(s, i) == skip_ws(s, j),
    decreases j - i,
{
    if i < j {
        lemma_skip_ws_passes(s, i + 1, j);
    }
}

/// Whether `line[ks..ke]` is `key`.
pub fn spells_key(line: &Vec<char>, ks: usize, ke: usize, key: &Vec<char>) -> (r: bool)
    requires
        ks <= ke <= line@.len(),
    ensures
        r == spells(line@.subrange(ks as int, ke as int), key@),
{
    if ke - ks != key.len() {
        return false;
    }
    let mut i: usize = 0;
    while i < key.len()
        invariant
            ke - ks == key@.len(),
            ks <= ke <= line@.len(),
            i <= key@.len(),
            forall|k: int| 0 <= k < i ==> line@[ks + k] == #[trigger] key@[k],
        decreases key@.len() - i,
    {
        if line[ks + i] != key[i] {
            assert(line@.subrange(ks as int, ke as int)[i as int] != key@[i as int]);
            return false;
        }
        i += 1;
    }
    assert(line@.subrange(ks as int, ke as int) =~= key@);
    true
}

/// The end of the line that starts at `i`: the first `\n` at or after `i`,
/// or the end of `s`.
pub open spec fn line_end(s: Seq<char>, i: int) -> int
    decreases s.len() - i,
{
    if 0 <= i < s.len() && s[i] != '\n' {
        line_end(s, i + 1)
    } else {
        i
    }
}

/// `s[i..e]` without one trailing carriage return.
pub open spec fn line_text(s: Seq<char>, i: int, e: int) -> Seq<char> {
    if i < e && s[e - 1] == '\r' {
        s.subrange(i, e - 1)
    } else {
        s.subrange(i, e)
    }
}

/// The lines of `s` from position `i`: split at each `\n`, each without a
/// trailing `\r`; a final empty line is not counted.
pub open spec fn lines_from(s: Seq<char>, i: int) -> Seq<Seq<char>>
    decreases s.len() - i,
{
    if 0 <= i < s.len() {
        let e = line_end(s, i);
        if i <= e < s.len() {
            seq![line_text(s, i, e)] + lines_from(s, e + 1)
        } else {
            seq![line_text(s, i, e)]
        }
    } else {
        Seq::empty()
    }
}

/// The lines of a report.
pub open spec fn lines_of(s: Seq<char>) -> Seq<Seq<char>> {
    lines_from(s, 0)
}

proof fn lemma_line_end_bounds(s: Seq<char>, i: int)
    requires
        0 <= i <= s.len(),
    ensures
        i <= line_end(s, i) <= s.len(),
        line_end(s, i) < s.len() ==> s[line_end(s, i)] == '\n',
    decreases s.len() - i,
{
    if i < s.len() && s[i] != '\n' {
        lemma_line_end_bounds(s, i + 1);
    }
}

/// A copy of `s[lo..hi]`.
fn copy_range(s: &Vec<char>, lo: usize, hi: usize) -> (r: Vec<char>)
    requires
        lo <= hi <= s@.len(),
    ensures
        r@ == s@.subrange(lo as int, hi as int),
{
    let mut r: Vec<char> = Vec::new();
    let mut j = lo;
    while j < hi
        invariant
            lo <= j <= hi <= s@.len(),
            r@ == s@.subrange(lo as int, j as int),
        decreases hi - j,
    {
        r.push(s[j]);
        assert(r@ =~= s@.subrange(lo as int, j + 1));
        j += 1;
    }
    r
}

/// Splits a report into its lines.
pub fn split_lines(s: &Vec<char>) -> (r: Vec<Vec<char>>)
    ensures
        r@.map_values(|v: Vec<char>| v@) == lines_of(s@),
{
    let n = s.len();
    let mut out: Vec<Vec<char>> = Vec::new();
    let mut i: usize = 0;
    while i < n
        invariant
            n == s@.len(),
            i <= n,
            out@.map_values(|v: Vec<char>| v@) + lines_from(s@, i as int) == lines_of(s@),
        decreases n - i,
    {
        let mut e = i;
        while e < n && s[e] != '\n'
            invariant
                n == s@.len(),
                i <= e <= n,
                line_end(s@, e as int) == line_end(s@, i as int),
            decreases n - e,
        {
            e += 1;
        }
        proof {
            lemma_line_end_bounds(s@, i as int);
        }
        let stop = if i < e && s[e - 1] == '\r' { e - 1 } else { e };
        let line = copy_range(s, i, stop);
        let ghost before = out@.map_values(|v: Vec<char>| v@);
        out.push(line);
        proof {
            assert(line@ == line_text(s@, i as int, e as int));
            assert(out@.map_values(|v: Vec<char>| v@) =~= before.push(line@));
            if e < n {
                assert(before.push(line@) + lines_from(s@, e + 1) =~= before + (seq![line@]
                    + lines_from(s@, e + 1)));
            } else {
                assert(lines_from(s@, e + 1) =~= Seq::<Seq<char>>::empty());
                assert(before.push(line@) + lines_from(s@, e + 1) =~= before + seq![line@]);
            }
        }
        i = if e < n { e + 1 } else { n };
    }
    assert(lines_from(s@, i as int) =~= Seq::<Seq<char>>::empty());
    assert(out@.map_values(|v: Vec<char>| v@) =~= lines_of(s@));
    out
}

} // verus!
