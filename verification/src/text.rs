//! Verified text utilities: the string operations the capability logic is
//! built from (searching, splitting into lines, trimming, joining, decimal
//! parsing).  Everything works over `Seq<char>` views.

use vstd::prelude::*;

verus! {

/// Relies on std's `String::push`: appends the given `char` to the end of
/// the string (vstd specifies `String` but not this method).
pub assume_specification[ String::push ](s: &mut String, ch: char)
    ensures
        final(s)@ == old(s)@.push(ch),
;

/// The pattern `pat` occurs in `s` starting at index `i`.
pub open spec fn contains_at(s: Seq<char>, pat: Seq<char>, i: int) -> bool {
    0 <= i && i + pat.len() <= s.len() && s.subrange(i, i + pat.len() as int) == pat
}

/// The pattern `pat` occurs somewhere in `s`.
pub open spec fn contains_seq(s: Seq<char>, pat: Seq<char>) -> bool {
    exists|i: int| contains_at(s, pat, i)
}

/// Index of the first occurrence of `c` in `s`, or -1 if there is none.
pub open spec fn first_index_of(s: Seq<char>, c: char) -> int
    decreases s.len(),
{
    if s.len() == 0 {
        -1
    } else if s[0] == c {
        0
    } else if first_index_of(s.drop_first(), c) == -1 {
        -1
    } else {
        1 + first_index_of(s.drop_first(), c)
    }
}

pub proof fn lemma_first_index_of(s: Seq<char>, c: char)
    ensures
        first_index_of(s, c) == -1 ==> forall|j: int| 0 <= j < s.len() ==> s[j] != c,
        first_index_of(s, c) != -1 ==> 0 <= first_index_of(s, c) < s.len()
            && s[first_index_of(s, c)] == c
            && forall|j: int| 0 <= j < first_index_of(s, c) ==> s[j] != c,
    decreases s.len(),
{
    if s.len() > 0 && s[0] != c {
        lemma_first_index_of(s.drop_first(), c);
        assert(forall|j: int| 1 <= j < s.len() ==> s[j] == s.drop_first()[j - 1]);
    }
}

/// `first_index_of` is determined by where the character first occurs.
pub proof fn lemma_first_index_of_is(s: Seq<char>, c: char, i: int)
    requires
        0 <= i < s.len(),
        s[i] == c,
        forall|j: int| 0 <= j < i ==> s[j] != c,
    ensures
        first_index_of(s, c) == i,
    decreases s.len(),
{
    if i > 0 {
        assert(forall|j: int| 0 <= j < i - 1 ==> s.drop_first()[j] == s[j + 1]);
        lemma_first_index_of_is(s.drop_first(), c, i - 1);
    }
}

/// Character-for-character equality of two string slices.
pub fn str_eq(a: &str, b: &str) -> (r: bool)
    ensures
        r == (a@ == b@),
{
    let na = a.unicode_len();
    let nb = b.unicode_len();
    if na != nb {
        return false;
    }
    let mut i: usize = 0;
    while i < na
        invariant
            i <= na,
            na == a@.len(),
            na == b@.len(),
            forall|j: int| 0 <= j < i ==> a@[j] == b@[j],
        decreases na - i,
    {
        if a.get_char(i) != b.get_char(i) {
            return false;
        }
        i = i + 1;
    }
    proof {
        assert(a@ =~= b@);
    }
    true
}

/// The pattern occurs in `h` starting exactly at `i`.
fn match_at(h: &str, pat: &str, i: usize) -> (r: bool)
    requires
        i + pat@.len() <= h@.len(),
    ensures
        r == (h@.subrange(i as int, i + pat@.len() as int) == pat@),
{
    let nh = h.unicode_len();
    let np = pat.unicode_len();
    let mut k: usize = 0;
    while k < np
        invariant
            k <= np,
            np == pat@.len(),
            nh == h@.len(),
            i + np <= nh,
            forall|j: int| 0 <= j < k ==> h@[i + j] == pat@[j],
        decreases np - k,
    {
        if h.get_char(i + k) != pat.get_char(k) {
            proof {
                assert(h@.subrange(i as int, i + pat@.len() as int)[k as int] != pat@[k as int]);
            }
            return false;
        }
        k = k + 1;
    }
    proof {
        assert(h@.subrange(i as int, i + pat@.len() as int) =~= pat@);
    }
    true
}

/// Substring search, as `str::contains`.
pub fn contains_str(h: &str, pat: &str) -> (r: bool)
    ensures
        r == contains_seq(h@, pat@),
{
    let nh = h.unicode_len();
    let np = pat.unicode_len();
    if np > nh {
        return false;
    }
    if np == 0 {
        proof {
            assert(h@.subrange(0, 0) =~= pat@);
            assert(contains_at(h@, pat@, 0));
        }
        return true;
    }
    let mut i: usize = 0;
    while i <= nh - np
        invariant
            0 < np <= nh,
            nh == h@.len(),
            np == pat@.len(),
            i <= nh - np + 1,
            forall|k: int| 0 <= k < i ==> !contains_at(h@, pat@, k),
        decreases nh - i,
    {
        if match_at(h, pat, i) {
            proof {
                assert(contains_at(h@, pat@, i as int));
            }
            return true;
        }
        i = i + 1;
    }
    proof {
        assert(forall|k: int| contains_at(h@, pat@, k) ==> 0 <= k <= h@.len() - pat@.len());
    }
    false
}

/// `s` begins with `pat`.
pub open spec fn starts_with_seq(s: Seq<char>, pat: Seq<char>) -> bool {
    contains_at(s, pat, 0)
}

/// `s` ends with `pat`.
pub open spec fn ends_with_seq(s: Seq<char>, pat: Seq<char>) -> bool {
    contains_at(s, pat, s.len() - pat.len())
}

pub fn starts_with(s: &str, pat: &str) -> (r: bool)
    ensures
        r == starts_with_seq(s@, pat@),
{
    let ns = s.unicode_len();
    let np = pat.unicode_len();
    if np > ns {
        return false;
    }
    match_at(s, pat, 0)
}

pub fn ends_with(s: &str, pat: &str) -> (r: bool)
    ensures
        r == ends_with_seq(s@, pat@),
{
    let ns = s.unicode_len();
    let np = pat.unicode_len();
    if np > ns {
        return false;
    }
    match_at(s, pat, ns - np)
}

/// First occurrence of a single character, as `str::find` on a `char`.
pub fn find_char(s: &str, c: char) -> (r: Option<usize>)
    ensures
        r matches Some(i) ==> i as int == first_index_of(s@, c),
        r is None ==> first_index_of(s@, c) == -1,
{
    let n = s.unicode_len();
    let mut i: usize = 0;
    while i < n
        invariant
            i <= n,
            n == s@.len(),
            forall|j: int| 0 <= j < i ==> s@[j] != c,
        decreases n - i,
    {
        if s.get_char(i) == c {
            proof {
                lemma_first_index_of_is(s@, c, i as int);
            }
            return Some(i);
        }
        i = i + 1;
    }
    proof {
        lemma_first_index_of(s@, c);
    }
    None
}

/// Index of the last occurrence of `c` in `s`, or -1 if there is none.
pub open spec fn last_index_of(s: Seq<char>, c: char) -> int
    decreases s.len(),
{
    if s.len() == 0 {
        -1
    } else if s.last() == c {
        s.len() - 1
    } else {
        last_index_of(s.drop_last(), c)
    }
}

pub proof fn lemma_last_index_of(s: Seq<char>, c: char)
    ensures
        last_index_of(s, c) == -1 ==> forall|j: int| 0 <= j < s.len() ==> s[j] != c,
        last_index_of(s, c) != -1 ==> 0 <= last_index_of(s, c) < s.len()
            && s[last_index_of(s, c)] == c
            && forall|j: int| last_index_of(s, c) < j < s.len() ==> s[j] != c,
    decreases s.len(),
{
    if s.len() > 0 && s.last() != c {
        lemma_last_index_of(s.drop_last(), c);
        assert(forall|j: int| 0 <= j < s.len() - 1 ==> s[j] == s.drop_last()[j]);
    }
}

pub proof fn lemma_last_index_of_is(s: Seq<char>, c: char, i: int)
    requires
        0 <= i < s.len(),
        s[i] == c,
        forall|j: int| i < j < s.len() ==> s[j] != c,
    ensures
        last_index_of(s, c) == i,
    decreases s.len(),
{
    if i < s.len() - 1 {
        assert(forall|j: int| i < j < s.len() - 1 ==> s.drop_last()[j] == s[j]);
        lemma_last_index_of_is(s.drop_last(), c, i);
    }
}

/// Last occurrence of a single character, as `str::rfind` on a `char`.
pub fn rfind_char(s: &str, c: char) -> (r: Option<usize>)
    ensures
        r matches Some(i) ==> i as int == last_index_of(s@, c),
        r is None ==> last_index_of(s@, c) == -1,
{
    let n = s.unicode_len();
    let mut i: usize = n;
    while i > 0
        invariant
            i <= n,
            n == s@.len(),
            forall|j: int| i <= j < n ==> s@[j] != c,
        decreases i,
    {
        i = i - 1;
        if s.get_char(i) == c {
            proof {
                lemma_last_index_of_is(s@, c, i as int);
            }
            return Some(i);
        }
    }
    proof {
        lemma_last_index_of(s@, c);
    }
    None
}

/// One carriage return stripped from the end, as `str::lines` does per line.
pub open spec fn strip_cr(s: Seq<char>) -> Seq<char> {
    if s.len() > 0 && s.last() == '\r' {
        s.drop_last()
    } else {
        s
    }
}

/// The lines of `s`: split at `'\n'`, one trailing `'\r'` stripped from each
/// piece, and no empty piece after a final newline — as `str::lines`.
pub open spec fn lines_seq(s: Seq<char>) -> Seq<Seq<char>>
    decreases s.len(),
{
    if s.len() == 0 {
        Seq::empty()
    } else {
        let i = first_index_of(s, '\n');
        if 0 <= i < s.len() {
            seq![strip_cr(s.subrange(0, i))] + lines_seq(s.subrange(i + 1, s.len() as int))
        } else {
            seq![strip_cr(s)]
        }
    }
}

fn strip_cr_of(s: &str) -> (r: String)
    ensures
        r@ == strip_cr(s@),
{
    let n = s.unicode_len();
    if n > 0 && s.get_char(n - 1) == '\r' {
        proof {
            assert(s@.subrange(0, n - 1) =~= s@.drop_last());
        }
        s.substring_char(0, n - 1).to_owned()
    } else {
        s.to_owned()
    }
}

/// Splits into lines, as `str::lines().collect()`.
pub fn lines_of(s: &str) -> (r: Vec<String>)
    ensures
        r.deep_view() == lines_seq(s@),
    decreases s@.len(),
{
    let n = s.unicode_len();
    if n == 0 {
        let r: Vec<String> = Vec::new();
        proof {
            assert(r.deep_view() =~= lines_seq(s@));
        }
        return r;
    }
    match find_char(s, '\n') {
        Some(i) => {
            proof {
                lemma_first_index_of(s@, '\n');
            }
            let head = strip_cr_of(s.substring_char(0, i));
            let tail = s.substring_char(i + 1, n);
            let mut rest = lines_of(tail);
            rest.insert(0, head);
            proof {
                assert(rest.deep_view() =~= seq![head@] + lines_seq(tail@));
            }
            rest
        },
        None => {
            let mut r: Vec<String> = Vec::new();
            r.push(strip_cr_of(s));
            proof {
                assert(r.deep_view() =~= seq![strip_cr(s@)]);
                assert(r.deep_view() =~= lines_seq(s@));
            }
            r
        },
    }
}

/// The first of the lines of `s`, or the empty string when there is none.
pub open spec fn first_line_seq(s: Seq<char>) -> Seq<char> {
    if lines_seq(s).len() > 0 {
        lines_seq(s)[0]
    } else {
        Seq::empty()
    }
}

/// As `s.lines().next().unwrap_or("")`.
pub fn first_line_of(s: &str) -> (r: String)
    ensures
        r@ == first_line_seq(s@),
{
    let mut ls = lines_of(s);
    let ghost lv = ls.deep_view();
    if ls.len() > 0 {
        let r = ls.remove(0);
        proof {
            assert(lv[0] == r@);
        }
        r
    } else {
        String::new()
    }
}

/// An ASCII blank: what the trimming below removes from the ends of a line.
pub open spec fn is_blank(c: char) -> bool {
    c == ' ' || c == '\t' || c == '\n' || c == '\r' || c == '\u{b}' || c == '\u{c}'
}

pub open spec fn trim_start_seq(s: Seq<char>) -> Seq<char>
    decreases s.len(),
{
    if s.len() > 0 && is_blank(s[0]) {
        trim_start_seq(s.drop_first())
    } else {
        s
    }
}

pub open spec fn trim_end_seq(s: Seq<char>) -> Seq<char>
    decreases s.len(),
{
    if s.len() > 0 && is_blank(s.last()) {
        trim_end_seq(s.drop_last())
    } else {
        s
    }
}

/// ASCII blanks removed from both ends.
pub open spec fn trim_seq(s: Seq<char>) -> Seq<char> {
    trim_end_seq(trim_start_seq(s))
}

fn is_blank_exec(c: char) -> (r: bool)
    ensures
        r == is_blank(c),
{
    c == ' ' || c == '\t' || c == '\n' || c == '\r' || c == '\u{b}' || c == '\u{c}'
}

fn trim_start_str<'a>(s: &'a str) -> (r: &'a str)
    ensures
        r@ == trim_start_seq(s@),
    decreases s@.len(),
{
    let n = s.unicode_len();
    if n > 0 && is_blank_exec(s.get_char(0)) {
        let rest = s.substring_char(1, n);
        proof {
            assert(rest@ =~= s@.drop_first());
        }
        trim_start_str(rest)
    } else {
        s
    }
}

fn trim_end_str<'a>(s: &'a str) -> (r: &'a str)
    ensures
        r@ == trim_end_seq(s@),
    decreases s@.len(),
{
    let n = s.unicode_len();
    if n > 0 && is_blank_exec(s.get_char(n - 1)) {
        let rest = s.substring_char(0, n - 1);
        proof {
            assert(rest@ =~= s@.drop_last());
        }
        trim_end_str(rest)
    } else {
        s
    }
}

/// ASCII blanks removed from both ends, as `str::trim` on ordinary text.
pub fn trim_of(s: &str) -> (r: String)
    ensures
        r@ == trim_seq(s@),
{
    trim_end_str(trim_start_str(s)).to_owned()
}

/// Every trailing occurrence of `c` removed.
pub open spec fn trim_end_matches_seq(s: Seq<char>, c: char) -> Seq<char>
    decreases s.len(),
{
    if s.len() > 0 && s.last() == c {
        trim_end_matches_seq(s.drop_last(), c)
    } else {
        s
    }
}

/// As `str::trim_end_matches` on a single character.
pub fn trim_end_matches_char<'a>(s: &'a str, c: char) -> (r: &'a str)
    ensures
        r@ == trim_end_matches_seq(s@, c),
    decreases s@.len(),
{
    let n = s.unicode_len();
    if n > 0 && s.get_char(n - 1) == c {
        let rest = s.substring_char(0, n - 1);
        proof {
            assert(rest@ =~= s@.drop_last());
        }
        trim_end_matches_char(rest, c)
    } else {
        s
    }
}

/// The items joined with `sep` between each pair.
pub open spec fn join_seq(items: Seq<Seq<char>>, sep: Seq<char>) -> Seq<char>
    decreases items.len(),
{
    if items.len() == 0 {
        Seq::empty()
    } else if items.len() == 1 {
        items[0]
    } else {
        join_seq(items.drop_last(), sep) + sep + items.last()
    }
}

/// As `[String]::join`.
pub fn join_strings(items: &Vec<String>, sep: &str) -> (r: String)
    ensures
        r@ == join_seq(items.deep_view(), sep@),
{
    let mut out = String::new();
    let mut i: usize = 0;
    while i < items.len()
        invariant
            i <= items@.len(),
            items.deep_view().len() == items@.len(),
            out@ == join_seq(items.deep_view().subrange(0, i as int), sep@),
        decreases items@.len() - i,
    {
        if i > 0 {
            out.append(sep);
        }
        out.append(items[i].as_str());
        proof {
            let dv = items.deep_view();
            let cur = dv.subrange(0, i + 1);
            assert(cur.drop_last() =~= dv.subrange(0, i as int));
            assert(cur.last() == items@[i as int]@);
        }
        i = i + 1;
    }
    proof {
        assert(items.deep_view().subrange(0, items.deep_view().len() as int) =~= items.deep_view());
    }
    out
}

/// Every non-overlapping occurrence of `pat` replaced by `to`, left to
/// right, as `str::replace` (the empty pattern replaces nothing).
pub open spec fn replace_seq(s: Seq<char>, pat: Seq<char>, to: Seq<char>) -> Seq<char>
    decreases s.len(),
{
    if pat.len() == 0 || s.len() < pat.len() {
        s
    } else if s.subrange(0, pat.len() as int) == pat {
        to + replace_seq(s.subrange(pat.len() as int, s.len() as int), pat, to)
    } else {
        seq![s[0]] + replace_seq(s.drop_first(), pat, to)
    }
}

/// As `str::replace` (with a non-empty pattern).
pub fn replace_str(s: &str, pat: &str, to: &str) -> (r: String)
    ensures
        r@ == replace_seq(s@, pat@, to@),
{
    let n = s.unicode_len();
    let np = pat.unicode_len();
    if np == 0 {
        return s.to_owned();
    }
    let mut out = String::new();
    let mut i: usize = 0;
    proof {
        assert(s@.subrange(0, n as int) =~= s@);
        assert(out@ + replace_seq(s@, pat@, to@) =~= replace_seq(s@, pat@, to@));
    }
    while i < n
        invariant
            0 < np == pat@.len(),
            n == s@.len(),
            i <= n,
            out@ + replace_seq(s@.subrange(i as int, n as int), pat@, to@)
                == replace_seq(s@, pat@, to@),
        decreases n - i,
    {
        let ghost rest = s@.subrange(i as int, n as int);
        if n - i >= np && match_at(s, pat, i) {
            out.append(to);
            proof {
                assert(rest.subrange(0, np as int) =~= s@.subrange(i as int, i + np));
                assert(rest.subrange(np as int, rest.len() as int)
                    =~= s@.subrange(i + np, n as int));
            }
            i = i + np;
        } else {
            out.push(s.get_char(i));
            proof {
                assert(rest.drop_first() =~= s@.subrange(i + 1, n as int));
                if n - i >= np {
                    assert(rest.subrange(0, np as int) =~= s@.subrange(i as int, i + np));
                    assert(seq![rest[0]] + rest.drop_first() =~= rest);
                } else {
                    assert(rest.len() < np);
                    assert(seq![rest[0]] + rest.drop_first() =~= rest);
                    assert(replace_seq(rest.drop_first(), pat@, to@) == rest.drop_first());
                }
            }
            i = i + 1;
        }
    }
    proof {
        assert(s@.subrange(n as int, n as int) =~= Seq::<char>::empty());
        assert(out@ =~= replace_seq(s@, pat@, to@));
    }
    out
}

/// How one character appears between the escaped double quotes of
/// `quoted_spec`: quotes and backslashes escaped, everything else kept.
pub open spec fn quote_escape_char(c: char) -> Seq<char> {
    if c == '"' {
        seq!['\\', '"']
    } else if c == '\\' {
        seq!['\\', '\\']
    } else {
        seq![c]
    }
}

pub open spec fn quote_escape_seq(s: Seq<char>) -> Seq<char>
    decreases s.len(),
{
    if s.len() == 0 {
        Seq::empty()
    } else {
        quote_escape_seq(s.drop_last()) + quote_escape_char(s.last())
    }
}

/// A text between double quotes, its quotes and backslashes escaped.
pub open spec fn quoted_spec(s: Seq<char>) -> Seq<char> {
    seq!['"'] + quote_escape_seq(s) + seq!['"']
}

/// Wraps a text in escaped double quotes.
pub fn quoted(s: &str) -> (r: String)
    ensures
        r@ == quoted_spec(s@),
{
    let n = s.unicode_len();
    let mut out = String::new();
    out.push('"');
    let mut i: usize = 0;
    while i < n
        invariant
            i <= n,
            n == s@.len(),
            out@ == seq!['"'] + quote_escape_seq(s@.subrange(0, i as int)),
        decreases n - i,
    {
        let c = s.get_char(i);
        if c == '"' {
            out.push('\\');
            out.push('"');
        } else if c == '\\' {
            out.push('\\');
            out.push('\\');
        } else {
            out.push(c);
        }
        proof {
            let pre = s@.subrange(0, i + 1);
            assert(pre.drop_last() =~= s@.subrange(0, i as int));
            assert(pre.last() == s@[i as int]);
            assert(out@ =~= seq!['"'] + (quote_escape_seq(s@.subrange(0, i as int))
                + quote_escape_char(s@[i as int])));
        }
        i = i + 1;
    }
    out.push('"');
    proof {
        assert(s@.subrange(0, n as int) =~= s@);
        assert(out@ =~= quoted_spec(s@));
    }
    out
}

/// Strict lexicographic order on character sequences by code point — the
/// order in which a sorted map hands its string keys out (byte order on
/// UTF-8 coincides with code-point order).
pub open spec fn lex_lt(a: Seq<char>, b: Seq<char>) -> bool
    decreases a.len(),
{
    if b.len() == 0 {
        false
    } else if a.len() == 0 {
        true
    } else if a[0] != b[0] {
        (a[0] as u32) < (b[0] as u32)
    } else {
        lex_lt(a.drop_first(), b.drop_first())
    }
}

pub proof fn lemma_lex_lt_irreflexive(a: Seq<char>)
    ensures
        !lex_lt(a, a),
    decreases a.len(),
{
    if a.len() > 0 {
        lemma_lex_lt_irreflexive(a.drop_first());
    }
}

pub proof fn lemma_lex_lt_transitive(a: Seq<char>, b: Seq<char>, c: Seq<char>)
    requires
        lex_lt(a, b),
        lex_lt(b, c),
    ensures
        lex_lt(a, c),
    decreases a.len(),
{
    if a.len() > 0 && b.len() > 0 && c.len() > 0 && a[0] == b[0] && b[0] == c[0] {
        lemma_lex_lt_transitive(a.drop_first(), b.drop_first(), c.drop_first());
    }
}

/// A leading tilde replaced by the home directory: `~` alone becomes the
/// home directory, `~/rest` becomes the home directory plus `/rest`, and
/// anything else is left untouched.
pub open spec fn expand_tilde_seq(path: Seq<char>, home: Seq<char>) -> Seq<char> {
    if path == "~"@ {
        home
    } else if starts_with_seq(path, "~/"@) {
        home + path.skip(1)
    } else {
        path
    }
}

/// Expands a leading tilde against the given home directory.
pub fn expand_tilde(path: &str, home: &str) -> (r: String)
    ensures
        r@ == expand_tilde_seq(path@, home@),
{
    if str_eq(path, "~") {
        return home.to_owned();
    }
    if starts_with(path, "~/") {
        let n = path.unicode_len();
        proof {
            reveal_strlit("~/");
        }
        let mut s = home.to_owned();
        s.append(path.substring_char(1, n));
        proof {
            assert(path@.subrange(1, n as int) =~= path@.skip(1));
        }
        return s;
    }
    path.to_owned()
}

/// A decimal digit.
pub open spec fn is_digit(c: char) -> bool {
    48 <= c as u32 <= 57
}

pub open spec fn digit_val(c: char) -> nat {
    if is_digit(c) {
        (c as u32 - 48) as nat
    } else {
        0
    }
}

pub open spec fn all_digits(s: Seq<char>) -> bool {
    forall|i: int| 0 <= i < s.len() ==> is_digit(s[i])
}

/// The number the digits denote, most significant first.
pub open spec fn digits_val(s: Seq<char>) -> nat
    decreases s.len(),
{
    if s.len() == 0 {
        0
    } else {
        digits_val(s.drop_last()) * 10 + digit_val(s.last())
    }
}

/// What `str::parse::<u64>` returns on a plain run of digits: the denoted
/// value if it fits, nothing on an empty string, a non-digit, or overflow.
pub open spec fn parse_u64_seq(s: Seq<char>) -> Option<u64> {
    if s.len() > 0 && all_digits(s) && digits_val(s) <= u64::MAX {
        Some(digits_val(s) as u64)
    } else {
        None
    }
}

proof fn lemma_digits_val_grows(s: Seq<char>, j: int)
    requires
        0 <= j <= s.len(),
    ensures
        digits_val(s.subrange(0, j)) <= digits_val(s),
    decreases s.len() - j,
{
    if j < s.len() {
        let a = s.subrange(0, j);
        let b = s.subrange(0, j + 1);
        assert(b.drop_last() =~= a);
        assert(digits_val(b) == digits_val(a) * 10 + digit_val(b.last()));
        assert(digits_val(a) <= digits_val(a) * 10) by (nonlinear_arith);
        lemma_digits_val_grows(s, j + 1);
        assert(s.subrange(0, s.len() as int) =~= s);
    } else {
        assert(s.subrange(0, j) =~= s);
    }
}

/// Decimal parsing of a digit run, as `str::parse::<u64>` on plain digits.
pub fn parse_u64(s: &str) -> (r: Option<u64>)
    ensures
        r == parse_u64_seq(s@),
{
    let n = s.unicode_len();
    if n == 0 {
        return None;
    }
    let mut acc: u64 = 0;
    let mut i: usize = 0;
    while i < n
        invariant
            n == s@.len(),
            i <= n,
            all_digits(s@.subrange(0, i as int)),
            acc == digits_val(s@.subrange(0, i as int)),
        decreases n - i,
    {
        let c = s.get_char(i);
        let u = c as u32;
        if !(48 <= u && u <= 57) {
            assert(!is_digit(s@[i as int]));
            return None;
        }
        let d = (u - 48) as u64;
        if acc > (u64::MAX - d) / 10 {
            proof {
                let pre = s@.subrange(0, i + 1);
                assert(pre.drop_last() =~= s@.subrange(0, i as int));
                assert(digits_val(pre) == acc * 10 + d);
                assert(acc * 10 + d > u64::MAX) by (nonlinear_arith)
                    requires
                        acc > (u64::MAX - d) / 10,
                        d <= 9,
                ;
                lemma_digits_val_grows(s@, i + 1);
            }
            return None;
        }
        proof {
            let pre = s@.subrange(0, i + 1);
            assert(pre.drop_last() =~= s@.subrange(0, i as int));
            assert(acc * 10 + d <= u64::MAX) by (nonlinear_arith)
                requires
                    acc <= (u64::MAX - d) / 10,
                    d <= 9,
            ;
        }
        acc = acc * 10 + d;
        i = i + 1;
    }
    proof {
        assert(s@.subrange(0, n as int) =~= s@);
    }
    Some(acc)
}

} // verus!
