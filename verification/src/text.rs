//! Character and string primitives shared by the rest of the library.
//!
//! Strings are modelled by their character sequences (`Seq<char>`); the
//! spec functions here say what splitting, trimming, joining and replacing
//! produce, and the executable functions are proved against them.
use vstd::prelude::*;

verus! {

// ---------------------------------------------------------------------------
// Conversions between `str`/`String` and character vectors
// ---------------------------------------------------------------------------

/// Copies the characters of a string slice into a vector.
pub fn chars_of(s: &str) -> (res: Vec<char>)
    ensures
        res@ == s@,
{
    let mut res: Vec<char> = Vec::new();
    for c in it: s.chars()
        invariant
            res@ == it.seq().take(it.index() as int),
    {
        res.push(c);
    }
    res
}

/// Appends one character to a string (std's `String::push`).
#[verifier::external_body]
pub fn push_char(s: &mut String, c: char)
    ensures
        final(s)@ == old(s)@.push(c),
{
    s.push(c);
}

/// Appends the characters of `v[from..to]` to `out`.
pub fn push_chars_range(out: &mut String, v: &Vec<char>, from: usize, to: usize)
    requires
        from <= to <= v.len(),
    ensures
        final(out)@ == old(out)@ + v@.subrange(from as int, to as int),
{
    let mut i = from;
    while i < to
        invariant
            from <= i <= to <= v.len(),
            out@ == old(out)@ + v@.subrange(from as int, i as int),
        decreases to - i,
    {
        assert(v@.subrange(from as int, i + 1) == v@.subrange(from as int, i as int).push(v@[i as int]));
        push_char(out, v[i]);
        i += 1;
    }
}

/// Appends all characters of `v` to `out`.
pub fn push_all(out: &mut String, v: &Vec<char>)
    ensures
        final(out)@ == old(out)@ + v@,
{
    push_chars_range(out, v, 0, v.len());
    assert(v@.subrange(0, v@.len() as int) == v@);
}

/// Builds a string from a character vector.
pub fn string_of(v: &Vec<char>) -> (res: String)
    ensures
        res@ == v@,
{
    let mut res = String::new();
    push_all(&mut res, v);
    res
}

/// Builds a string from the characters `v[from..to]`.
pub fn string_of_range(v: &Vec<char>, from: usize, to: usize) -> (res: String)
    requires
        from <= to <= v.len(),
    ensures
        res@ == v@.subrange(from as int, to as int),
{
    let mut res = String::new();
    push_chars_range(&mut res, v, from, to);
    res
}

// ---------------------------------------------------------------------------
// Character classes
// ---------------------------------------------------------------------------

/// The Unicode `White_Space` property, which is what `char::is_whitespace`
/// tests.
pub open spec fn is_ws(c: char) -> bool {
    ||| ('\t' <= c && c <= '\r')
    ||| c == ' '
    ||| c == '\u{85}'
    ||| c == '\u{a0}'
    ||| c == '\u{1680}'
    ||| ('\u{2000}' <= c && c <= '\u{200a}')
    ||| c == '\u{2028}'
    ||| c == '\u{2029}'
    ||| c == '\u{202f}'
    ||| c == '\u{205f}'
    ||| c == '\u{3000}'
}

/// Whether `c` is white space in the sense of `char::is_whitespace`.
pub fn is_whitespace(c: char) -> (res: bool)
    ensures
        res == is_ws(c),
{
    ('\t' <= c && c <= '\r') || c == ' ' || c == '\u{85}' || c == '\u{a0}' || c == '\u{1680}'
        || ('\u{2000}' <= c && c <= '\u{200a}') || c == '\u{2028}' || c == '\u{2029}' || c
        == '\u{202f}' || c == '\u{205f}' || c == '\u{3000}'
}

/// ASCII letters and digits.
pub open spec fn is_ascii_alnum(c: char) -> bool {
    ('a' <= c && c <= 'z') || ('A' <= c && c <= 'Z') || ('0' <= c && c <= '9')
}

/// ASCII letters.
pub open spec fn is_ascii_alpha(c: char) -> bool {
    ('a' <= c && c <= 'z') || ('A' <= c && c <= 'Z')
}

/// The answer of `char::is_alphanumeric` (Unicode `Alphabetic` or `Numeric`).
pub uninterp spec fn alnum(c: char) -> bool;

/// The answer of `char::is_alphabetic` (Unicode `Alphabetic`).
pub uninterp spec fn alpha(c: char) -> bool;

/// Calls `char::is_alphanumeric`. Its answer is named `alnum`; for ASCII
/// characters the std documentation fixes it to the ASCII letters and digits.
/// Which non-ASCII characters count is left to the Unicode tables.
#[verifier::external_body]
pub fn char_is_alphanumeric(c: char) -> (res: bool)
    ensures
        res == alnum(c),
        c <= '\u{7f}' ==> (res == is_ascii_alnum(c)),
{
    c.is_alphanumeric()
}

/// Calls `char::is_alphabetic`. Its answer is named `alpha`; for ASCII
/// characters it holds exactly of the ASCII letters. Which non-ASCII
/// characters count is left to the Unicode tables.
#[verifier::external_body]
pub fn char_is_alphabetic(c: char) -> (res: bool)
    ensures
        res == alpha(c),
        c <= '\u{7f}' ==> (res == is_ascii_alpha(c)),
{
    c.is_alphabetic()
}

/// Whether every character is ASCII.
pub open spec fn all_ascii(s: Seq<char>) -> bool {
    forall|i: int| 0 <= i < s.len() ==> #[trigger] s[i] <= '\u{7f}'
}

/// ASCII lower-casing of one character.
pub open spec fn ascii_lower(c: char) -> char {
    if 'A' <= c && c <= 'Z' {
        ((c as u32) + 32) as char
    } else {
        c
    }
}

/// The result of `str::to_lowercase`.
pub uninterp spec fn lowercase(s: Seq<char>) -> Seq<char>;

/// Calls `str::to_lowercase`. Its result is named `lowercase`; on ASCII
/// input it maps `A`..`Z` to `a`..`z` and keeps every other character, as
/// the std documentation states. Outside ASCII the Unicode case tables (and
/// the final-sigma rule) decide, which is not restated here.
#[verifier::external_body]
pub fn to_lowercase(s: &str) -> (res: String)
    ensures
        res@ == lowercase(s@),
        all_ascii(s@) ==> res@ == s@.map_values(|c: char| ascii_lower(c)),
{
    s.to_lowercase()
}

// ---------------------------------------------------------------------------
// Splitting and joining
// ---------------------------------------------------------------------------

/// What separates the pieces of a split.
pub enum Sep {
    /// One given character (`str::split(c)`).
    Char(char),
    /// Any white-space character.
    Ws,
}

pub open spec fn sep_matches(sep: Sep, c: char) -> bool {
    match sep {
        Sep::Char(d) => c == d,
        Sep::Ws => is_ws(c),
    }
}

/// The pieces of `s` between separators, as `str::split` yields them:
/// `n` separators give `n + 1` pieces, empty ones included.
pub open spec fn split(s: Seq<char>, sep: Sep) -> Seq<Seq<char>>
    decreases s.len(),
{
    if s.len() == 0 {
        seq![Seq::<char>::empty()]
    } else {
        let p = split(s.drop_last(), sep);
        if sep_matches(sep, s.last()) {
            p.push(Seq::<char>::empty())
        } else {
            p.update(p.len() - 1, p.last().push(s.last()))
        }
    }
}

/// A split always has at least one piece.
pub proof fn lemma_split_nonempty(s: Seq<char>, sep: Sep)
    ensures
        split(s, sep).len() >= 1,
    decreases s.len(),
{
    if s.len() > 0 {
        lemma_split_nonempty(s.drop_last(), sep);
    }
}

/// The non-empty pieces, in order.
pub open spec fn nonempty(ps: Seq<Seq<char>>) -> Seq<Seq<char>>
    decreases ps.len(),
{
    if ps.len() == 0 {
        ps
    } else if ps.last().len() == 0 {
        nonempty(ps.drop_last())
    } else {
        nonempty(ps.drop_last()).push(ps.last())
    }
}

/// The words of `s`, as `str::split_whitespace` yields them.
pub open spec fn words(s: Seq<char>) -> Seq<Seq<char>> {
    nonempty(split(s, Sep::Ws))
}

/// The pieces joined with `sep` between neighbours (`[T]::join`).
pub open spec fn join(ps: Seq<Seq<char>>, sep: Seq<char>) -> Seq<char>
    decreases ps.len(),
{
    if ps.len() == 0 {
        Seq::empty()
    } else if ps.len() == 1 {
        ps[0]
    } else {
        join(ps.drop_last(), sep) + sep + ps.last()
    }
}

/// Joining one more piece.
pub proof fn lemma_join_push(ps: Seq<Seq<char>>, sep: Seq<char>, p: Seq<char>)
    ensures
        join(ps.push(p), sep) == if ps.len() == 0 {
            p
        } else {
            join(ps, sep) + sep + p
        },
{
    assert(ps.push(p).drop_last() == ps);
}

/// Joining the pieces of a split at `c` with `c` gives back the text.
pub proof fn lemma_join_split(s: Seq<char>, c: char)
    ensures
        join(split(s, Sep::Char(c)), seq![c]) == s,
    decreases s.len(),
{
    if s.len() > 0 {
        let t = s.drop_last();
        let x = s.last();
        let p = split(t, Sep::Char(c));
        lemma_join_split(t, c);
        lemma_split_nonempty(t, Sep::Char(c));
        if x == c {
            lemma_join_push(p, seq![c], Seq::<char>::empty());
        } else {
            let q = p.update(p.len() - 1, p.last().push(x));
            if p.len() > 1 {
                assert(q.drop_last() =~= p.drop_last());
            }
        }
        assert(t.push(x) =~= s);
    }
}

/// A character that is not in the text is in none of its pieces.
pub proof fn lemma_split_avoids(s: Seq<char>, sep: Sep, d: char)
    requires
        !s.contains(d),
    ensures
        forall|k: int, j: int|
            0 <= k < split(s, sep).len() && 0 <= j < split(s, sep)[k].len() ==> split(s, sep)[k][j] != d,
    decreases s.len(),
{
    if s.len() > 0 {
        let t = s.drop_last();
        assert forall|i: int| 0 <= i < t.len() implies t[i] != d by {
            assert(t[i] == s[i]);
        }
        lemma_split_avoids(t, sep, d);
        lemma_split_nonempty(t, sep);
        assert(s[s.len() - 1] == s.last());
    }
}

/// The character sequences of a vector of character vectors.
pub open spec fn views(ps: Seq<Vec<char>>) -> Seq<Seq<char>> {
    ps.map_values(|p: Vec<char>| p@)
}

/// Splits a character vector at every separator.
pub fn split_vec(v: &Vec<char>, sep: &Sep) -> (res: Vec<Vec<char>>)
    ensures
        views(res@) == split(v@, *sep),
{
    let mut res: Vec<Vec<char>> = Vec::new();
    let mut cur: Vec<char> = Vec::new();
    let mut i: usize = 0;
    while i < v.len()
        invariant
            i <= v.len(),
            split(v@.take(i as int), *sep) == views(res@).push(cur@),
        decreases v.len() - i,
    {
        let ghost prev = v@.take(i as int);
        assert(v@.take(i + 1).drop_last() == prev);
        let c = v[i];
        let m = match sep {
            Sep::Char(d) => c == *d,
            Sep::Ws => is_whitespace(c),
        };
        if m {
            let done = cur;
            res.push(done);
            cur = Vec::new();
            assert(views(res@).push(cur@) =~= split(v@.take(i + 1), *sep));
        } else {
            let ghost old_cur = cur@;
            cur.push(c);
            assert(views(res@).push(cur@) =~= split(v@.take(i + 1), *sep));
        }
        i += 1;
    }
    assert(v@.take(v.len() as int) == v@);
    res.push(cur);
    assert(views(res@) =~= split(v@, *sep));
    res
}

/// The non-empty pieces of a vector of pieces.
pub fn nonempty_vec(ps: &Vec<Vec<char>>) -> (res: Vec<Vec<char>>)
    ensures
        views(res@) == nonempty(views(ps@)),
{
    let mut res: Vec<Vec<char>> = Vec::new();
    let n = ps.len();
    let mut i: usize = 0;
    while i < n
        invariant
            n == ps@.len(),
            i <= n,
            views(res@) == nonempty(views(ps@).take(i as int)),
        decreases n - i,
    {
        assert(views(ps@).take(i + 1).drop_last() =~= views(ps@).take(i as int));
        assert(views(ps@).take(i + 1).last() == ps@[i as int]@);
        if ps[i].len() > 0 {
            let p = ps[i].clone();
            res.push(p);
        }
        assert(views(res@) =~= nonempty(views(ps@).take(i + 1)));
        i += 1;
    }
    assert(views(ps@).take(n as int) =~= views(ps@));
    res
}

/// The words of a character vector.
pub fn words_vec(v: &Vec<char>) -> (res: Vec<Vec<char>>)
    ensures
        views(res@) == words(v@),
{
    let pieces = split_vec(v, &Sep::Ws);
    nonempty_vec(&pieces)
}

/// Joins the first `n` pieces with `sep` into a string.
pub fn join_prefix(ps: &Vec<Vec<char>>, n: usize, sep: &Vec<char>) -> (res: String)
    requires
        n <= ps.len(),
    ensures
        res@ == join(views(ps@).take(n as int), sep@),
{
    let mut res = String::new();
    let mut i: usize = 0;
    while i < n
        invariant
            n <= ps@.len(),
            i <= n,
            res@ == join(views(ps@).take(i as int), sep@),
        decreases n - i,
    {
        proof {
            lemma_join_push(views(ps@).take(i as int), sep@, ps@[i as int]@);
            assert(views(ps@).take(i as int).push(ps@[i as int]@) =~= views(ps@).take(i + 1));
        }
        if i > 0 {
            push_all(&mut res, sep);
        }
        push_all(&mut res, &ps[i]);
        i += 1;
    }
    res
}

/// Joins all pieces with `sep` into a string.
pub fn join_all(ps: &Vec<Vec<char>>, sep: &Vec<char>) -> (res: String)
    ensures
        res@ == join(views(ps@), sep@),
{
    let r = join_prefix(ps, ps.len(), sep);
    assert(views(ps@).take(ps@.len() as int) =~= views(ps@));
    r
}

// ---------------------------------------------------------------------------
// Trimming
// ---------------------------------------------------------------------------

/// Drops leading white space (`str::trim_start`).
pub open spec fn trim_start(s: Seq<char>) -> Seq<char>
    decreases s.len(),
{
    if s.len() > 0 && is_ws(s[0]) {
        trim_start(s.drop_first())
    } else {
        s
    }
}

/// Drops trailing white space (`str::trim_end`).
pub open spec fn trim_end(s: Seq<char>) -> Seq<char>
    decreases s.len(),
{
    if s.len() > 0 && is_ws(s.last()) {
        trim_end(s.drop_last())
    } else {
        s
    }
}

/// Drops white space on both ends (`str::trim`).
pub open spec fn trim(s: Seq<char>) -> Seq<char> {
    trim_end(trim_start(s))
}

proof fn lemma_trim_start_skip(s: Seq<char>, i: int)
    requires
        0 <= i <= s.len(),
        forall|k: int| 0 <= k < i ==> is_ws(#[trigger] s[k]),
    ensures
        trim_start(s) == trim_start(s.skip(i)),
    decreases i,
{
    if i > 0 {
        assert(is_ws(s[0]));
        lemma_trim_start_skip(s.drop_first(), i - 1);
        assert(s.drop_first().skip(i - 1) =~= s.skip(i));
    } else {
        assert(s.skip(0) =~= s);
    }
}

proof fn lemma_trim_end_take(s: Seq<char>, j: int)
    requires
        0 <= j <= s.len(),
        forall|k: int| j <= k < s.len() ==> is_ws(#[trigger] s[k]),
    ensures
        trim_end(s) == trim_end(s.take(j)),
    decreases s.len() - j,
{
    if j < s.len() {
        assert(is_ws(s.last()));
        lemma_trim_end_take(s.drop_last(), j);
        assert(s.drop_last().take(j) =~= s.take(j));
    } else {
        assert(s.take(j) =~= s);
    }
}

/// The bounds `(i, j)` such that `v[i..j]` is `v` with white space trimmed.
pub fn trim_bounds(v: &Vec<char>) -> (res: (usize, usize))
    ensures
        res.0 <= res.1 <= v.len(),
        v@.subrange(res.0 as int, res.1 as int) == trim(v@),
{
    let mut i: usize = 0;
    while i < v.len() && is_whitespace(v[i])
        invariant
            i <= v.len(),
            forall|k: int| 0 <= k < i ==> is_ws(#[trigger] v@[k]),
        decreases v.len() - i,
    {
        i += 1;
    }
    let mut j: usize = v.len();
    while j > i && is_whitespace(v[j - 1])
        invariant
            i <= j <= v.len(),
            forall|k: int| j <= k < v.len() ==> is_ws(#[trigger] v@[k]),
        decreases j,
    {
        j -= 1;
    }
    proof {
        lemma_trim_start_skip(v@, i as int);
        let t = v@.skip(i as int);
        if i < v.len() {
            assert(!is_ws(t[0]));
            assert(trim_start(t) == t);
        } else {
            assert(t.len() == 0);
        }
        assert forall|k: int| j - i <= k < t.len() implies is_ws(#[trigger] t[k]) by {
            assert(t[k] == v@[k + i]);
        }
        lemma_trim_end_take(t, j - i);
        let u = t.take(j - i);
        if j > i {
            assert(u.last() == v@[j - 1]);
        }
        assert(trim_end(u) == u);
        assert(u =~= v@.subrange(i as int, j as int));
    }
    (i, j)
}

/// A trimmed copy of `v`.
pub fn trim_vec(v: &Vec<char>) -> (res: Vec<char>)
    ensures
        res@ == trim(v@),
{
    let (i, j) = trim_bounds(v);
    let mut res: Vec<char> = Vec::new();
    let mut k = i;
    while k < j
        invariant
            i <= k <= j <= v.len(),
            res@ == v@.subrange(i as int, k as int),
        decreases j - k,
    {
        res.push(v[k]);
        assert(res@ =~= v@.subrange(i as int, k + 1));
        k += 1;
    }
    res
}

// ---------------------------------------------------------------------------
// Numbers
// ---------------------------------------------------------------------------

/// The decimal digit of `d < 10`.
pub open spec fn digit(d: nat) -> char {
    (('0' as u32) + d) as char
}

/// The decimal notation of `n`, without leading zeros (`u64::to_string`).
pub open spec fn dec(n: nat) -> Seq<char>
    decreases n,
{
    if n < 10 {
        seq![digit(n)]
    } else {
        dec(n / 10).push(digit(n % 10))
    }
}

/// Appends the decimal notation of `n` to `out`.
pub fn push_dec(out: &mut String, n: u128)
    ensures
        final(out)@ == old(out)@ + dec(n as nat),
    decreases n,
{
    if n < 10 {
        let c = char_of_digit(n);
        push_char(out, c);
        assert(seq![c] =~= dec(n as nat));
    } else {
        push_dec(out, n / 10);
        let c = char_of_digit(n % 10);
        push_char(out, c);
    }
}

/// The decimal digit character of `d < 10`.
pub fn char_of_digit(d: u128) -> (c: char)
    requires
        d < 10,
    ensures
        c == digit(d as nat),
{
    if d == 0 { '0' } else if d == 1 { '1' } else if d == 2 { '2' } else if d == 3 { '3' }
    else if d == 4 { '4' } else if d == 5 { '5' } else if d == 6 { '6' } else if d == 7 { '7' }
    else if d == 8 { '8' } else { '9' }
}

// ---------------------------------------------------------------------------
// Comparing, searching and replacing
// ---------------------------------------------------------------------------

/// Appends a string slice to `out`.
pub fn push_str(out: &mut String, s: &str)
    ensures
        final(out)@ == old(out)@ + s@,
{
    let v = chars_of(s);
    push_all(out, &v);
}

/// Whether two character vectors are equal.
pub fn vec_eq(a: &Vec<char>, b: &Vec<char>) -> (res: bool)
    ensures
        res == (a@ == b@),
{
    if a.len() != b.len() {
        return false;
    }
    let mut i: usize = 0;
    while i < a.len()
        invariant
            a@.len() == b@.len(),
            i <= a@.len(),
            forall|k: int| 0 <= k < i ==> a@[k] == b@[k],
        decreases a.len() - i,
    {
        if a[i] != b[i] {
            return false;
        }
        i += 1;
    }
    assert(a@ =~= b@);
    true
}

/// Whether a character vector spells the given string.
pub fn vec_eq_str(a: &Vec<char>, b: &str) -> (res: bool)
    ensures
        res == (a@ == b@),
{
    let bv = chars_of(b);
    vec_eq(a, &bv)
}

/// Whether two string slices are equal.
pub fn str_eq(a: &str, b: &str) -> (res: bool)
    ensures
        res == (a@ == b@),
{
    let av = chars_of(a);
    vec_eq_str(&av, b)
}

/// `p` is a prefix of `s` (`str::starts_with`).
pub open spec fn has_prefix(s: Seq<char>, p: Seq<char>) -> bool {
    p.len() <= s.len() && s.take(p.len() as int) == p
}

/// Whether `pat` occurs in `s` at index `i`.
pub fn matches_at(s: &Vec<char>, i: usize, pat: &Vec<char>) -> (res: bool)
    requires
        i <= s.len(),
    ensures
        res == has_prefix(s@.skip(i as int), pat@),
{
    if s.len() - i < pat.len() {
        return false;
    }
    let mut k: usize = 0;
    while k < pat.len()
        invariant
            i + pat@.len() <= s@.len(),
            s@.len() == s.len(),
            k <= pat@.len(),
            forall|j: int| 0 <= j < k ==> s@[i + j] == pat@[j],
        decreases pat.len() - k,
    {
        if s[i + k] != pat[k] {
            assert(s@.skip(i as int).take(pat@.len() as int)[k as int] != pat@[k as int]);
            return false;
        }
        k += 1;
    }
    assert(s@.skip(i as int).take(pat@.len() as int) =~= pat@);
    true
}

/// `p` occurs in `s` (`str::contains` with a string pattern).
pub open spec fn occurs(s: Seq<char>, p: Seq<char>) -> bool {
    exists|i: int| 0 <= i <= s.len() && #[trigger] has_prefix(s.skip(i), p)
}

/// Whether `p` occurs in `s`.
pub fn contains_str(s: &Vec<char>, p: &str) -> (res: bool)
    ensures
        res == occurs(s@, p@),
{
    let pv = chars_of(p);
    let mut i: usize = 0;
    loop
        invariant
            i <= s@.len(),
            pv@ == p@,
            forall|j: int| 0 <= j < i ==> !#[trigger] has_prefix(s@.skip(j), p@),
        decreases s@.len() - i,
    {
        if matches_at(s, i, &pv) {
            return true;
        }
        if i == s.len() {
            return false;
        }
        i += 1;
    }
}

/// `i` is the first place where `p` occurs in `s` (`str::find`).
pub open spec fn first_match(s: Seq<char>, p: Seq<char>, i: int) -> bool {
    &&& 0 <= i <= s.len()
    &&& has_prefix(s.skip(i), p)
    &&& forall|j: int| 0 <= j < i ==> !#[trigger] has_prefix(s.skip(j), p)
}

/// The first place where `p` occurs in `s`.
pub fn find_str(s: &Vec<char>, p: &str) -> (res: Option<usize>)
    ensures
        match res {
            Some(i) => first_match(s@, p@, i as int),
            None => !occurs(s@, p@),
        },
{
    let pv = chars_of(p);
    let mut i: usize = 0;
    loop
        invariant
            i <= s@.len(),
            pv@ == p@,
            forall|j: int| 0 <= j < i ==> !#[trigger] has_prefix(s@.skip(j), p@),
        decreases s@.len() - i,
    {
        if matches_at(s, i, &pv) {
            return Some(i);
        }
        if i == s.len() {
            return None;
        }
        i += 1;
    }
}

/// Whether `s` starts with `p`.
pub fn starts_with(s: &Vec<char>, p: &str) -> (res: bool)
    ensures
        res == has_prefix(s@, p@),
{
    let pv = chars_of(p);
    assert(s@.skip(0) =~= s@);
    matches_at(s, 0, &pv)
}

/// `p` is a suffix of `s` (`str::ends_with`).
pub open spec fn has_suffix(s: Seq<char>, p: Seq<char>) -> bool {
    p.len() <= s.len() && s.skip(s.len() - p.len()) == p
}

/// Whether `s` ends with `p`.
pub fn ends_with(s: &Vec<char>, p: &str) -> (res: bool)
    ensures
        res == has_suffix(s@, p@),
{
    let pv = chars_of(p);
    if pv.len() > s.len() {
        return false;
    }
    let start = s.len() - pv.len();
    let r = matches_at(s, start, &pv);
    assert(s@.skip(start as int).take(pv@.len() as int) =~= s@.skip(start as int));
    r
}

/// Whether `c` occurs in `s`.
pub fn contains_char(s: &Vec<char>, c: char) -> (res: bool)
    ensures
        res == s@.contains(c),
{
    let mut i: usize = 0;
    while i < s.len()
        invariant
            i <= s@.len(),
            forall|k: int| 0 <= k < i ==> s@[k] != c,
        decreases s.len() - i,
    {
        if s[i] == c {
            assert(s@[i as int] == c);
            return true;
        }
        i += 1;
    }
    false
}

/// Every occurrence of `pat` replaced by `rep`, scanning from the left and
/// not letting replaced occurrences overlap (`str::replace` with a
/// non-empty pattern).
pub open spec fn replace_all(s: Seq<char>, pat: Seq<char>, rep: Seq<char>) -> Seq<char>
    decreases s.len(),
{
    if pat.len() == 0 || s.len() < pat.len() {
        s
    } else if s.take(pat.len() as int) == pat {
        rep + replace_all(s.skip(pat.len() as int), pat, rep)
    } else {
        seq![s[0]] + replace_all(s.skip(1), pat, rep)
    }
}

/// `s` with every occurrence of `pat` replaced by `rep`.
pub fn replace_vec(s: &Vec<char>, pat: &Vec<char>, rep: &Vec<char>) -> (res: Vec<char>)
    requires
        pat@.len() > 0,
    ensures
        res@ == replace_all(s@, pat@, rep@),
{
    let mut out: Vec<char> = Vec::new();
    let n = s.len();
    let mut i: usize = 0;
    assert(s@.skip(0) =~= s@);
    while i < n
        invariant
            n == s@.len(),
            i <= n,
            pat@.len() > 0,
            out@ + replace_all(s@.skip(i as int), pat@, rep@) == replace_all(s@, pat@, rep@),
        decreases n - i,
    {
        let ghost t = s@.skip(i as int);
        let ghost before = out@;
        if matches_at(s, i, pat) {
            let mut k: usize = 0;
            while k < rep.len()
                invariant
                    k <= rep@.len(),
                    out@ == before + rep@.take(k as int),
                decreases rep.len() - k,
            {
                out.push(rep[k]);
                assert(out@ =~= before + rep@.take(k + 1));
                k += 1;
            }
            assert(rep@.take(rep@.len() as int) =~= rep@);
            assert(t.skip(pat@.len() as int) =~= s@.skip(i + pat@.len()));
            assert(out@ + replace_all(s@.skip(i + pat@.len()), pat@, rep@) =~= before + replace_all(t, pat@, rep@));
            i = i + pat.len();
        } else {
            out.push(s[i]);
            assert(t.skip(1) =~= s@.skip(i + 1));
            assert(t[0] == s@[i as int]);
            proof {
                if t.len() < pat@.len() {
                    assert(replace_all(t, pat@, rep@) == t);
                    assert(replace_all(t.skip(1), pat@, rep@) == t.skip(1));
                    assert(t =~= seq![t[0]] + t.skip(1));
                }
            }
            assert(out@ + replace_all(s@.skip(i + 1), pat@, rep@) =~= before + replace_all(t, pat@, rep@));
            i = i + 1;
        }
    }
    assert(s@.skip(n as int) =~= Seq::<char>::empty());
    assert(out@ + Seq::<char>::empty() =~= out@);
    out
}

/// `s` with every occurrence of `pat` replaced by `rep`, on string slices.
pub fn replace_str(s: &Vec<char>, pat: &str, rep: &str) -> (res: Vec<char>)
    requires
        pat@.len() > 0,
    ensures
        res@ == replace_all(s@, pat@, rep@),
{
    let pv = chars_of(pat);
    let rv = chars_of(rep);
    replace_vec(s, &pv, &rv)
}

// ---------------------------------------------------------------------------
// Lines
// ---------------------------------------------------------------------------

/// Drops one `\r` at the end, as `str::lines` does before a newline.
pub open spec fn strip_cr(l: Seq<char>) -> Seq<char> {
    if l.len() > 0 && l.last() == '\r' {
        l.drop_last()
    } else {
        l
    }
}

/// The lines of a text as `str::lines` yields them: split at `\n`, a `\r`
/// before a `\n` dropped, and no empty last line after a final `\n`.
pub open spec fn text_lines(s: Seq<char>) -> Seq<Seq<char>> {
    let p = split(s, Sep::Char('\n'));
    let body = p.drop_last().map_values(|l: Seq<char>| strip_cr(l));
    if p.last().len() == 0 {
        body
    } else {
        body.push(p.last())
    }
}

/// The lines of a character vector (`str::lines`).
pub fn lines_vec(v: &Vec<char>) -> (res: Vec<Vec<char>>)
    ensures
        views(res@) == text_lines(v@),
{
    let pieces = split_vec(v, &Sep::Char('\n'));
    let ghost p = split(v@, Sep::Char('\n'));
    proof { lemma_split_nonempty(v@, Sep::Char('\n')); }
    let n = pieces.len();
    let mut lines: Vec<Vec<char>> = Vec::new();
    let mut i: usize = 0;
    while i < n - 1
        invariant
            n == pieces@.len(),
            n >= 1,
            views(pieces@) == p,
            i <= n - 1,
            views(lines@) == p.take(i as int).map_values(|l: Seq<char>| strip_cr(l)),
        decreases n - 1 - i,
    {
        let mut row = pieces[i].clone();
        assert(row@ =~= p[i as int]);
        let len = row.len();
        if len > 0 && row[len - 1] == '\r' {
            row.pop();
            assert(row@ =~= strip_cr(p[i as int]));
        } else {
            assert(len > 0 ==> p[i as int].last() == row@[len - 1]);
            assert(row@ == strip_cr(p[i as int]));
        }
        let ghost r = row@;
        let ghost before = views(lines@);
        lines.push(row);
        assert(views(lines@) =~= before.push(r));
        assert(p.take(i + 1).map_values(|l: Seq<char>| strip_cr(l)) =~= p.take(i as int).map_values(|l: Seq<char>| strip_cr(l)).push(strip_cr(p[i as int])));
        i += 1;
    }
    assert(p.take(n - 1) =~= p.drop_last());
    if pieces[n - 1].len() > 0 {
        let last = pieces[n - 1].clone();
        assert(last@ =~= p.last());
        lines.push(last);
    }
    assert(views(lines@) =~= text_lines(v@));
    lines
}

} // verus!
