//! Text helpers used throughout the command line tool.
use vstd::prelude::*;
use crate::text::{
    alnum, char_is_alphanumeric, chars_of, join, join_all, join_prefix, lowercase, nonempty,
    nonempty_vec, push_char, push_dec, char_of_digit, dec, digit, split, split_vec, string_of, string_of_range, to_lowercase, trim,
    trim_vec, views, words, words_vec, Sep, push_str,
};

verus! {

/// Utility functions for the CLI.
pub struct Utils;

/// Console output helpers; printing itself happens outside the library.
pub struct Console;

impl Console {
    /// A progress line: `[step/total] message`.
    pub fn step_text(step: u8, total: u8, message: &str) -> (res: String)
        ensures
            res@ == "["@ + dec(step as nat) + "/"@ + dec(total as nat) + "] "@ + message@,
    {
        let mut out = String::new();
        push_str(&mut out, "[");
        push_dec(&mut out, step as u128);
        push_str(&mut out, "/");
        push_dec(&mut out, total as u128);
        push_str(&mut out, "] ");
        push_str(&mut out, message);
        out
    }
}

/// A slug keeps letters and digits and turns everything else into `-`.
pub open spec fn slug_char(c: char) -> char {
    if alnum(c) {
        c
    } else {
        '-'
    }
}

/// The slug of `s`: lower-cased, runs of characters other than letters and
/// digits collapsed to single dashes, no dash at either end.
pub open spec fn slug(s: Seq<char>) -> Seq<char> {
    join(
        nonempty(split(lowercase(s).map_values(|c: char| slug_char(c)), Sep::Char('-'))),
        seq!['-'],
    )
}

/// Reading time in whole minutes for `n` words at 200 words a minute:
/// rounded up, at least one.
pub open spec fn reading_minutes(n: nat) -> nat {
    let m = (n + 199) / 200;
    if m >= 1 {
        m
    } else {
        1
    }
}

pub open spec fn ellipsis() -> Seq<char> {
    seq!['.', '.', '.']
}

/// The first `max_words` words joined by single spaces, followed by `...`
/// when the text has more words than that.
pub open spec fn excerpt(s: Seq<char>, max_words: nat) -> Seq<char> {
    let w = words(s);
    let k = if w.len() < max_words {
        w.len()
    } else {
        max_words
    };
    join(w.take(k as int), seq![' ']) + if w.len() > max_words {
        ellipsis()
    } else {
        Seq::empty()
    }
}

/// Index of the last occurrence of `c` in `s`, or -1.
pub open spec fn last_index(s: Seq<char>, c: char) -> int
    decreases s.len(),
{
    if s.len() == 0 {
        -1
    } else if s.last() == c {
        s.len() - 1
    } else {
        last_index(s.drop_last(), c)
    }
}

/// Components of a `/`-separated path that name something: empty pieces and
/// `.` are dropped, as `Path::components` drops them.
pub open spec fn named_components(p: Seq<char>) -> Seq<Seq<char>> {
    drop_dots(nonempty(split(p, Sep::Char('/'))))
}

/// The pieces other than `.`.
pub open spec fn drop_dots(ps: Seq<Seq<char>>) -> Seq<Seq<char>>
    decreases ps.len(),
{
    if ps.len() == 0 {
        ps
    } else if ps.last() == seq!['.'] {
        drop_dots(ps.drop_last())
    } else {
        drop_dots(ps.drop_last()).push(ps.last())
    }
}

/// The file name of a path (`Path::file_name`).
pub open spec fn file_name(p: Seq<char>) -> Option<Seq<char>> {
    let cs = named_components(p);
    if cs.len() == 0 || cs.last() == seq!['.', '.'] {
        None
    } else {
        Some(cs.last())
    }
}

/// The extension of a file name (`Path::extension`): what follows the last
/// dot, provided something precedes that dot.
pub open spec fn extension_of(name: Seq<char>) -> Option<Seq<char>> {
    let d = last_index(name, '.');
    if d <= 0 {
        None
    } else {
        Some(name.skip(d + 1))
    }
}

/// The lower-cased extension of a path.
pub open spec fn path_extension(p: Seq<char>) -> Option<Seq<char>> {
    match file_name(p) {
        None => None,
        Some(n) => match extension_of(n) {
            None => None,
            Some(e) => Some(lowercase(e)),
        },
    }
}

/// Characters allowed in a repository name.
pub open spec fn repo_char(c: char) -> bool {
    alnum(c) || c == '-' || c == '_' || c == '.'
}

/// GitHub's rule for repository names: 1 to 100 bytes of letters, digits,
/// `-`, `_` and `.`, not starting or ending with `-`.
pub open spec fn valid_repo_name(s: Seq<char>, byte_len: nat) -> bool {
    &&& s.len() > 0
    &&& byte_len <= 100
    &&& s[0] != '-'
    &&& s.last() != '-'
    &&& forall|i: int| 0 <= i < s.len() ==> repo_char(#[trigger] s[i])
}

/// Whether `s` holds two dashes in a row.
pub open spec fn has_double_dash(s: Seq<char>) -> bool {
    exists|i: int| 0 <= i < s.len() - 1 && #[trigger] s[i] == '-' && s[i + 1] == '-'
}

/// GitHub's rule for user names: 1 to 39 bytes of letters, digits and
/// single dashes, not starting or ending with `-`.
pub open spec fn valid_username(s: Seq<char>, byte_len: nat) -> bool {
    &&& s.len() > 0
    &&& byte_len <= 39
    &&& s[0] != '-'
    &&& s.last() != '-'
    &&& !has_double_dash(s)
    &&& forall|i: int| 0 <= i < s.len() ==> (alnum(#[trigger] s[i]) || s[i] == '-')
}

/// The tags of a comma separated list: trimmed, empty ones dropped.
pub open spec fn tags_of(s: Seq<char>) -> Seq<Seq<char>> {
    nonempty(split(s, Sep::Char(',')).map_values(|t: Seq<char>| trim(t)))
}

/// The strings of a vector of strings.
pub open spec fn string_views(v: Seq<String>) -> Seq<Seq<char>> {
    v.map_values(|t: String| t@)
}

/// Joins strings with `sep` between neighbours.
pub fn join_strings(v: &Vec<String>, sep: &str) -> (res: String)
    ensures
        res@ == join(string_views(v@), sep@),
{
    let mut ps: Vec<Vec<char>> = Vec::new();
    let mut i: usize = 0;
    while i < v.len()
        invariant
            i <= v@.len(),
            views(ps@) == string_views(v@).take(i as int),
        decreases v.len() - i,
    {
        let c = chars_of(v[i].as_str());
        let ghost before = views(ps@);
        ps.push(c);
        assert(views(ps@) =~= before.push(v@[i as int]@));
        assert(string_views(v@).take(i + 1) =~= string_views(v@).take(i as int).push(v@[i as int]@));
        i += 1;
    }
    assert(string_views(v@).take(v@.len() as int) =~= string_views(v@));
    let sv = chars_of(sep);
    crate::text::join_all(&ps, &sv)
}

impl Utils {
    /// Convert a title to a URL-friendly slug.
    pub fn slugify(text: &str) -> (res: String)
        ensures
            res@ == slug(text@),
    {
        let lower = to_lowercase(text);
        let lv = chars_of(lower.as_str());
        let mut mapped: Vec<char> = Vec::new();
        let mut i: usize = 0;
        while i < lv.len()
            invariant
                i <= lv.len(),
                mapped@ == lv@.take(i as int).map_values(|c: char| slug_char(c)),
            decreases lv.len() - i,
        {
            let c = lv[i];
            let m = if char_is_alphanumeric(c) {
                c
            } else {
                '-'
            };
            mapped.push(m);
            assert(mapped@ =~= lv@.take(i + 1).map_values(|c: char| slug_char(c)));
            i += 1;
        }
        assert(lv@.take(lv.len() as int) =~= lv@);
        let pieces = split_vec(&mapped, &Sep::Char('-'));
        let kept = nonempty_vec(&pieces);
        let dash: Vec<char> = vec!['-'];
        assert(dash@ =~= seq!['-']);
        join_all(&kept, &dash)
    }

    /// Calculate estimated reading time based on word count.
    pub fn calculate_reading_time(content: &str) -> (res: usize)
        ensures
            res == reading_minutes(words(content@).len()),
    {
        let v = chars_of(content);
        let w = words_vec(&v);
        let n = w.len();
        assert(n == words(content@).len());
        let minutes = n / 200 + if n % 200 == 0 {
            0
        } else {
            1
        };
        assert(minutes == (n + 199) / 200);
        if minutes >= 1 {
            minutes
        } else {
            1
        }
    }

    /// Extract excerpt from content.
    pub fn extract_excerpt(content: &str, max_words: usize) -> (res: String)
        ensures
            res@ == excerpt(content@, max_words as nat),
    {
        let v = chars_of(content);
        let w = words_vec(&v);
        let k = if w.len() < max_words {
            w.len()
        } else {
            max_words
        };
        let space: Vec<char> = vec![' '];
        assert(space@ =~= seq![' ']);
        let mut res = join_prefix(&w, k, &space);
        if w.len() > max_words {
            push_char(&mut res, '.');
            push_char(&mut res, '.');
            push_char(&mut res, '.');
        }
        assert(res@ =~= excerpt(content@, max_words as nat));
        res
    }
}

/// Number of bytes UTF-8 takes for one character.
pub open spec fn char_utf8_len(c: char) -> nat {
    if c <= '\u{7f}' {
        1
    } else if c <= '\u{7ff}' {
        2
    } else if c <= '\u{ffff}' {
        3
    } else {
        4
    }
}

/// Length in bytes of the UTF-8 encoding (`str::len`).
pub open spec fn utf8_len(s: Seq<char>) -> nat
    decreases s.len(),
{
    if s.len() == 0 {
        0
    } else {
        utf8_len(s.drop_last()) + char_utf8_len(s.last())
    }
}

/// Whether the UTF-8 encoding of `v` is longer than `cap` bytes.
pub fn utf8_len_exceeds(v: &Vec<char>, cap: usize) -> (res: bool)
    ensures
        res == (utf8_len(v@) > cap),
{
    let mut total: usize = 0;
    let mut i: usize = 0;
    while i < v.len()
        invariant
            i <= v.len(),
            total == utf8_len(v@.take(i as int)),
            total <= cap,
        decreases v.len() - i,
    {
        assert(v@.take(i + 1).drop_last() =~= v@.take(i as int));
        let c = v[i];
        let n: usize = if c <= '\u{7f}' {
            1
        } else if c <= '\u{7ff}' {
            2
        } else if c <= '\u{ffff}' {
            3
        } else {
            4
        };
        if n > cap - total {
            proof { lemma_utf8_len_prefix(v@, i + 1); }
            return true;
        }
        total = total + n;
        i += 1;
    }
    assert(v@.take(v.len() as int) =~= v@);
    false
}

/// The encoding of a prefix is no longer than that of the whole.
pub proof fn lemma_utf8_len_prefix(s: Seq<char>, k: int)
    requires
        0 <= k <= s.len(),
    ensures
        utf8_len(s.take(k)) <= utf8_len(s),
    decreases s.len() - k,
{
    if k < s.len() {
        lemma_utf8_len_prefix(s, k + 1);
        assert(s.take(k + 1).drop_last() =~= s.take(k));
    } else {
        assert(s.take(k) =~= s);
    }
}

impl Utils {
    /// Get the lower-cased file extension of a path.
    pub fn get_file_extension(path: &str) -> (res: Option<String>)
        ensures
            match res {
                None => path_extension(path@) is None,
                Some(e) => path_extension(path@) == Some(e@),
            },
    {
        let v = chars_of(path);
        let pieces = split_vec(&v, &Sep::Char('/'));
        let named = nonempty_vec(&pieces);
        let mut comps: Vec<Vec<char>> = Vec::new();
        let mut i: usize = 0;
        while i < named.len()
            invariant
                i <= named.len(),
                views(comps@) == drop_dots(views(named@).take(i as int)),
            decreases named.len() - i,
        {
            assert(views(named@).take(i + 1).drop_last() =~= views(named@).take(i as int));
            assert(views(named@).take(i + 1).last() == named@[i as int]@);
            let is_dot = named[i].len() == 1 && named[i][0] == '.';
            proof {
                if is_dot {
                    assert(named@[i as int]@ =~= seq!['.']);
                }
            }
            if !is_dot {
                comps.push(named[i].clone());
            }
            assert(views(comps@) =~= drop_dots(views(named@).take(i + 1)));
            i += 1;
        }
        assert(views(named@).take(named.len() as int) =~= views(named@));
        assert(views(comps@) == named_components(path@));
        if comps.len() == 0 {
            return None;
        }
        let last = &comps[comps.len() - 1];
        assert(last@ == named_components(path@).last());
        let is_dotdot = last.len() == 2 && last[0] == '.' && last[1] == '.';
        proof {
            if is_dotdot {
                assert(last@ =~= seq!['.', '.']);
            }
        }
        if is_dotdot {
            return None;
        }
        // position of the last dot
        assert(last@.take(last@.len() as int) =~= last@);
        let mut j: usize = last.len();
        while j > 0 && last[j - 1] != '.'
            invariant
                j <= last@.len(),
                last_index(last@, '.') == last_index(last@.take(j as int), '.'),
            decreases j,
        {
            assert(last@.take(j as int).drop_last() =~= last@.take(j - 1));
            j -= 1;
        }
        proof {
            assert(last@.take(last@.len() as int) =~= last@);
        }
        if j <= 1 {
            assert(last_index(last@, '.') <= 0) by {
                if j == 1 {
                    assert(last@.take(1).last() == '.');
                } else {
                    assert(last@.take(0).len() == 0);
                }
            }
            return None;
        }
        assert(last_index(last@, '.') == j - 1) by {
            assert(last@.take(j as int).last() == '.');
        }
        let ext = string_of_range(last, j, last.len());
        assert(ext@ =~= last@.skip(j as int));
        let lower = to_lowercase(ext.as_str());
        Some(lower)
    }

    /// Validate a GitHub repository name.
    pub fn is_valid_github_repo_name(name: &str) -> (res: bool)
        ensures
            res == valid_repo_name(name@, utf8_len(name@)),
    {
        let v = chars_of(name);
        if v.len() == 0 || utf8_len_exceeds(&v, 100) {
            return false;
        }
        if v[0] == '-' || v[v.len() - 1] == '-' {
            return false;
        }
        let mut i: usize = 0;
        while i < v.len()
            invariant
                i <= v.len(),
                v@ == name@,
                forall|k: int| 0 <= k < i ==> repo_char(#[trigger] v@[k]),
            decreases v.len() - i,
        {
            let c = v[i];
            if !(char_is_alphanumeric(c) || c == '-' || c == '_' || c == '.') {
                return false;
            }
            i += 1;
        }
        true
    }

    /// Validate a GitHub username.
    pub fn is_valid_github_username(username: &str) -> (res: bool)
        ensures
            res == valid_username(username@, utf8_len(username@)),
    {
        let v = chars_of(username);
        if v.len() == 0 || utf8_len_exceeds(&v, 39) {
            return false;
        }
        if v[0] == '-' || v[v.len() - 1] == '-' {
            return false;
        }
        let mut i: usize = 0;
        while i + 1 < v.len()
            invariant
                i < v.len(),
                v@ == username@,
                forall|k: int| 0 <= k < i ==> !(#[trigger] v@[k] == '-' && v@[k + 1] == '-'),
            decreases v.len() - i,
        {
            if v[i] == '-' && v[i + 1] == '-' {
                return false;
            }
            i += 1;
        }
        assert(!has_double_dash(username@));
        let mut i: usize = 0;
        while i < v.len()
            invariant
                i <= v.len(),
                v@ == username@,
                forall|k: int| 0 <= k < i ==> (alnum(#[trigger] v@[k]) || v@[k] == '-'),
            decreases v.len() - i,
        {
            let c = v[i];
            if !(char_is_alphanumeric(c) || c == '-') {
                return false;
            }
            i += 1;
        }
        true
    }

    /// Parse comma-separated tags.
    pub fn parse_tags(tags_str: &str) -> (res: Vec<String>)
        ensures
            string_views(res@) == tags_of(tags_str@),
    {
        let v = chars_of(tags_str);
        let pieces = split_vec(&v, &Sep::Char(','));
        let ghost trimmed = split(v@, Sep::Char(',')).map_values(|t: Seq<char>| trim(t));
        let mut res: Vec<String> = Vec::new();
        let mut i: usize = 0;
        while i < pieces.len()
            invariant
                i <= pieces.len(),
                views(pieces@) == split(v@, Sep::Char(',')),
                trimmed == split(v@, Sep::Char(',')).map_values(|t: Seq<char>| trim(t)),
                string_views(res@) == nonempty(trimmed.take(i as int)),
            decreases pieces.len() - i,
        {
            assert(trimmed.take(i + 1).drop_last() =~= trimmed.take(i as int));
            assert(trimmed.take(i + 1).last() == trim(pieces@[i as int]@));
            let t = trim_vec(&pieces[i]);
            if t.len() > 0 {
                let st = string_of(&t);
                res.push(st);
            }
            assert(string_views(res@) =~= nonempty(trimmed.take(i + 1)));
            i += 1;
        }
        assert(trimmed.take(pieces.len() as int) =~= trimmed);
        res
    }
}

/// `2^e`.
pub open spec fn pow2(e: nat) -> nat
    decreases e,
{
    if e == 0 {
        1
    } else {
        2 * pow2((e - 1) as nat)
    }
}

/// Number of binary digits of `n`.
pub open spec fn bit_len(n: nat) -> nat
    decreases n,
{
    if n == 0 {
        0
    } else {
        1 + bit_len(n / 2)
    }
}

/// `a / d` rounded to the nearest integer, ties to the even one.
pub open spec fn round_half_even(a: nat, d: nat) -> nat
    recommends
        d > 0,
{
    let q = a / d;
    let r = a % d;
    if 2 * r > d {
        q + 1
    } else if 2 * r < d {
        q
    } else if q % 2 == 0 {
        q
    } else {
        q + 1
    }
}

/// The value of `n as f64`: exact up to 53 significant bits, otherwise
/// rounded to 53 significant bits with ties to even.
pub open spec fn f64_value(n: nat) -> nat {
    if bit_len(n) <= 53 {
        n
    } else {
        let u = pow2((bit_len(n) - 53) as nat);
        round_half_even(n, u) * u
    }
}

/// `1024^k`.
pub open spec fn pow1024(k: nat) -> nat
    decreases k,
{
    if k == 0 {
        1
    } else {
        1024 * pow1024((k - 1) as nat)
    }
}

/// The unit reached by dividing `m` by 1024 while it is at least 1024,
/// at most four times.
pub open spec fn size_unit(m: nat, k: nat) -> nat
    decreases 4 - k,
{
    if k < 4 && m >= pow1024(k + 1) {
        size_unit(m, k + 1)
    } else {
        k
    }
}

/// The name of unit `k`.
pub open spec fn unit_name(k: nat) -> Seq<char> {
    if k == 0 {
        seq!['B']
    } else if k == 1 {
        seq!['K', 'B']
    } else if k == 2 {
        seq!['M', 'B']
    } else if k == 3 {
        seq!['G', 'B']
    } else {
        seq!['T', 'B']
    }
}

/// A human readable size: whole bytes below 1 KB, otherwise the size in the
/// largest unit up to TB, rounded to one decimal (ties to even).
pub open spec fn file_size_text(size: nat) -> Seq<char> {
    let m = f64_value(size);
    let k = size_unit(m, 0);
    if k == 0 {
        dec(m) + seq![' '] + unit_name(0)
    } else {
        let t = round_half_even(10 * m, pow1024(k));
        dec(t / 10) + seq!['.', digit(t % 10), ' '] + unit_name(k)
    }
}

fn round_half_even_exec(a: u128, d: u128) -> (res: u128)
    requires
        d > 0,
        a < 0x4000_0000_0000_0000_0000_0000_0000_0000u128,
        d < 0x4000_0000_0000_0000_0000_0000_0000_0000u128,
    ensures
        res == round_half_even(a as nat, d as nat),
        res <= a / d + 1,
{
    let q = a / d;
    let r = a % d;
    if 2 * r > d {
        q + 1
    } else if 2 * r < d {
        q
    } else if q % 2 == 0 {
        q
    } else {
        q + 1
    }
}

fn push_unit(out: &mut String, k: u32)
    requires
        k <= 4,
    ensures
        final(out)@ == old(out)@ + unit_name(k as nat),
{
    if k == 0 {
        push_char(out, 'B');
    } else {
        let c = if k == 1 {
            'K'
        } else if k == 2 {
            'M'
        } else if k == 3 {
            'G'
        } else {
            'T'
        };
        push_char(out, c);
        push_char(out, 'B');
    }
}

impl Utils {
    /// Format file size in human readable format.
    pub fn format_file_size(size: u64) -> (res: String)
        ensures
            res@ == file_size_text(size as nat),
    {
        // the value of `size as f64`
        let mut b: u32 = 0;
        let mut x: u64 = size;
        proof { lemma_bit_len_bound(size as nat); }
        while x > 0
            invariant
                bit_len(size as nat) == b + bit_len(x as nat),
                b <= 64 - bit_len(x as nat),
                bit_len(x as nat) <= 64,
            decreases x,
        {
            proof { lemma_bit_len_bound(x as nat); }
            x = x / 2;
            b = b + 1;
        }
        let m: u128 = if b <= 53 {
            size as u128
        } else {
            let mut u: u128 = 1;
            let mut e: u32 = 0;
            while e < b - 53
                invariant
                    e <= b - 53,
                    b <= 64,
                    u == pow2(e as nat),
                    u <= 0x800,
                    u >= 1,
                decreases b - 53 - e,
            {
                assert(pow2((e + 1) as nat) == 2 * pow2(e as nat));
                proof { lemma_pow2_small(e as nat, (b - 54) as nat); }
                u = u * 2;
                e = e + 1;
            }
            let q = round_half_even_exec(size as u128, u);
            proof {
                vstd::arithmetic::div_mod::lemma_fundamental_div_mod(size as int, u as int);
                assert(q * u <= (size as int / u as int) * u + u) by (nonlinear_arith)
                    requires q <= size as int / u as int + 1, u > 0;
            }
            q * u
        };
        assert(m == f64_value(size as nat));
        assert(m <= 0x1_0000_0000_0000_1000);
        // the unit
        let mut k: u32 = 0;
        let mut p: u128 = 1;
        while k < 4 && m >= p * 1024
            invariant
                k <= 4,
                p == pow1024(k as nat),
                p <= 0x100_0000_0000,
                p >= 1,
                size_unit(m as nat, 0) == size_unit(m as nat, k as nat),
            decreases 4 - k,
        {
            assert(pow1024((k + 1) as nat) == 1024 * pow1024(k as nat));
            proof { lemma_pow1024_small(k as nat); }
            p = p * 1024;
            k = k + 1;
        }
        assert(pow1024((k + 1) as nat) == 1024 * pow1024(k as nat));
        let mut res = String::new();
        if k == 0 {
            push_dec(&mut res, m);
            push_char(&mut res, ' ');
            push_unit(&mut res, 0);
        } else {
            let t = round_half_even_exec(10 * m, p);
            push_dec(&mut res, t / 10);
            push_char(&mut res, '.');
            let d = char_of_digit(t % 10);
            push_char(&mut res, d);
            push_char(&mut res, ' ');
            push_unit(&mut res, k);
        }
        assert(res@ =~= file_size_text(size as nat));
        res
    }
}

proof fn lemma_bit_len_bound(x: nat)
    requires
        x <= 0xffff_ffff_ffff_ffff,
    ensures
        bit_len(x) <= 64,
        bit_len(x / 2) + 1 == bit_len(x) || x == 0,
{
    lemma_pow2_64();
    lemma_bit_len_le(x, 64);
}

proof fn lemma_bit_len_le(x: nat, n: nat)
    requires
        x < pow2(n),
    ensures
        bit_len(x) <= n,
    decreases n,
{
    if n > 0 && x > 0 {
        lemma_bit_len_le(x / 2, (n - 1) as nat);
    }
    if n == 0 {
        assert(x == 0);
    }
    if n == 64 {
        lemma_pow2_64();
    }
}

proof fn lemma_pow2_64()
    ensures
        pow2(64) == 0x1_0000_0000_0000_0000,
{
    reveal_with_fuel(pow2, 65);
}

proof fn lemma_pow2_small(e: nat, bound: nat)
    requires
        e <= bound,
        bound <= 10,
    ensures
        pow2(e) <= 0x400,
        pow2(e + 1) <= 0x800,
    decreases bound,
{
    reveal_with_fuel(pow2, 12);
    if e < bound {
        lemma_pow2_small(e, (bound - 1) as nat);
    } else {
        lemma_pow2_mono(e, 10);
    }
}

proof fn lemma_pow2_mono(a: nat, b: nat)
    requires
        a <= b,
    ensures
        pow2(a) <= pow2(b),
        pow2(a + 1) <= pow2(b + 1),
    decreases b - a,
{
    if a < b {
        lemma_pow2_mono(a, (b - 1) as nat);
    }
}

proof fn lemma_pow1024_small(k: nat)
    requires
        k < 4,
    ensures
        pow1024(k + 1) <= 0x100_0000_0000,
{
    reveal_with_fuel(pow1024, 6);
}

} // verus!
