//! The static site generator's own logic: which posts a build takes and
//! in which order, how tag pages and the archive group them, the texts of
//! a personal site's page, the front matter of `content.md`, the URLs that
//! templates ask for, the pages of the posts API and the RSS and Atom
//! feeds. Rendering templates and writing files happen outside the
//! library.
use vstd::prelude::*;
use crate::config::{Config, effective_url, strip_slashes};
use crate::content::{Post, PostStatus};
use crate::text::{chars_of, find_str, first_match, has_prefix, join, occurs, push_chars_range, push_str,
    starts_with, words, words_vec, string_of_range};
use crate::utils::{join_strings, string_views};
use crate::newsletter::migration::opt_view;
use crate::time::{format_time, time_text, Timestamp};
use crate::generator::markdown::{markdown_html, render_markdown};
use crate::commands::list::{before, lemma_insert_keeps_order, ordered_stably, time_gt, SortOrder};

verus! {

// ---------------------------------------------------------------------------
// Front matter
// ---------------------------------------------------------------------------

/// Why the front matter of a text cannot be read.
#[derive(Clone, Copy, PartialEq, Eq, Structural, Debug)]
pub enum FrontmatterError {
    /// The text does not open with `---`.
    NoOpening,
    /// No closing `---` line follows.
    NoClosing,
}

/// The message of a front matter error.
pub open spec fn frontmatter_error_text(e: FrontmatterError) -> Seq<char> {
    match e {
        FrontmatterError::NoOpening => "Content must start with YAML frontmatter"@,
        FrontmatterError::NoClosing => "Could not find closing --- for frontmatter"@,
    }
}

impl FrontmatterError {
    /// The message of the error.
    pub fn message(&self) -> (res: &'static str)
        ensures
            res@ == frontmatter_error_text(*self),
    {
        match self {
            FrontmatterError::NoOpening => "Content must start with YAML frontmatter",
            FrontmatterError::NoClosing => "Could not find closing --- for frontmatter",
        }
    }
}

/// The text after the opening `---` line.
pub open spec fn after_opening(c: Seq<char>) -> Seq<char> {
    if has_prefix(c, "---\r\n"@) { c.skip(5) } else { c.skip(4) }
}

/// Where the closing line starts: the first `\n---\n`, else the first
/// `\r\n---\r\n`.
pub open spec fn closing_at(rest: Seq<char>, end: int) -> bool {
    first_match(rest, "\n---\n"@, end)
        || (!occurs(rest, "\n---\n"@) && first_match(rest, "\r\n---\r\n"@, end))
}

/// The front matter and the body of a text, or why there are none.
pub open spec fn frontmatter_of(c: Seq<char>, res: Result<(Seq<char>, Seq<char>), FrontmatterError>) -> bool {
    if !(has_prefix(c, "---\n"@) || has_prefix(c, "---\r\n"@)) {
        res == Err::<(Seq<char>, Seq<char>), FrontmatterError>(FrontmatterError::NoOpening)
    } else {
        let rest = after_opening(c);
        if !occurs(rest, "\n---\n"@) && !occurs(rest, "\r\n---\r\n"@) {
            res == Err::<(Seq<char>, Seq<char>), FrontmatterError>(FrontmatterError::NoClosing)
        } else {
            exists|end: int| #[trigger] closing_at(rest, end) && res == Ok::<(Seq<char>, Seq<char>), FrontmatterError>((
                rest.take(end),
                if has_prefix(rest.skip(end), "\r\n---\r\n"@) { rest.skip(end + 7) } else { rest.skip(end + 5) },
            ))
        }
    }
}

/// Splits a text into its YAML front matter (between the opening `---`
/// line and the first closing one) and the body after it.
pub fn parse_frontmatter(content: &str) -> (res: Result<(String, String), FrontmatterError>)
    ensures
        frontmatter_of(content@, match res {
            Ok((f, b)) => Ok((f@, b@)),
            Err(e) => Err(e),
        }),
{
    proof {
        reveal_strlit("---\n");
        reveal_strlit("---\r\n");
        reveal_strlit("\n---\n");
        reveal_strlit("\r\n---\r\n");
    }
    let v = chars_of(content);
    let crlf = starts_with(&v, "---\r\n");
    if !starts_with(&v, "---\n") && !crlf {
        return Err(FrontmatterError::NoOpening);
    }
    let skip: usize = if crlf { 5 } else { 4 };
    let rest = string_of_range(&v, skip, v.len());
    let rv = chars_of(rest.as_str());
    assert(rv@ =~= after_opening(content@));
    let found = match find_str(&rv, "\n---\n") {
        Some(i) => Some(i),
        None => find_str(&rv, "\r\n---\r\n"),
    };
    match found {
        None => Err(FrontmatterError::NoClosing),
        Some(end) => {
            assert(closing_at(rv@, end as int));
            let front = string_of_range(&rv, 0, end);
            let tail = string_of_range(&rv, end, rv.len());
            let tv = chars_of(tail.as_str());
            let body_start: usize = if starts_with(&tv, "\r\n---\r\n") { end + 7 } else { end + 5 };
            proof {
                assert(tv@ =~= rv@.skip(end as int));
                if body_start == end + 5 {
                    assert(has_prefix(rv@.skip(end as int), "\n---\n"@));
                }
            }
            let body = string_of_range(&rv, body_start, rv.len());
            assert(front@ =~= rv@.take(end as int));
            assert(body@ =~= rv@.skip(body_start as int));
            Ok((front, body))
        },
    }
}

// ---------------------------------------------------------------------------
// Posts of a build
// ---------------------------------------------------------------------------

/// Whether a build takes a post: drafts only when asked for, posts dated
/// after `now` only when asked for.
pub open spec fn build_includes(p: Post, include_drafts: bool, include_future: bool, now: Timestamp) -> bool {
    &&& (p.metadata.status == PostStatus::Draft ==> include_drafts)
    &&& (!include_future ==> !(p.metadata.date.secs > now.secs
        || (p.metadata.date.secs == now.secs && p.metadata.date.nanos > now.nanos)))
}

/// Whether a build takes a post, at time `now`.
pub fn should_include_post(post: &Post, include_drafts: bool, include_future: bool, now: Timestamp) -> (res: bool)
    ensures
        res == build_includes(*post, include_drafts, include_future, now),
{
    if post.metadata.status == PostStatus::Draft && !include_drafts {
        return false;
    }
    if !include_future {
        let d = post.metadata.date;
        if d.secs > now.secs || (d.secs == now.secs && d.nanos > now.nanos) {
            return false;
        }
    }
    true
}

/// The positions of the posts a build publishes: each post it takes
/// once, newest first, posts of the same date keeping their places.
pub open spec fn is_build_order(posts: Seq<Post>, r: Seq<usize>, include_drafts: bool, include_future: bool, now: Timestamp) -> bool {
    &&& r.no_duplicates()
    &&& forall|k: int| 0 <= k < r.len() ==> #[trigger] r[k] < posts.len()
    &&& forall|i: int| 0 <= i < posts.len() ==> (build_includes(posts[i], include_drafts, include_future, now)
        <==> r.contains(i as usize))
    &&& ordered_stably(posts, r, SortOrder::Date)
}

fn is_newer(a: Timestamp, b: Timestamp) -> (res: bool)
    ensures
        res == time_gt(a, b),
{
    a.secs > b.secs || (a.secs == b.secs && a.nanos > b.nanos)
}

/// The posts a blog build publishes, as positions: those the build takes,
/// sorted stably newest first.
pub fn blog_post_order(posts: &Vec<Post>, include_drafts: bool, include_future: bool, now: Timestamp) -> (res: Vec<usize>)
    ensures
        is_build_order(posts@, res@, include_drafts, include_future, now),
{
    let ghost ps = posts@;
    let mut r: Vec<usize> = Vec::new();
    let mut i: usize = 0;
    while i < posts.len()
        invariant
            i <= posts@.len(),
            ps == posts@,
            r@.no_duplicates(),
            forall|k: int| 0 <= k < r@.len() ==> #[trigger] r@[k] < i,
            forall|j: int| 0 <= j < i ==> (build_includes(ps[j], include_drafts, include_future, now)
                <==> r@.contains(j as usize)),
            ordered_stably(ps, r@, SortOrder::Date),
        decreases posts.len() - i,
    {
        let p = &posts[i];
        if should_include_post(p, include_drafts, include_future, now) {
            let mut pos: usize = r.len();
            while pos > 0 && is_newer(p.metadata.date, posts[r[pos - 1]].metadata.date)
                invariant
                    pos <= r@.len(),
                    forall|k: int| 0 <= k < r@.len() ==> #[trigger] r@[k] < i,
                    forall|k: int| pos <= k < r@.len() ==> before(SortOrder::Date, ps[i as int], #[trigger] ps[r@[k] as int]),
                    ps == posts@,
                    i < ps.len(),
                    *p == ps[i as int],
                decreases pos,
            {
                pos -= 1;
                assert(before(SortOrder::Date, ps[i as int], ps[r@[pos as int] as int]));
            }
            let ghost old_r = r@;
            r.insert(pos, i);
            proof {
                lemma_insert_keeps_order(ps, old_r, r@, pos as int, i, SortOrder::Date);
                assert forall|j: int| 0 <= j < i + 1 implies (build_includes(ps[j], include_drafts, include_future, now)
                    <==> r@.contains(j as usize)) by {
                    assert(r@.contains(j as usize) <==> (old_r.contains(j as usize) || j == i));
                }
            }
        } else {
            proof {
                assert(!r@.contains(i));
            }
        }
        i += 1;
    }
    r
}

/// How many times a list of tags holds a tag.
pub open spec fn tag_count(tags: Seq<String>, t: Seq<char>) -> nat
    decreases tags.len(),
{
    if tags.len() == 0 {
        0
    } else {
        tag_count(tags.drop_last(), t) + if tags.last()@ == t { 1nat } else { 0nat }
    }
}

/// What the page of a tag lists, as positions of posts: going through the
/// posts in turn, each one once for every time it carries the tag.
pub open spec fn tagged(posts: Seq<Post>, t: Seq<char>) -> Seq<usize>
    decreases posts.len(),
{
    if posts.len() == 0 {
        Seq::empty()
    } else {
        let n = (posts.len() - 1) as usize;
        tagged(posts.drop_last(), t) + Seq::new(tag_count(posts.last().metadata.tags@, t), |_k: int| n)
    }
}

proof fn lemma_tagged_step(posts: Seq<Post>, i: int, t: Seq<char>)
    requires
        0 <= i < posts.len(),
    ensures
        tagged(posts.take(i + 1), t) == tagged(posts.take(i), t)
            + Seq::new(tag_count(posts[i].metadata.tags@, t), |_k: int| i as usize),
{
    assert(posts.take(i + 1).drop_last() =~= posts.take(i));
}

proof fn lemma_tag_count_step(tags: Seq<String>, j: int, t: Seq<char>)
    requires
        0 <= j < tags.len(),
    ensures
        tag_count(tags.take(j + 1), t) == tag_count(tags.take(j), t) + if tags[j]@ == t { 1nat } else { 0nat },
{
    assert(tags.take(j + 1).drop_last() =~= tags.take(j));
}

/// The tags that some post carries, each once.
fn distinct_tags(posts: &Vec<Post>) -> (res: Vec<String>)
    ensures
        string_views(res@).no_duplicates(),
        forall|t: Seq<char>| #[trigger] string_views(res@).contains(t) <==> tagged(posts@, t).len() > 0,
{
    let mut keys: Vec<String> = Vec::new();
    let mut i: usize = 0;
    proof {
        assert(posts@.take(0) =~= Seq::<Post>::empty());
    }
    while i < posts.len()
        invariant
            i <= posts@.len(),
            string_views(keys@).no_duplicates(),
            forall|t: Seq<char>| #[trigger] string_views(keys@).contains(t) <==> tagged(posts@.take(i as int), t).len() > 0,
        decreases posts.len() - i,
    {
        let tags = &posts[i].metadata.tags;
        let mut j: usize = 0;
        proof {
            assert(tags@.take(0) =~= Seq::<String>::empty());
        }
        while j < tags.len()
            invariant
                i < posts@.len(),
                *tags == posts@[i as int].metadata.tags,
                j <= tags@.len(),
                string_views(keys@).no_duplicates(),
                forall|t: Seq<char>| #[trigger] string_views(keys@).contains(t) <==>
                    (tagged(posts@.take(i as int), t).len() > 0 || tag_count(tags@.take(j as int), t) > 0),
            decreases tags.len() - j,
        {
            let ghost old_keys = keys@;
            let ghost x = tags@[j as int]@;
            if !crate::config::string_in(&keys, &tags[j]) {
                let k = tags[j].clone();
                keys.push(k);
                proof {
                    assert(string_views(keys@) =~= string_views(old_keys).push(x));
                }
            }
            proof {
                assert forall|t: Seq<char>| #[trigger] string_views(keys@).contains(t) <==>
                    (tagged(posts@.take(i as int), t).len() > 0 || tag_count(tags@.take(j + 1), t) > 0) by {
                    lemma_tag_count_step(tags@, j as int, t);
                    if t != x {
                        if string_views(keys@).contains(t) {
                            let a = choose|a: int| 0 <= a < string_views(keys@).len() && string_views(keys@)[a] == t;
                            if a < string_views(old_keys).len() {
                                assert(string_views(old_keys)[a] == t);
                            }
                        }
                        if string_views(old_keys).contains(t) {
                            let a = choose|a: int| 0 <= a < string_views(old_keys).len() && string_views(old_keys)[a] == t;
                            assert(string_views(keys@)[a] == t);
                        }
                    } else {
                        if string_views(old_keys).contains(t) {
                            let a = choose|a: int| 0 <= a < string_views(old_keys).len() && string_views(old_keys)[a] == t;
                            assert(string_views(keys@)[a] == t);
                        } else {
                            assert(string_views(keys@)[old_keys.len() as int] == t);
                        }
                    }
                }
            }
            j += 1;
        }
        proof {
            assert(tags@.take(tags@.len() as int) =~= tags@);
            assert forall|t: Seq<char>| #[trigger] string_views(keys@).contains(t) <==>
                tagged(posts@.take(i + 1), t).len() > 0 by {
                lemma_tagged_step(posts@, i as int, t);
            }
        }
        i += 1;
    }
    proof {
        assert(posts@.take(posts@.len() as int) =~= posts@);
    }
    keys
}

/// The positions of the posts that carry a tag, each once for every time
/// it carries it.
fn posts_tagged(posts: &Vec<Post>, tag: &String) -> (res: Vec<usize>)
    ensures
        res@ == tagged(posts@, tag@),
{
    let mut r: Vec<usize> = Vec::new();
    let mut i: usize = 0;
    proof {
        assert(posts@.take(0) =~= Seq::<Post>::empty());
    }
    while i < posts.len()
        invariant
            i <= posts@.len(),
            r@ == tagged(posts@.take(i as int), tag@),
        decreases posts.len() - i,
    {
        let tags = &posts[i].metadata.tags;
        let mut j: usize = 0;
        let ghost base = r@;
        proof {
            assert(tags@.take(0) =~= Seq::<String>::empty());
            assert(r@ =~= base + Seq::new(tag_count(tags@.take(0), tag@), |_k: int| i));
        }
        while j < tags.len()
            invariant
                i < posts@.len(),
                *tags == posts@[i as int].metadata.tags,
                j <= tags@.len(),
                base == tagged(posts@.take(i as int), tag@),
                r@ == base + Seq::new(tag_count(tags@.take(j as int), tag@), |_k: int| i),
            decreases tags.len() - j,
        {
            proof {
                lemma_tag_count_step(tags@, j as int, tag@);
            }
            if tags[j] == *tag {
                r.push(i);
                proof {
                    assert(r@ =~= base + Seq::new(tag_count(tags@.take(j + 1), tag@), |_k: int| i));
                }
            } else {
                proof {
                    assert(r@ =~= base + Seq::new(tag_count(tags@.take(j + 1), tag@), |_k: int| i));
                }
            }
            j += 1;
        }
        proof {
            assert(tags@.take(tags@.len() as int) =~= tags@);
            lemma_tagged_step(posts@, i as int, tag@);
        }
        i += 1;
    }
    proof {
        assert(posts@.take(posts@.len() as int) =~= posts@);
    }
    r
}

/// The tag pages of a build: for each tag that some post carries, once,
/// the positions of the posts that its page lists.
pub fn tag_groups(posts: &Vec<Post>) -> (res: Vec<(String, Vec<usize>)>)
    ensures
        forall|a: int, b: int| 0 <= a < b < res@.len() ==> res@[a].0@ != res@[b].0@,
        forall|a: int| 0 <= a < res@.len() ==> (#[trigger] res@[a]).1@ == tagged(posts@, res@[a].0@)
            && res@[a].1@.len() > 0,
        forall|t: Seq<char>| #[trigger] tagged(posts@, t).len() > 0
            ==> exists|a: int| 0 <= a < res@.len() && (#[trigger] res@[a]).0@ == t,
{
    let keys = distinct_tags(posts);
    let mut res: Vec<(String, Vec<usize>)> = Vec::new();
    let mut k: usize = 0;
    while k < keys.len()
        invariant
            k <= keys@.len(),
            string_views(keys@).no_duplicates(),
            forall|t: Seq<char>| #[trigger] string_views(keys@).contains(t) <==> tagged(posts@, t).len() > 0,
            res@.len() == k,
            forall|a: int| 0 <= a < k ==> (#[trigger] res@[a]).0@ == keys@[a]@
                && res@[a].1@ == tagged(posts@, keys@[a]@),
        decreases keys.len() - k,
    {
        let list = posts_tagged(posts, &keys[k]);
        let name = keys[k].clone();
        proof {
            assert(string_views(keys@)[k as int] == keys@[k as int]@);
        }
        res.push((name, list));
        k += 1;
    }
    proof {
        assert forall|a: int, b: int| 0 <= a < b < res@.len() implies res@[a].0@ != res@[b].0@ by {
            assert(string_views(keys@)[a] == keys@[a]@);
            assert(string_views(keys@)[b] == keys@[b]@);
        }
        assert forall|a: int| 0 <= a < res@.len() implies (#[trigger] res@[a]).1@ == tagged(posts@, res@[a].0@)
            && res@[a].1@.len() > 0 by {
            assert(string_views(keys@)[a] == keys@[a]@);
            assert(string_views(keys@).contains(keys@[a]@));
        }
        assert forall|t: Seq<char>| #[trigger] tagged(posts@, t).len() > 0
            implies exists|a: int| 0 <= a < res@.len() && (#[trigger] res@[a]).0@ == t by {
            assert(string_views(keys@).contains(t));
            let a = choose|a: int| 0 <= a < string_views(keys@).len() && string_views(keys@)[a] == t;
            assert(res@[a].0@ == t);
        }
    }
    res
}

/// Whether a text is four ASCII digits.
pub open spec fn four_digits(s: Seq<char>) -> bool {
    s.len() == 4 && forall|k: int| 0 <= k < 4 ==> '0' <= #[trigger] s[k] && s[k] <= '9'
}

/// The value of the digit at `k`.
pub open spec fn digit_at(s: Seq<char>, k: int) -> int {
    s[k] as int - '0' as int
}

/// The archive year of a date's `%Y` text: the year when it is four
/// digits, 2024 for any other (a year before 0 or after 9999, which the
/// archive cannot read back, or a date chrono cannot hold).
pub open spec fn archive_year_of(y: Option<Seq<char>>) -> i32 {
    match y {
        Some(s) => if four_digits(s) {
            (digit_at(s, 0) * 1000 + digit_at(s, 1) * 100 + digit_at(s, 2) * 10 + digit_at(s, 3)) as i32
        } else {
            2024
        },
        None => 2024,
    }
}

/// The year under which the archive lists a post.
pub open spec fn post_year(p: Post) -> i32 {
    archive_year_of(time_text(p.metadata.date, "%Y"@))
}

/// The year under which the archive lists a post.
pub fn post_archive_year(post: &Post) -> (res: i32)
    ensures
        res == post_year(*post),
{
    match format_time(post.metadata.date, "%Y") {
        Some(text) => {
            let v = chars_of(text.as_str());
            if v.len() == 4 && '0' <= v[0] && v[0] <= '9' && '0' <= v[1] && v[1] <= '9'
                && '0' <= v[2] && v[2] <= '9' && '0' <= v[3] && v[3] <= '9' {
                let d0 = (v[0] as u32 - '0' as u32) as i32;
                let d1 = (v[1] as u32 - '0' as u32) as i32;
                let d2 = (v[2] as u32 - '0' as u32) as i32;
                let d3 = (v[3] as u32 - '0' as u32) as i32;
                proof {
                    assert(four_digits(v@));
                }
                d0 * 1000 + d1 * 100 + d2 * 10 + d3
            } else {
                proof {
                    if four_digits(v@) {
                        assert('0' <= v@[0] <= '9');
                        assert('0' <= v@[1] <= '9');
                        assert('0' <= v@[2] <= '9');
                        assert('0' <= v@[3] <= '9');
                    }
                }
                2024
            }
        },
        None => 2024,
    }
}

/// The positions of the posts that the archive lists under a year, in
/// turn.
pub open spec fn posts_of_year(posts: Seq<Post>, y: i32) -> Seq<usize>
    decreases posts.len(),
{
    if posts.len() == 0 {
        Seq::empty()
    } else {
        let n = (posts.len() - 1) as usize;
        posts_of_year(posts.drop_last(), y) + if post_year(posts.last()) == y { seq![n] } else { Seq::empty() }
    }
}

proof fn lemma_posts_of_year_step(posts: Seq<Post>, i: int, y: i32)
    requires
        0 <= i < posts.len(),
    ensures
        posts_of_year(posts.take(i + 1), y) == posts_of_year(posts.take(i), y)
            + if post_year(posts[i]) == y { seq![i as usize] } else { Seq::empty() },
{
    assert(posts.take(i + 1).drop_last() =~= posts.take(i));
}

/// The archive of a build: for each year under which some post falls,
/// once, the positions of its posts.
pub fn archive_groups(posts: &Vec<Post>) -> (res: Vec<(i32, Vec<usize>)>)
    ensures
        forall|a: int, b: int| 0 <= a < b < res@.len() ==> res@[a].0 != res@[b].0,
        forall|a: int| 0 <= a < res@.len() ==> (#[trigger] res@[a]).1@ == posts_of_year(posts@, res@[a].0)
            && res@[a].1@.len() > 0,
        forall|y: i32| #[trigger] posts_of_year(posts@, y).len() > 0
            ==> exists|a: int| 0 <= a < res@.len() && (#[trigger] res@[a]).0 == y,
{
    let mut ys: Vec<i32> = Vec::new();
    let mut years: Vec<i32> = Vec::new();
    let mut i: usize = 0;
    proof {
        assert(posts@.take(0) =~= Seq::<Post>::empty());
    }
    while i < posts.len()
        invariant
            i <= posts@.len(),
            ys@.len() == i,
            forall|k: int| 0 <= k < i ==> ys@[k] == post_year(#[trigger] posts@[k]),
            years@.no_duplicates(),
            forall|y: i32| #[trigger] years@.contains(y) <==> posts_of_year(posts@.take(i as int), y).len() > 0,
        decreases posts.len() - i,
    {
        let y = post_archive_year(&posts[i]);
        ys.push(y);
        let ghost old_years = years@;
        let mut k: usize = 0;
        let mut found = false;
        while k < years.len()
            invariant
                k <= years@.len(),
                found ==> years@.contains(y),
                !found ==> forall|m: int| 0 <= m < k ==> years@[m] != y,
            decreases years.len() - k,
        {
            if years[k] == y {
                found = true;
            }
            k += 1;
        }
        if !found {
            years.push(y);
        }
        proof {
            assert forall|z: i32| #[trigger] years@.contains(z) <==> posts_of_year(posts@.take(i + 1), z).len() > 0 by {
                lemma_posts_of_year_step(posts@, i as int, z);
                if z != y && years@.contains(z) {
                    let a = choose|a: int| 0 <= a < years@.len() && years@[a] == z;
                    assert(old_years[a] == z);
                }
                if old_years.contains(z) {
                    let a = choose|a: int| 0 <= a < old_years.len() && old_years[a] == z;
                    assert(years@[a] == z);
                }
                if z == y && !found {
                    assert(years@[old_years.len() as int] == z);
                }
            }
        }
        i += 1;
    }
    proof {
        assert(posts@.take(posts@.len() as int) =~= posts@);
    }
    let mut res: Vec<(i32, Vec<usize>)> = Vec::new();
    let mut k: usize = 0;
    while k < years.len()
        invariant
            k <= years@.len(),
            ys@.len() == posts@.len(),
            forall|m: int| 0 <= m < posts@.len() ==> ys@[m] == post_year(#[trigger] posts@[m]),
            years@.no_duplicates(),
            forall|y: i32| #[trigger] years@.contains(y) <==> posts_of_year(posts@, y).len() > 0,
            res@.len() == k,
            forall|a: int| 0 <= a < k ==> (#[trigger] res@[a]).0 == years@[a]
                && res@[a].1@ == posts_of_year(posts@, years@[a]),
        decreases years.len() - k,
    {
        let y = years[k];
        let mut list: Vec<usize> = Vec::new();
        let mut j: usize = 0;
        proof {
            assert(posts@.take(0) =~= Seq::<Post>::empty());
        }
        while j < posts.len()
            invariant
                j <= posts@.len(),
                ys@.len() == posts@.len(),
                forall|m: int| 0 <= m < posts@.len() ==> ys@[m] == post_year(#[trigger] posts@[m]),
                list@ == posts_of_year(posts@.take(j as int), y),
            decreases posts.len() - j,
        {
            proof {
                lemma_posts_of_year_step(posts@, j as int, y);
            }
            if ys[j] == y {
                list.push(j);
            } else {
                assert(list@ =~= list@ + Seq::<usize>::empty());
            }
            j += 1;
        }
        proof {
            assert(posts@.take(posts@.len() as int) =~= posts@);
            assert(years@.contains(y));
        }
        res.push((y, list));
        k += 1;
    }
    proof {
        assert forall|y: i32| #[trigger] posts_of_year(posts@, y).len() > 0
            implies exists|a: int| 0 <= a < res@.len() && (#[trigger] res@[a]).0 == y by {
            assert(years@.contains(y));
            let a = choose|a: int| 0 <= a < years@.len() && years@[a] == y;
            assert(res@[a].0 == y);
        }
        assert forall|a: int| 0 <= a < res@.len() implies (#[trigger] res@[a]).1@ == posts_of_year(posts@, res@[a].0)
            && res@[a].1@.len() > 0 by {
            assert(years@.contains(years@[a]));
        }
    }
    res
}

/// What a YAML text holds under a key of its top-level mapping, when that
/// is a string; `None` when the text is not YAML, has no such key, or
/// holds something else there.
pub uninterp spec fn yaml_str_field(text: Seq<char>, key: Seq<char>) -> Option<Seq<char>>;

/// Reads a string field of a YAML mapping with `serde_yaml` (`from_str`
/// into a `Value`, then `get` and `as_str`). The result is named
/// `yaml_str_field`; YAML's grammar is not restated.
#[verifier::external_body]
fn yaml_string_field(text: &str, key: &str) -> (res: Option<String>)
    ensures
        match res {
            Some(s) => yaml_str_field(text@, key@) == Some(s@),
            None => yaml_str_field(text@, key@) is None,
        },
{
    match serde_yaml::from_str::<serde_yaml::Value>(text) {
        Ok(v) => match v.get(key) {
            Some(x) => match x.as_str() {
                Some(s) => Some(s.to_string()),
                None => None,
            },
            None => None,
        },
        Err(_) => None,
    }
}

/// The texts of a personal site's page.
pub struct PersonalPage {
    pub blog_title: String,
    pub blog_description: String,
    pub author: String,
    pub base_url: String,
    pub language: String,
}

/// The page's texts: the title and description that `content.md` sets,
/// where it sets them, else the configured ones; the author, the
/// effective base URL and the language (`en` when not set).
pub open spec fn personal_page_is(c: Config, title: Option<Seq<char>>, description: Option<Seq<char>>, r: PersonalPage) -> bool {
    &&& r.blog_title@ == match title { Some(t) => t, None => c.blog.title@ }
    &&& r.blog_description@ == match description { Some(d) => d, None => c.blog.description@ }
    &&& r.author@ == c.blog.author@
    &&& r.base_url@ == effective_url(c)
    &&& r.language@ == language_of(c)
}

fn text_of(s: &str) -> (res: String)
    ensures
        res@ == s@,
{
    let mut out = String::new();
    push_str(&mut out, s);
    out
}

/// The texts of a personal site's page, given the title and description
/// that the front matter of `content.md` sets, if any.
pub fn personal_page_with(config: &Config, title: Option<String>, description: Option<String>) -> (res: PersonalPage)
    ensures
        personal_page_is(*config, opt_view(title), opt_view(description), res),
{
    let blog_title = match title {
        Some(t) => t,
        None => config.blog.title.clone(),
    };
    let blog_description = match description {
        Some(d) => d,
        None => config.blog.description.clone(),
    };
    let language = match &config.blog.language {
        Some(l) => l.clone(),
        None => text_of("en"),
    };
    PersonalPage {
        blog_title,
        blog_description,
        author: config.blog.author.clone(),
        base_url: config.get_effective_base_url(),
        language,
    }
}

/// The texts of a personal site's page; `content_md` is the text of
/// `content.md`, when there is one. A front matter that does not read, or
/// that sets no string title or description, changes nothing.
pub fn personal_page(config: &Config, content_md: &Option<String>) -> (res: PersonalPage)
    ensures
        match content_md {
            None => personal_page_is(*config, None, None, res),
            Some(m) => exists|r: Result<(Seq<char>, Seq<char>), FrontmatterError>| #[trigger] frontmatter_of(m@, r)
                && match r {
                    Ok((f, _)) => personal_page_is(*config, yaml_str_field(f, "title"@),
                        yaml_str_field(f, "description"@), res),
                    Err(_) => personal_page_is(*config, None, None, res),
                },
        },
{
    match content_md {
        None => personal_page_with(config, None, None),
        Some(m) => match parse_frontmatter(m.as_str()) {
            Ok((front, body)) => {
                let title = yaml_string_field(front.as_str(), "title");
                let description = yaml_string_field(front.as_str(), "description");
                let res = personal_page_with(config, title, description);
                assert(frontmatter_of(m@, Ok((front@, body@))));
                res
            },
            Err(e) => {
                let res = personal_page_with(config, None, None);
                assert(frontmatter_of(m@, Err(e)));
                res
            },
        },
    }
}

/// Minutes to read a post in a page: words over 200, rounded down, at
/// least one.
pub open spec fn page_reading_minutes(content: Seq<char>) -> nat {
    let m = words(content).len() / 200;
    if m >= 1 { m } else { 1 }
}

/// Minutes to read a post in a page.
pub fn page_reading_time(content: &str) -> (res: usize)
    ensures
        res == page_reading_minutes(content@),
{
    let v = chars_of(content);
    let ws = words_vec(&v);
    proof {
        assert(crate::text::views(ws@).len() == ws@.len());
    }
    let m = ws.len() / 200;
    if m >= 1 { m } else { 1 }
}

/// Posts per page of the posts API.
pub const POSTS_PER_PAGE: usize = 10;

/// The number of pages of the posts API for `n` posts.
pub open spec fn page_count(n: nat) -> nat {
    (n + 9) / 10
}

/// The pages of the posts API for `total` posts.
pub fn total_pages(total: usize) -> (res: usize)
    ensures
        res == page_count(total as nat),
{
    total / 10 + if total % 10 == 0 { 0 } else { 1 }
}

/// The posts of a page of the posts API (counted from 1), as the range of
/// positions it takes, and whether more pages follow.
pub fn page_range(total: usize, page: usize) -> (res: (usize, usize, bool))
    requires
        1 <= page <= page_count(total as nat),
    ensures
        res.0 == (page - 1) * 10,
        res.1 == if page * 10 <= total { page * 10 } else { total as int },
        res.2 == (page < page_count(total as nat)),
        res.0 < res.1 <= total,
{
    let start = (page - 1) * 10;
    let end = if total - start >= 10 { start + 10 } else { total };
    let pages = total_pages(total);
    (start, end, page < pages)
}

// ---------------------------------------------------------------------------
// URLs in templates
// ---------------------------------------------------------------------------

/// A path without its leading slashes (`trim_start_matches('/')`).
pub open spec fn strip_leading_slashes(s: Seq<char>) -> Seq<char>
    decreases s.len(),
{
    if s.len() > 0 && s[0] == '/' {
        strip_leading_slashes(s.skip(1))
    } else {
        s
    }
}

fn leading_slashes_end(v: &Vec<char>) -> (res: usize)
    ensures
        res <= v@.len(),
        v@.skip(res as int) == strip_leading_slashes(v@),
{
    let mut i: usize = 0;
    assert(v@.skip(0) =~= v@);
    while i < v.len() && v[i] == '/'
        invariant
            i <= v@.len(),
            strip_leading_slashes(v@.skip(i as int)) == strip_leading_slashes(v@),
        decreases v.len() - i,
    {
        assert(v@.skip(i as int).skip(1) =~= v@.skip(i + 1));
        i += 1;
    }
    i
}

fn trailing_slashes_start(v: &Vec<char>) -> (res: usize)
    ensures
        res <= v@.len(),
        v@.take(res as int) == strip_slashes(v@),
{
    let mut e: usize = v.len();
    assert(v@.take(v@.len() as int) =~= v@);
    while e > 0 && v[e - 1] == '/'
        invariant
            e <= v@.len(),
            strip_slashes(v@.take(e as int)) == strip_slashes(v@),
        decreases e,
    {
        assert(v@.take(e as int).drop_last() =~= v@.take(e - 1));
        e -= 1;
    }
    e
}

/// The URL a template gets for a path: absolute URLs as they are; for the
/// development server the path from the site root; else the path under
/// the site's URL.
pub open spec fn template_url_of(base: Seq<char>, path: Seq<char>, relative: bool) -> Seq<char> {
    if has_prefix(path, "http://"@) || has_prefix(path, "https://"@) {
        path
    } else if relative {
        "/"@ + strip_leading_slashes(path)
    } else {
        strip_slashes(base) + "/"@ + strip_leading_slashes(path)
    }
}

/// The URL a template gets for a path (its `url` and `asset_url`
/// functions), given the site's URL.
pub fn template_url(base: &str, path: &str, relative: bool) -> (res: String)
    ensures
        res@ == template_url_of(base@, path@, relative),
{
    let pv = chars_of(path);
    if starts_with(&pv, "http://") || starts_with(&pv, "https://") {
        return String::from_str(path);
    }
    let k = leading_slashes_end(&pv);
    let mut out = String::new();
    if relative {
        push_str(&mut out, "/");
    } else {
        let bv = chars_of(base);
        let e = trailing_slashes_start(&bv);
        push_chars_range(&mut out, &bv, 0, e);
        push_str(&mut out, "/");
        assert(bv@.subrange(0, e as int) =~= bv@.take(e as int));
    }
    push_chars_range(&mut out, &pv, k, pv.len());
    assert(pv@.subrange(k as int, pv@.len() as int) =~= pv@.skip(k as int));
    out
}

/// The URL of a post page under the site's URL.
pub open spec fn post_url_of(base: Seq<char>, slug: Seq<char>) -> Seq<char> {
    strip_slashes(base) + "/posts/"@ + slug + ".html"@
}

// ---------------------------------------------------------------------------
// Feeds
// ---------------------------------------------------------------------------

/// The number of posts a feed carries at most.
pub const FEED_POSTS: usize = 20;

/// How RSS writes a date.
pub open spec fn rss_date_pattern() -> Seq<char> {
    "%a, %d %b %Y %H:%M:%S %z"@
}

/// How Atom writes a date.
pub open spec fn atom_date_pattern() -> Seq<char> {
    "%Y-%m-%dT%H:%M:%S%z"@
}

/// The language of a site, `en` when not set.
pub open spec fn language_of(c: Config) -> Seq<char> {
    match c.blog.language {
        Some(l) => l@,
        None => "en"@,
    }
}

/// One item of the RSS feed.
pub open spec fn rss_item_text(title: Seq<char>, url: Seq<char>, html: Seq<char>, date: Seq<char>, author: Seq<char>) -> Seq<char> {
    "    <item>\n      <title><![CDATA["@ + title + "]]></title>\n      <link>"@ + url
        + "</link>\n      <guid>"@ + url + "</guid>\n      <description><![CDATA["@ + html
        + "]]></description>\n      <pubDate>"@ + date + "</pubDate>\n      <author>"@ + author
        + "</author>\n    </item>"@
}

/// One entry of the Atom feed.
pub open spec fn atom_entry_text(title: Seq<char>, url: Seq<char>, date: Seq<char>, summary: Seq<char>, html: Seq<char>, author: Seq<char>) -> Seq<char> {
    "  <entry>\n    <title><![CDATA["@ + title + "]]></title>\n    <link href=\""@ + url
        + "\"/>\n    <id>"@ + url + "</id>\n    <updated>"@ + date + "</updated>\n    <summary><![CDATA["@
        + summary + "]]></summary>\n    <content type=\"html\"><![CDATA["@ + html
        + "]]></content>\n    <author>\n      <name>"@ + author + "</name>\n    </author>\n  </entry>"@
}

/// The items of a feed for the first `n` posts, each made by `item` from
/// the post, its HTML and its date written with `pattern`; `None` when a
/// date cannot be written.
pub open spec fn feed_items(ps: Seq<Post>, hs: Seq<String>, n: int, pattern: Seq<char>,
    item: spec_fn(Post, Seq<char>, Seq<char>) -> Seq<char>) -> Option<Seq<Seq<char>>>
    decreases n,
{
    if n <= 0 {
        Some(Seq::empty())
    } else {
        match feed_items(ps, hs, n - 1, pattern, item) {
            None => None,
            Some(items) => match time_text(ps[n - 1].metadata.date, pattern) {
                None => None,
                Some(d) => Some(items.push(item(ps[n - 1], hs[n - 1]@, d))),
            },
        }
    }
}

/// The RSS item of a post on a site.
pub open spec fn rss_item_of(c: Config) -> spec_fn(Post, Seq<char>, Seq<char>) -> Seq<char> {
    |p: Post, html: Seq<char>, d: Seq<char>| rss_item_text(p.metadata.title@,
        post_url_of(effective_url(c), p.metadata.slug@), html, d, c.blog.author@)
}

/// The Atom entry of a post on a site.
pub open spec fn atom_entry_of(c: Config) -> spec_fn(Post, Seq<char>, Seq<char>) -> Seq<char> {
    |p: Post, html: Seq<char>, d: Seq<char>| atom_entry_text(p.metadata.title@,
        post_url_of(effective_url(c), p.metadata.slug@), d, p.metadata.description@, html, c.blog.author@)
}

/// The number of posts a feed carries.
pub open spec fn feed_len(n: nat) -> int {
    if n < 20 { n as int } else { 20 }
}

/// The RSS feed of a site around its items, built at `now`.
pub open spec fn rss_text(c: Config, items: Seq<Seq<char>>, now: Seq<char>) -> Seq<char> {
    let base = effective_url(c);
    "<?xml version=\"1.0\" encoding=\"UTF-8\"?>\n<rss version=\"2.0\" xmlns:atom=\"http://www.w3.org/2005/Atom\">\n  <channel>\n    <title><![CDATA["@
        + c.blog.title@ + "]]></title>\n    <link>"@ + base + "</link>\n    <atom:link href=\""@
        + strip_slashes(base) + "/rss.xml\" rel=\"self\" type=\"application/rss+xml\" />\n    <description><![CDATA["@
        + c.blog.description@ + "]]></description>\n    <language>"@ + language_of(c)
        + "</language>\n    <lastBuildDate>"@ + now
        + "</lastBuildDate>\n    <generator>Blogr Static Site Generator</generator>\n"@
        + join(items, "\n"@) + "\n  </channel>\n</rss>"@
}

/// The Atom feed of a site around its entries, built at `now`.
pub open spec fn atom_text(c: Config, entries: Seq<Seq<char>>, now: Seq<char>) -> Seq<char> {
    let base = effective_url(c);
    "<?xml version=\"1.0\" encoding=\"UTF-8\"?>\n<feed xmlns=\"http://www.w3.org/2005/Atom\">\n  <title><![CDATA["@
        + c.blog.title@ + "]]></title>\n  <link href=\""@ + base + "\"/>\n  <link href=\""@
        + strip_slashes(base) + "/atom.xml\" rel=\"self\"/>\n  <id>"@ + base + "</id>\n  <updated>"@ + now
        + "</updated>\n  <subtitle><![CDATA["@ + c.blog.description@
        + "]]></subtitle>\n  <generator>Blogr Static Site Generator</generator>\n"@
        + join(entries, "\n"@) + "\n</feed>"@
}

fn rss_item(title: &str, url: &str, html: &str, date: &str, author: &str) -> (res: String)
    ensures
        res@ == rss_item_text(title@, url@, html@, date@, author@),
{
    let mut out = String::new();
    push_str(&mut out, "    <item>\n      <title><![CDATA[");
    push_str(&mut out, title);
    push_str(&mut out, "]]></title>\n      <link>");
    push_str(&mut out, url);
    push_str(&mut out, "</link>\n      <guid>");
    push_str(&mut out, url);
    push_str(&mut out, "</guid>\n      <description><![CDATA[");
    push_str(&mut out, html);
    push_str(&mut out, "]]></description>\n      <pubDate>");
    push_str(&mut out, date);
    push_str(&mut out, "</pubDate>\n      <author>");
    push_str(&mut out, author);
    push_str(&mut out, "</author>\n    </item>");
    out
}

fn atom_entry(title: &str, url: &str, date: &str, summary: &str, html: &str, author: &str) -> (res: String)
    ensures
        res@ == atom_entry_text(title@, url@, date@, summary@, html@, author@),
{
    let mut out = String::new();
    push_str(&mut out, "  <entry>\n    <title><![CDATA[");
    push_str(&mut out, title);
    push_str(&mut out, "]]></title>\n    <link href=\"");
    push_str(&mut out, url);
    push_str(&mut out, "\"/>\n    <id>");
    push_str(&mut out, url);
    push_str(&mut out, "</id>\n    <updated>");
    push_str(&mut out, date);
    push_str(&mut out, "</updated>\n    <summary><![CDATA[");
    push_str(&mut out, summary);
    push_str(&mut out, "]]></summary>\n    <content type=\"html\"><![CDATA[");
    push_str(&mut out, html);
    push_str(&mut out, "]]></content>\n    <author>\n      <name>");
    push_str(&mut out, author);
    push_str(&mut out, "</name>\n    </author>\n  </entry>");
    out
}

/// The URL of a post page under the site's URL.
pub fn post_url(base: &str, slug: &str) -> (res: String)
    ensures
        res@ == post_url_of(base@, slug@),
{
    let bv = chars_of(base);
    let e = trailing_slashes_start(&bv);
    let mut out = String::new();
    push_chars_range(&mut out, &bv, 0, e);
    assert(bv@.subrange(0, e as int) =~= bv@.take(e as int));
    push_str(&mut out, "/posts/");
    push_str(&mut out, slug);
    push_str(&mut out, ".html");
    out
}

fn feed_entries(config: &Config, base: &String, posts: &Vec<Post>, html: &Vec<String>, atom: bool) -> (res: Option<Vec<String>>)
    requires
        html@.len() == posts@.len(),
        base@ == effective_url(*config),
    ensures
        match res {
            Some(v) => feed_items(posts@, html@, feed_len(posts@.len()),
                if atom { atom_date_pattern() } else { rss_date_pattern() },
                if atom { atom_entry_of(*config) } else { rss_item_of(*config) }) == Some(string_views(v@)),
            None => feed_items(posts@, html@, feed_len(posts@.len()),
                if atom { atom_date_pattern() } else { rss_date_pattern() },
                if atom { atom_entry_of(*config) } else { rss_item_of(*config) }) is None,
        },
{
    let ghost pattern = if atom { atom_date_pattern() } else { rss_date_pattern() };
    let ghost item = if atom { atom_entry_of(*config) } else { rss_item_of(*config) };
    let n: usize = if posts.len() < 20 { posts.len() } else { 20 };
    let mut out: Vec<String> = Vec::new();
    let mut i: usize = 0;
    while i < n
        invariant
            i <= n,
            n as int == feed_len(posts@.len()),
            n <= posts@.len(),
            html@.len() == posts@.len(),
            base@ == effective_url(*config),
            pattern == if atom { atom_date_pattern() } else { rss_date_pattern() },
            item == if atom { atom_entry_of(*config) } else { rss_item_of(*config) },
            feed_items(posts@, html@, i as int, pattern, item) == Some(string_views(out@)),
        decreases n - i,
    {
        let p = &posts[i];
        let d = if atom {
            format_time(p.metadata.date, "%Y-%m-%dT%H:%M:%S%z")
        } else {
            format_time(p.metadata.date, "%a, %d %b %Y %H:%M:%S %z")
        };
        let d = match d {
            Some(d) => d,
            None => {
                proof {
                    lemma_feed_items_none(posts@, html@, i as int + 1, n as int, pattern, item);
                }
                return None;
            },
        };
        let url = post_url(base.as_str(), p.metadata.slug.as_str());
        let entry = if atom {
            atom_entry(p.metadata.title.as_str(), url.as_str(), d.as_str(), p.metadata.description.as_str(),
                html[i].as_str(), config.blog.author.as_str())
        } else {
            rss_item(p.metadata.title.as_str(), url.as_str(), html[i].as_str(), d.as_str(),
                config.blog.author.as_str())
        };
        let ghost before = string_views(out@);
        out.push(entry);
        assert(string_views(out@) =~= before.push(entry@));
        i += 1;
    }
    Some(out)
}

proof fn lemma_feed_items_none(ps: Seq<Post>, hs: Seq<String>, k: int, n: int, pattern: Seq<char>,
    item: spec_fn(Post, Seq<char>, Seq<char>) -> Seq<char>)
    requires
        1 <= k <= n,
        feed_items(ps, hs, k, pattern, item) is None,
    ensures
        feed_items(ps, hs, n, pattern, item) is None,
    decreases n - k,
{
    if k < n {
        lemma_feed_items_none(ps, hs, k + 1, n, pattern, item);
    }
}

/// Whether each post's Markdown renders, in order, to the HTML given.
pub open spec fn rendered_all(posts: Seq<Post>, html: Seq<String>) -> bool {
    &&& html.len() == posts.len()
    &&& forall|i: int| 0 <= i < html.len() ==> markdown_html(posts[i].content@) == Some(#[trigger] html[i]@)
}

/// The HTML of each post's Markdown, in order: what the feeds carry.
/// `None` when a post's code cannot be highlighted.
pub fn feed_html(posts: &Vec<Post>) -> (res: Option<Vec<String>>)
    ensures
        match res {
            Some(v) => rendered_all(posts@, v@),
            None => exists|i: int| 0 <= i < posts@.len() && #[trigger] markdown_html(posts@[i].content@) is None,
        },
{
    let mut out: Vec<String> = Vec::new();
    let mut i: usize = 0;
    while i < posts.len()
        invariant
            i <= posts@.len(),
            out@.len() == i,
            forall|j: int| 0 <= j < i ==> markdown_html(posts@[j].content@) == Some(#[trigger] out@[j]@),
        decreases posts.len() - i,
    {
        match render_markdown(posts[i].content.as_str()) {
            Some(h) => out.push(h),
            None => {
                assert(markdown_html(posts@[i as int].content@) is None);
                return None;
            },
        }
        i += 1;
    }
    Some(out)
}

/// The RSS feed of a site for its posts (newest first), given each post's
/// HTML, built at `now`: the first twenty posts. `None` when a date
/// cannot be written.
pub fn generate_rss_feed(config: &Config, posts: &Vec<Post>, html: &Vec<String>, now: Timestamp) -> (res: Option<String>)
    requires
        html@.len() == posts@.len(),
    ensures
        match res {
            Some(t) => exists|items: Seq<Seq<char>>, d: Seq<char>|
                feed_items(posts@, html@, feed_len(posts@.len()), rss_date_pattern(), rss_item_of(*config)) == Some(items)
                && time_text(now, rss_date_pattern()) == Some(d)
                && #[trigger] rss_text(*config, items, d) == t@,
            None => feed_items(posts@, html@, feed_len(posts@.len()), rss_date_pattern(), rss_item_of(*config)) is None
                || time_text(now, rss_date_pattern()) is None,
        },
{
    let base = config.get_effective_base_url();
    let items = match feed_entries(config, &base, posts, html, false) {
        Some(v) => v,
        None => return None,
    };
    let built = match format_time(now, "%a, %d %b %Y %H:%M:%S %z") {
        Some(d) => d,
        None => return None,
    };
    let joined = join_strings(&items, "\n");
    let bv = chars_of(base.as_str());
    let e = trailing_slashes_start(&bv);
    let mut out = String::new();
    push_str(&mut out, "<?xml version=\"1.0\" encoding=\"UTF-8\"?>\n<rss version=\"2.0\" xmlns:atom=\"http://www.w3.org/2005/Atom\">\n  <channel>\n    <title><![CDATA[");
    push_str(&mut out, config.blog.title.as_str());
    push_str(&mut out, "]]></title>\n    <link>");
    push_str(&mut out, base.as_str());
    push_str(&mut out, "</link>\n    <atom:link href=\"");
    push_chars_range(&mut out, &bv, 0, e);
    assert(bv@.subrange(0, e as int) =~= bv@.take(e as int));
    push_str(&mut out, "/rss.xml\" rel=\"self\" type=\"application/rss+xml\" />\n    <description><![CDATA[");
    push_str(&mut out, config.blog.description.as_str());
    push_str(&mut out, "]]></description>\n    <language>");
    match &config.blog.language {
        Some(l) => push_str(&mut out, l.as_str()),
        None => push_str(&mut out, "en"),
    }
    push_str(&mut out, "</language>\n    <lastBuildDate>");
    push_str(&mut out, built.as_str());
    push_str(&mut out, "</lastBuildDate>\n    <generator>Blogr Static Site Generator</generator>\n");
    push_str(&mut out, joined.as_str());
    push_str(&mut out, "\n  </channel>\n</rss>");
    assert(rss_text(*config, string_views(items@), built@) == out@);
    Some(out)
}

/// The Atom feed of a site for its posts (newest first), given each
/// post's HTML, built at `now`: the first twenty posts. `None` when a date
/// cannot be written.
pub fn generate_atom_feed(config: &Config, posts: &Vec<Post>, html: &Vec<String>, now: Timestamp) -> (res: Option<String>)
    requires
        html@.len() == posts@.len(),
    ensures
        match res {
            Some(t) => exists|items: Seq<Seq<char>>, d: Seq<char>|
                feed_items(posts@, html@, feed_len(posts@.len()), atom_date_pattern(), atom_entry_of(*config)) == Some(items)
                && time_text(now, atom_date_pattern()) == Some(d)
                && #[trigger] atom_text(*config, items, d) == t@,
            None => feed_items(posts@, html@, feed_len(posts@.len()), atom_date_pattern(), atom_entry_of(*config)) is None
                || time_text(now, atom_date_pattern()) is None,
        },
{
    let base = config.get_effective_base_url();
    let entries = match feed_entries(config, &base, posts, html, true) {
        Some(v) => v,
        None => return None,
    };
    let built = match format_time(now, "%Y-%m-%dT%H:%M:%S%z") {
        Some(d) => d,
        None => return None,
    };
    let joined = join_strings(&entries, "\n");
    let bv = chars_of(base.as_str());
    let e = trailing_slashes_start(&bv);
    let mut out = String::new();
    push_str(&mut out, "<?xml version=\"1.0\" encoding=\"UTF-8\"?>\n<feed xmlns=\"http://www.w3.org/2005/Atom\">\n  <title><![CDATA[");
    push_str(&mut out, config.blog.title.as_str());
    push_str(&mut out, "]]></title>\n  <link href=\"");
    push_str(&mut out, base.as_str());
    push_str(&mut out, "\"/>\n  <link href=\"");
    push_chars_range(&mut out, &bv, 0, e);
    assert(bv@.subrange(0, e as int) =~= bv@.take(e as int));
    push_str(&mut out, "/atom.xml\" rel=\"self\"/>\n  <id>");
    push_str(&mut out, base.as_str());
    push_str(&mut out, "</id>\n  <updated>");
    push_str(&mut out, built.as_str());
    push_str(&mut out, "</updated>\n  <subtitle><![CDATA[");
    push_str(&mut out, config.blog.description.as_str());
    push_str(&mut out, "]]></subtitle>\n  <generator>Blogr Static Site Generator</generator>\n");
    push_str(&mut out, joined.as_str());
    push_str(&mut out, "\n</feed>");
    assert(atom_text(*config, string_views(entries@), built@) == out@);
    Some(out)
}

} // verus!
