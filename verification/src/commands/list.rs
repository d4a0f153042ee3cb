//! `blogr list`: which posts are listed, in which order, and the texts
//! around them.
use vstd::prelude::*;
use crate::content::{Post, PostStatus};
use crate::text::{chars_of, push_dec, push_str, push_chars_range, str_eq, dec};
use crate::generator::search_index::{byte_boundary, is_byte_boundary, lemma_boundary_unique};
use crate::utils::{utf8_len, utf8_len_exceeds};
use crate::time::Timestamp;
use crate::utils::string_views;

verus! {

/// The orders posts can be listed in.
#[derive(Clone, Copy, PartialEq, Eq, Structural, Debug)]
pub enum SortOrder {
    Title,
    Slug,
    Date,
    /// An order name that is not known; posts are listed by date.
    Unknown,
}

/// The order named by a text.
pub open spec fn sort_order_named(s: Seq<char>) -> SortOrder {
    if s == "title"@ {
        SortOrder::Title
    } else if s == "slug"@ {
        SortOrder::Slug
    } else if s == "date"@ {
        SortOrder::Date
    } else {
        SortOrder::Unknown
    }
}

/// The order named by a text.
pub fn sort_order_of(s: &str) -> (res: SortOrder)
    ensures
        res == sort_order_named(s@),
{
    if str_eq(s, "title") {
        SortOrder::Title
    } else if str_eq(s, "slug") {
        SortOrder::Slug
    } else if str_eq(s, "date") {
        SortOrder::Date
    } else {
        SortOrder::Unknown
    }
}

/// `a` comes before `b` character by character (the order of `String`).
pub open spec fn text_lt(a: Seq<char>, b: Seq<char>) -> bool
    decreases a.len(),
{
    if a.len() == 0 {
        b.len() > 0
    } else if b.len() == 0 {
        false
    } else if a[0] != b[0] {
        a[0] < b[0]
    } else {
        text_lt(a.skip(1), b.skip(1))
    }
}

/// `a` is later than `b`.
pub open spec fn time_gt(a: Timestamp, b: Timestamp) -> bool {
    a.secs > b.secs || (a.secs == b.secs && a.nanos > b.nanos)
}

/// Post `a` is listed before post `b` in the order.
pub open spec fn before(order: SortOrder, a: Post, b: Post) -> bool {
    match order {
        SortOrder::Title => text_lt(a.metadata.title@, b.metadata.title@),
        SortOrder::Slug => text_lt(a.metadata.slug@, b.metadata.slug@),
        _ => time_gt(a.metadata.date, b.metadata.date),
    }
}

/// Whether a post is listed: the status filter (drafts only wins over
/// published only) and the tag filter.
pub open spec fn post_listed(p: Post, drafts_only: bool, published_only: bool, tag: Option<Seq<char>>) -> bool {
    &&& (drafts_only ==> p.metadata.status == PostStatus::Draft)
    &&& (!drafts_only && published_only ==> p.metadata.status == PostStatus::Published)
    &&& match tag {
        Some(t) => string_views(p.metadata.tags@).contains(t),
        None => true,
    }
}

fn text_less(a: &String, b: &String) -> (res: bool)
    ensures
        res == text_lt(a@, b@),
{
    let av = chars_of(a.as_str());
    let bv = chars_of(b.as_str());
    let mut i: usize = 0;
    proof {
        assert(av@.skip(0) =~= av@);
        assert(bv@.skip(0) =~= bv@);
    }
    while i < av.len() && i < bv.len() && av[i] == bv[i]
        invariant
            i <= av@.len(),
            i <= bv@.len(),
            text_lt(av@, bv@) == text_lt(av@.skip(i as int), bv@.skip(i as int)),
        decreases av.len() - i,
    {
        assert(av@.skip(i as int).skip(1) =~= av@.skip(i + 1));
        assert(bv@.skip(i as int).skip(1) =~= bv@.skip(i + 1));
        i += 1;
    }
    if i == av.len() {
        i < bv.len()
    } else if i == bv.len() {
        false
    } else {
        av[i] < bv[i]
    }
}

fn is_before(order: SortOrder, a: &Post, b: &Post) -> (res: bool)
    ensures
        res == before(order, *a, *b),
{
    match order {
        SortOrder::Title => text_less(&a.metadata.title, &b.metadata.title),
        SortOrder::Slug => text_less(&a.metadata.slug, &b.metadata.slug),
        _ => a.metadata.date.secs > b.metadata.date.secs
            || (a.metadata.date.secs == b.metadata.date.secs && a.metadata.date.nanos > b.metadata.date.nanos),
    }
}

fn has_tag(p: &Post, tag: &String) -> (res: bool)
    ensures
        res == string_views(p.metadata.tags@).contains(tag@),
{
    let mut i: usize = 0;
    while i < p.metadata.tags.len()
        invariant
            i <= p.metadata.tags@.len(),
            forall|j: int| 0 <= j < i ==> p.metadata.tags@[j]@ != tag@,
        decreases p.metadata.tags.len() - i,
    {
        if p.metadata.tags[i] == *tag {
            assert(string_views(p.metadata.tags@)[i as int] == tag@);
            return true;
        }
        i += 1;
    }
    assert forall|j: int| 0 <= j < string_views(p.metadata.tags@).len()
        implies string_views(p.metadata.tags@)[j] != tag@ by {
        assert(p.metadata.tags@[j]@ != tag@);
    }
    false
}

/// The positions of posts as listed: every listed post once, in the
/// order, posts that tie keeping their places.
pub open spec fn is_listing(posts: Seq<Post>, r: Seq<usize>, order: SortOrder, drafts_only: bool, published_only: bool, tag: Option<Seq<char>>) -> bool {
    &&& r.no_duplicates()
    &&& forall|k: int| 0 <= k < r.len() ==> #[trigger] r[k] < posts.len()
    &&& forall|i: int| 0 <= i < posts.len() ==> (post_listed(posts[i], drafts_only, published_only, tag)
        <==> r.contains(i as usize))
    &&& ordered_stably(posts, r, order)
}

/// `before` orders the posts strictly and ties are an equivalence.
proof fn lemma_order_props(order: SortOrder, a: Post, b: Post, c: Post)
    ensures
        !(before(order, a, b) && before(order, b, a)),
        before(order, a, b) && before(order, b, c) ==> before(order, a, c),
        !before(order, a, b) && !before(order, b, c) ==> !before(order, a, c),
        !before(order, a, a),
{
    match order {
        SortOrder::Title => lemma_text_lt(a.metadata.title@, b.metadata.title@, c.metadata.title@),
        SortOrder::Slug => lemma_text_lt(a.metadata.slug@, b.metadata.slug@, c.metadata.slug@),
        _ => {},
    }
}

proof fn lemma_text_lt(a: Seq<char>, b: Seq<char>, c: Seq<char>)
    ensures
        !(text_lt(a, b) && text_lt(b, a)),
        text_lt(a, b) && text_lt(b, c) ==> text_lt(a, c),
        !text_lt(a, b) && !text_lt(b, c) ==> !text_lt(a, c),
        !text_lt(a, a),
    decreases a.len(),
{
    if a.len() > 0 && b.len() > 0 && c.len() > 0 {
        lemma_text_lt(a.skip(1), b.skip(1), c.skip(1));
    }
    if a.len() > 0 {
        lemma_text_lt(a.skip(1), a.skip(1), a.skip(1));
    }
    if a.len() > 0 && b.len() > 0 {
        lemma_text_lt(a.skip(1), b.skip(1), b.skip(1));
    }
}

/// The positions are in the order, ties keeping their places.
pub open spec fn ordered_stably(ps: Seq<Post>, r: Seq<usize>, order: SortOrder) -> bool {
    &&& forall|a: int, b: int| 0 <= a < b < r.len() ==> !before(order, ps[r[b] as int], ps[r[a] as int])
    &&& forall|a: int, b: int| 0 <= a < b < r.len() && !before(order, ps[r[a] as int], ps[r[b] as int])
        ==> r[a] < r[b]
}

/// Putting a new last post after every listed post that is not after it,
/// and before the others, keeps the listing ordered and stable.
pub(crate) proof fn lemma_insert_keeps_order(ps: Seq<Post>, old_r: Seq<usize>, r: Seq<usize>, pos: int, i: usize, order: SortOrder)
    requires
        0 <= pos <= old_r.len(),
        i < ps.len(),
        r == old_r.insert(pos, i),
        old_r.no_duplicates(),
        forall|k: int| 0 <= k < old_r.len() ==> #[trigger] old_r[k] < i,
        ordered_stably(ps, old_r, order),
        pos > 0 ==> !before(order, ps[i as int], ps[old_r[pos - 1] as int]),
        forall|k: int| pos <= k < old_r.len() ==> before(order, ps[i as int], #[trigger] ps[old_r[k] as int]),
    ensures
        r.no_duplicates(),
        forall|k: int| 0 <= k < r.len() ==> #[trigger] r[k] < i + 1,
        forall|j: usize| #[trigger] r.contains(j) <==> (old_r.contains(j) || j == i),
        ordered_stably(ps, r, order),
{
    old_r.insert_ensures(pos, i);
    let x = ps[i as int];
    assert forall|k: int| 0 <= k < r.len() implies #[trigger] r[k] < i + 1 by {
        if k < pos {
            assert(r[k] == old_r[k]);
        } else if k > pos {
            assert(r[k] == old_r[k - 1]);
        }
    }
    assert forall|a: int, b: int| 0 <= a < b < r.len() implies r[a] != r[b] by {
        if a < pos && b > pos {
            assert(r[b] == old_r[b - 1]);
        } else if b < pos {
        } else if a > pos {
            assert(r[a] == old_r[a - 1]);
            assert(r[b] == old_r[b - 1]);
        } else if a == pos {
            assert(r[b] == old_r[b - 1]);
        } else {
            assert(r[a] == old_r[a]);
        }
    }
    assert forall|j: usize| #[trigger] r.contains(j) <==> (old_r.contains(j) || j == i) by {
        if old_r.contains(j) {
            let k = choose|k: int| 0 <= k < old_r.len() && old_r[k] == j;
            if k < pos {
                assert(r[k] == j);
            } else {
                assert(r[k + 1] == j);
            }
        }
        if j == i {
            assert(r[pos] == i);
        }
        if r.contains(j) {
            let k = choose|k: int| 0 <= k < r.len() && r[k] == j;
            if k < pos {
                assert(old_r[k] == j);
            } else if k > pos {
                assert(old_r[k - 1] == j);
            }
        }
    }
    assert forall|a: int, b: int| 0 <= a < b < r.len()
        implies !before(order, ps[r[b] as int], ps[r[a] as int]) by {
        if a < pos && b == pos {
            let y = ps[old_r[pos - 1] as int];
            let z = ps[old_r[a] as int];
            assert(r[a] == old_r[a]);
            if a < pos - 1 {
                assert(!before(order, y, z));
            }
            lemma_order_props(order, x, y, z);
        } else if a == pos && b > pos {
            assert(r[b] == old_r[b - 1]);
            lemma_order_props(order, x, ps[old_r[b - 1] as int], x);
        } else if a < pos && b > pos {
            assert(r[a] == old_r[a]);
            assert(r[b] == old_r[b - 1]);
        } else if b < pos {
            assert(r[a] == old_r[a]);
            assert(r[b] == old_r[b]);
        } else if a > pos {
            assert(r[a] == old_r[a - 1]);
            assert(r[b] == old_r[b - 1]);
        }
    }
    assert forall|a: int, b: int| 0 <= a < b < r.len() && !before(order, ps[r[a] as int], ps[r[b] as int])
        implies r[a] < r[b] by {
        if a == pos {
            assert(r[b] == old_r[b - 1]);
        } else if b == pos {
            assert(r[a] == old_r[a]);
        } else if a < pos && b > pos {
            assert(r[a] == old_r[a]);
            assert(r[b] == old_r[b - 1]);
        } else if b < pos {
            assert(r[a] == old_r[a]);
            assert(r[b] == old_r[b]);
        } else {
            assert(r[a] == old_r[a - 1]);
            assert(r[b] == old_r[b - 1]);
        }
    }
}

/// The posts to list, as positions: filtered by status and tag, then
/// sorted stably by the order (newest first by date).
pub fn select_posts(
    posts: &Vec<Post>,
    drafts_only: bool,
    published_only: bool,
    tag_filter: &Option<String>,
    order: SortOrder,
) -> (res: Vec<usize>)
    ensures
        is_listing(posts@, res@, order, drafts_only, published_only,
            match tag_filter { Some(t) => Some(t@), None => None }),
{
    let ghost tag = match tag_filter { Some(t) => Some(t@), None => None::<Seq<char>> };
    let ghost ps = posts@;
    let mut r: Vec<usize> = Vec::new();
    let mut i: usize = 0;
    while i < posts.len()
        invariant
            i <= posts@.len(),
            ps == posts@,
            tag == match tag_filter { Some(t) => Some(t@), None => None::<Seq<char>> },
            r@.no_duplicates(),
            forall|k: int| 0 <= k < r@.len() ==> #[trigger] r@[k] < i,
            forall|j: int| 0 <= j < i ==> (post_listed(ps[j], drafts_only, published_only, tag)
                <==> r@.contains(j as usize)),
            ordered_stably(ps, r@, order),
        decreases posts.len() - i,
    {
        let p = &posts[i];
        let status_ok = if drafts_only {
            p.metadata.status == PostStatus::Draft
        } else if published_only {
            p.metadata.status == PostStatus::Published
        } else {
            true
        };
        let tag_ok = match tag_filter {
            Some(t) => has_tag(p, t),
            None => true,
        };
        if status_ok && tag_ok {
            // insert after every listed post that is not after this one
            let mut pos: usize = r.len();
            while pos > 0 && is_before(order, p, &posts[r[pos - 1]])
                invariant
                    pos <= r@.len(),
                    forall|k: int| 0 <= k < r@.len() ==> #[trigger] r@[k] < i,
                    forall|k: int| pos <= k < r@.len() ==> before(order, ps[i as int], #[trigger] ps[r@[k] as int]),
                    ps == posts@,
                    i < ps.len(),
                    *p == ps[i as int],
                decreases pos,
            {
                pos -= 1;
                assert(before(order, ps[i as int], ps[r@[pos as int] as int]));
            }
            let ghost old_r = r@;
            r.insert(pos, i);
            proof {
                lemma_insert_keeps_order(ps, old_r, r@, pos as int, i, order);
                assert forall|j: int| 0 <= j < i + 1 implies (post_listed(ps[j], drafts_only, published_only, tag)
                    <==> r@.contains(j as usize)) by {
                    assert(r@.contains(j as usize) <==> (old_r.contains(j as usize) || j == i));
                }
            }
        } else {
            proof {
                assert(!post_listed(ps[i as int], drafts_only, published_only, tag));
                assert(!r@.contains(i));
            }
        }
        i += 1;
    }
    r
}

/// What follows "No posts found" when nothing is listed: the tag filter
/// wins over drafts only, which wins over published only.
pub open spec fn empty_filter_note(drafts_only: bool, published_only: bool, tag: Option<Seq<char>>) -> Seq<char> {
    match tag {
        Some(t) => " with tag '"@ + t + "'"@,
        None => if drafts_only {
            " (drafts only)"@
        } else if published_only {
            " (published only)"@
        } else {
            Seq::empty()
        },
    }
}

/// What follows the count in the header of a listing.
pub open spec fn filter_note(drafts_only: bool, published_only: bool, tag: Option<Seq<char>>) -> Seq<char> {
    match tag {
        Some(t) => " (tagged '"@ + t + "')"@,
        None => if drafts_only {
            " (drafts)"@
        } else if published_only {
            " (published)"@
        } else {
            Seq::empty()
        },
    }
}

/// The message shown when no post is listed.
pub fn empty_list_message(drafts_only: bool, published_only: bool, tag_filter: &Option<String>) -> (res: String)
    ensures
        res@ == "No posts found"@ + empty_filter_note(drafts_only, published_only,
            match tag_filter { Some(t) => Some(t@), None => None }),
{
    let mut out = String::new();
    push_str(&mut out, "No posts found");
    match tag_filter {
        Some(t) => {
            push_str(&mut out, " with tag '");
            push_str(&mut out, t.as_str());
            push_str(&mut out, "'");
        },
        None => {
            if drafts_only {
                push_str(&mut out, " (drafts only)");
            } else if published_only {
                push_str(&mut out, " (published only)");
            }
        },
    }
    out
}

/// The header of a listing of `count` posts.
pub fn list_header(count: usize, drafts_only: bool, published_only: bool, tag_filter: &Option<String>) -> (res: String)
    ensures
        res@ == "Found "@ + dec(count as nat) + " post(s)"@ + filter_note(drafts_only, published_only,
            match tag_filter { Some(t) => Some(t@), None => None }),
{
    let mut out = String::new();
    push_str(&mut out, "Found ");
    push_dec(&mut out, count as u128);
    push_str(&mut out, " post(s)");
    match tag_filter {
        Some(t) => {
            push_str(&mut out, " (tagged '");
            push_str(&mut out, t.as_str());
            push_str(&mut out, "')");
        },
        None => {
            if drafts_only {
                push_str(&mut out, " (drafts)");
            } else if published_only {
                push_str(&mut out, " (published)");
            }
        },
    }
    out
}

/// The description as listed: a description over 80 bytes is cut to its
/// first 77 bytes and `...`.
pub open spec fn listed_description(d: Seq<char>) -> Seq<char> {
    if utf8_len(d) > 80 {
        d.take(choose|k: int| is_byte_boundary(d, k, 77)) + "..."@
    } else {
        d
    }
}

/// The description as listed. A description over 80 bytes whose 77th
/// byte does not end a character cannot be cut there.
pub fn description_text(desc: &str) -> (res: String)
    requires
        utf8_len(desc@) > 80 ==> exists|k: int| is_byte_boundary(desc@, k, 77),
    ensures
        res@ == listed_description(desc@),
{
    let v = chars_of(desc);
    if utf8_len_exceeds(&v, 80) {
        match byte_boundary(&v, 77) {
            Some(k) => {
                let ghost kk = choose|k: int| is_byte_boundary(desc@, k, 77);
                proof {
                    lemma_boundary_unique(desc@, k as int, kk, 77);
                }
                let mut out = String::new();
                push_chars_range(&mut out, &v, 0, k);
                push_str(&mut out, "...");
                proof {
                    assert(v@.subrange(0, k as int) =~= desc@.take(k as int));
                }
                out
            },
            None => {
                proof {
                    let kk = choose|k: int| is_byte_boundary(desc@, k, 77);
                    assert(is_byte_boundary(v@, kk, 77));
                }
                String::new()
            },
        }
    } else {
        String::from_str(desc)
    }
}

} // verus!
