//! The search index: which posts go in, and the document for each.
use vstd::prelude::*;
use crate::config::SearchConfig;
use crate::content::{Post, PostStatus};
use crate::generator::markdown::{excerpt_of_text, md_events, plain_text, word_excerpt, markdown_to_text};
use crate::text::{
    alpha, char_is_alphabetic, chars_of, contains_str, join, lowercase, occurs, push_str,
    string_of, string_of_range, to_lowercase, views, words, words_vec,
};
use crate::time::{format_time, time_text};
use crate::utils::{char_utf8_len, last_index, string_views, utf8_len};

verus! {

/// A post as the search index holds it.
pub struct SearchDocument {
    /// Unique identifier (post slug)
    pub id: String,
    /// URL path relative to site root
    pub url: String,
    /// Post title
    pub title: String,
    /// Post tags
    pub tags: Vec<String>,
    /// Post date as `YYYY-MM-DD`
    pub date: String,
    /// Post description
    pub description: String,
    /// Plain text content (truncated if needed)
    pub content: String,
    /// Pre-built excerpt for search results
    pub excerpt: String,
}

/// Builds search documents.
pub struct SearchIndexer {
    pub config: SearchConfig,
}

/// Common English words left out of the index when asked.
pub open spec fn stopwords() -> Seq<Seq<char>> {
    seq![
        "a"@, "an"@, "and"@, "are"@, "as"@, "at"@, "be"@, "by"@, "for"@, "from"@, "has"@, "he"@,
        "in"@, "is"@, "it"@, "its"@, "of"@, "on"@, "that"@, "the"@, "to"@, "was"@, "will"@,
        "with"@, "but"@, "or"@, "not"@, "this"@, "these"@, "those"@, "they"@, "their"@, "them"@,
        "we"@, "our"@, "us"@, "you"@, "your"@, "i"@, "me"@, "my"@, "mine"@, "have"@, "had"@,
        "do"@, "does"@, "did"@, "can"@, "could"@, "should"@, "would"@, "may"@, "might"@,
        "must"@, "shall"@, "will"@, "am"@, "is"@, "are"@, "was"@, "were"@, "been"@, "being"@,
        "get"@, "got"@,
    ]
}

/// `s` without leading characters that are not alphabetic.
pub open spec fn strip_front(s: Seq<char>) -> Seq<char>
    decreases s.len(),
{
    if s.len() > 0 && !alpha(s[0]) {
        strip_front(s.drop_first())
    } else {
        s
    }
}

/// `s` without trailing characters that are not alphabetic.
pub open spec fn strip_back(s: Seq<char>) -> Seq<char>
    decreases s.len(),
{
    if s.len() > 0 && !alpha(s.last()) {
        strip_back(s.drop_last())
    } else {
        s
    }
}

/// A word as compared with the stopwords: lower-cased, without
/// non-alphabetic characters at either end.
pub open spec fn cleaned(w: Seq<char>) -> Seq<char> {
    strip_back(strip_front(lowercase(w)))
}

/// The words that are no stopwords, in order.
pub open spec fn content_words(ws: Seq<Seq<char>>) -> Seq<Seq<char>>
    decreases ws.len(),
{
    if ws.len() == 0 {
        Seq::empty()
    } else {
        let r = content_words(ws.drop_last());
        if stopwords().contains(cleaned(ws.last())) {
            r
        } else {
            r.push(ws.last())
        }
    }
}

/// A text without its stopwords, the other words joined by spaces.
pub open spec fn without_stopwords(text: Seq<char>) -> Seq<char> {
    join(content_words(words(text)), " "@)
}

fn cleaned_word(w: &Vec<char>) -> (res: Vec<char>)
    ensures
        res@ == cleaned(w@),
{
    let ws = string_of(w);
    let lower = to_lowercase(ws.as_str());
    let l = chars_of(lower.as_str());
    let mut i: usize = 0;
    assert(l@.skip(0) =~= l@);
    while i < l.len() && !char_is_alphabetic(l[i])
        invariant
            i <= l@.len(),
            strip_front(l@) == strip_front(l@.skip(i as int)),
        decreases l.len() - i,
    {
        assert(l@.skip(i as int).drop_first() =~= l@.skip(i + 1));
        i += 1;
    }
    let ghost f = l@.skip(i as int);
    assert(strip_front(f) == f);
    let mut j: usize = l.len();
    assert(f.take(f.len() as int) =~= f);
    while j > i && !char_is_alphabetic(l[j - 1])
        invariant
            i <= j <= l@.len(),
            f == l@.skip(i as int),
            strip_back(f) == strip_back(f.take(j - i)),
        decreases j,
    {
        assert(f.take(j - i).drop_last() =~= f.take(j - 1 - i));
        j -= 1;
    }
    assert(f.take(j - i) =~= l@.subrange(i as int, j as int));
    let mut out: Vec<char> = Vec::new();
    let mut k = i;
    while k < j
        invariant
            i <= k <= j <= l@.len(),
            out@ == l@.subrange(i as int, k as int),
        decreases j - k,
    {
        out.push(l[k]);
        assert(out@ =~= l@.subrange(i as int, k + 1));
        k += 1;
    }
    out
}

fn is_stopword(w: &Vec<char>) -> (res: bool)
    ensures
        res == stopwords().contains(w@),
{
    let list: Vec<&str> = vec![
        "a", "an", "and", "are", "as", "at", "be", "by", "for", "from", "has", "he", "in", "is",
        "it", "its", "of", "on", "that", "the", "to", "was", "will", "with", "but", "or", "not",
        "this", "these", "those", "they", "their", "them", "we", "our", "us", "you", "your", "i",
        "me", "my", "mine", "have", "had", "do", "does", "did", "can", "could", "should", "would",
        "may", "might", "must", "shall", "will", "am", "is", "are", "was", "were", "been", "being",
        "get", "got",
    ];
    let ghost lv = list@.map_values(|s: &str| s@);
    assert(lv =~= stopwords());
    let mut i: usize = 0;
    while i < list.len()
        invariant
            i <= list@.len(),
            lv == list@.map_values(|s: &str| s@),
            lv == stopwords(),
            forall|j: int| 0 <= j < i ==> lv[j] != w@,
        decreases list.len() - i,
    {
        if crate::text::vec_eq_str(w, list[i]) {
            assert(lv[i as int] == w@);
            return true;
        }
        i += 1;
    }
    false
}

/// Remove common English stopwords from text.
pub fn remove_stopwords(text: &str) -> (res: String)
    ensures
        res@ == without_stopwords(text@),
{
    let v = chars_of(text);
    let ws = words_vec(&v);
    let ghost wv = views(ws@);
    let mut kept: Vec<Vec<char>> = Vec::new();
    let mut i: usize = 0;
    while i < ws.len()
        invariant
            i <= ws@.len(),
            wv == views(ws@),
            views(kept@) == content_words(wv.take(i as int)),
        decreases ws.len() - i,
    {
        assert(wv.take(i + 1).drop_last() =~= wv.take(i as int));
        assert(wv.take(i + 1).last() == ws@[i as int]@);
        let c = cleaned_word(&ws[i]);
        if !is_stopword(&c) {
            let ghost before = views(kept@);
            let w = ws[i].clone();
            assert(w@ =~= ws@[i as int]@);
            kept.push(w);
            assert(views(kept@) =~= before.push(wv[i as int]));
        }
        i += 1;
    }
    assert(wv.take(ws@.len() as int) =~= wv);
    let space = chars_of(" ");
    crate::text::join_all(&kept, &space)
}

/// Whether a post goes into the index: published, and its path matches no
/// exclusion pattern.
pub open spec fn included(post: Post, exclude: Seq<Seq<char>>) -> bool {
    &&& forall|k: int| 0 <= k < exclude.len() ==> !occurs(post.file_path@, #[trigger] exclude[k])
    &&& post.metadata.status == PostStatus::Published
}

/// The first `k` characters take exactly `n` bytes.
pub open spec fn is_byte_boundary(s: Seq<char>, k: int, n: nat) -> bool {
    0 <= k <= s.len() && utf8_len(s.take(k)) == n
}

proof fn lemma_utf8_prefix_step(s: Seq<char>, k: int)
    requires
        0 <= k < s.len(),
    ensures
        utf8_len(s.take(k + 1)) == utf8_len(s.take(k)) + char_utf8_len(s[k]),
        char_utf8_len(s[k]) >= 1,
{
    assert(s.take(k + 1).drop_last() =~= s.take(k));
}

proof fn lemma_utf8_prefix_strict(s: Seq<char>, a: int, b: int)
    requires
        0 <= a < b <= s.len(),
    ensures
        utf8_len(s.take(a)) < utf8_len(s.take(b)),
    decreases b - a,
{
    lemma_utf8_prefix_step(s, b - 1);
    if a < b - 1 {
        lemma_utf8_prefix_strict(s, a, b - 1);
    }
}

/// At most one prefix of a text takes exactly `n` bytes.
pub proof fn lemma_boundary_unique(s: Seq<char>, a: int, b: int, n: nat)
    requires
        is_byte_boundary(s, a, n),
        is_byte_boundary(s, b, n),
    ensures
        a == b,
{
    if a < b {
        lemma_utf8_prefix_strict(s, a, b);
    } else if b < a {
        lemma_utf8_prefix_strict(s, b, a);
    }
}

/// The number of characters that take exactly `n` bytes, if the `n`-th
/// byte ends a character.
pub(crate) fn byte_boundary(v: &Vec<char>, n: usize) -> (res: Option<usize>)
    ensures
        match res {
            Some(k) => is_byte_boundary(v@, k as int, n as nat),
            None => forall|k: int| !is_byte_boundary(v@, k, n as nat),
        },
{
    let mut total: usize = 0;
    let mut k: usize = 0;
    assert(v@.take(0) =~= Seq::<char>::empty());
    while k < v.len() && total < n
        invariant
            k <= v@.len(),
            total == utf8_len(v@.take(k as int)),
            total <= n,
        decreases v.len() - k,
    {
        proof { lemma_utf8_prefix_step(v@, k as int); }
        let c = v[k];
        let b: usize = if c <= '\u{7f}' {
            1
        } else if c <= '\u{7ff}' {
            2
        } else if c <= '\u{ffff}' {
            3
        } else {
            4
        };
        if b > n - total {
            proof {
                assert forall|j: int| !is_byte_boundary(v@, j, n as nat) by {
                    if 0 <= j <= v@.len() {
                        if j <= k {
                            if j < k {
                                lemma_utf8_prefix_strict(v@, j, k as int);
                            }
                        } else {
                            if j > k + 1 {
                                lemma_utf8_prefix_strict(v@, k + 1, j);
                            }
                        }
                    }
                }
            }
            return None;
        }
        total = total + b;
        k += 1;
    }
    if total == n {
        Some(k)
    } else {
        proof {
            assert forall|j: int| !is_byte_boundary(v@, j, n as nat) by {
                if 0 <= j <= v@.len() && j < k {
                    lemma_utf8_prefix_strict(v@, j, k as int);
                }
            }
        }
        None
    }
}

/// The indexed content: the text when it fits in `max` bytes, else its
/// first `max` bytes cut back to the last space, with `...`.
pub open spec fn truncated_content(text: Seq<char>, max: nat) -> Seq<char> {
    if utf8_len(text) > max {
        let k = choose|k: int| is_byte_boundary(text, k, max);
        let t = text.take(k);
        let sp = last_index(t, ' ');
        if sp >= 0 {
            t.take(sp) + "..."@
        } else {
            t + "..."@
        }
    } else {
        text
    }
}

proof fn lemma_last_index(s: Seq<char>, c: char)
    ensures
        -1 <= last_index(s, c) < s.len(),
        last_index(s, c) >= 0 ==> s[last_index(s, c)] == c,
        forall|j: int| last_index(s, c) < j < s.len() ==> #[trigger] s[j] != c,
    decreases s.len(),
{
    if s.len() > 0 && s.last() != c {
        lemma_last_index(s.drop_last(), c);
        let t = s.drop_last();
        assert forall|j: int| last_index(s, c) < j < s.len() implies #[trigger] s[j] != c by {
            if j < s.len() - 1 {
                assert(s[j] == t[j]);
            }
        }
    }
}

/// What the index keeps of a text: all of it when it fits in `max` bytes;
/// else the part before the cut at `max` bytes (which falls between
/// characters), shortened to end just before the last space in that part
/// when it has one, followed by `...`. So the kept text starts the text,
/// takes at most `max` bytes before the `...`, and no space of the first
/// `max` bytes comes after its end.
pub proof fn law_truncation(text: Seq<char>, max: nat)
    requires
        can_truncate(text, max),
    ensures
        utf8_len(text) <= max ==> truncated_content(text, max) == text,
        utf8_len(text) > max ==> exists|k: int| #[trigger] is_byte_boundary(text, k, max) && {
            let r = truncated_content(text, max);
            let p = r.take(r.len() - 3);
            &&& r.len() >= 3
            &&& r.skip(r.len() - 3) == "..."@
            &&& p.len() <= k < text.len()
            &&& p == text.take(p.len() as int)
            &&& utf8_len(p) <= max
            &&& (p.len() < k ==> text[p.len() as int] == ' ')
            &&& (p.len() == k ==> forall|j: int| 0 <= j < k ==> #[trigger] text[j] != ' ')
            &&& forall|j: int| p.len() < j < k ==> #[trigger] text[j] != ' '
        },
{
    if utf8_len(text) > max {
        let k = choose|k: int| is_byte_boundary(text, k, max);
        assert(k < text.len()) by {
            if k == text.len() {
                assert(text.take(k) =~= text);
            }
        }
        let t = text.take(k);
        lemma_last_index(t, ' ');
        let sp = last_index(t, ' ');
        let r = truncated_content(text, max);
        reveal_strlit("...");
        let p = if sp >= 0 { t.take(sp) } else { t };
        assert(r == p + "..."@);
        assert(r.take(r.len() - 3) =~= p);
        assert(r.skip(r.len() - 3) =~= "..."@);
        assert(p =~= text.take(p.len() as int));
        if p.len() < k {
            lemma_utf8_prefix_strict(text, p.len() as int, k);
            assert(t[sp] == text[sp]);
        }
        assert forall|j: int| p.len() < j < k implies #[trigger] text[j] != ' ' by {
            assert(t[j] == text[j]);
        }
        if p.len() == k {
            assert forall|j: int| 0 <= j < k implies #[trigger] text[j] != ' ' by {
                assert(t[j] == text[j]);
            }
        }
        assert(is_byte_boundary(text, k, max));
    }
}

/// Whether the content of a text can be cut at `max` bytes: it fits, or
/// the cut falls between characters.
pub open spec fn can_truncate(text: Seq<char>, max: nat) -> bool {
    utf8_len(text) <= max || exists|k: int| is_byte_boundary(text, k, max)
}

/// The search document of a post, or `None` where its content would have
/// to be cut inside a character.
pub open spec fn document_of(c: SearchConfig, post: Post, res: Option<SearchDocument>) -> bool {
    let p = plain_text(md_events(post.content@));
    let t = if c.remove_stopwords { without_stopwords(p) } else { p };
    match res {
        Some(d) => {
            &&& can_truncate(t, c.max_content_chars as nat)
            &&& d.content@ == truncated_content(t, c.max_content_chars as nat)
            &&& d.id@ == post.metadata.slug@
            &&& d.url@ == "/posts/"@ + post.metadata.slug@ + ".html"@
            &&& d.title@ == post.metadata.title@
            &&& d.tags@ == post.metadata.tags@
            &&& d.description@ == post.metadata.description@
            &&& d.excerpt@ == word_excerpt(p, c.excerpt_words as nat)
            &&& d.date@ == match time_text(post.metadata.date, "%Y-%m-%d"@) { Some(s) => s, None => Seq::empty() }
        },
        None => !can_truncate(t, c.max_content_chars as nat),
    }
}

fn clone_strings(v: &Vec<String>) -> (res: Vec<String>)
    ensures
        res@ == v@,
{
    let mut out: Vec<String> = Vec::new();
    let mut i: usize = 0;
    while i < v.len()
        invariant
            i <= v@.len(),
            out@ == v@.take(i as int),
        decreases v.len() - i,
    {
        out.push(v[i].clone());
        assert(out@ =~= v@.take(i + 1));
        i += 1;
    }
    assert(v@.take(v@.len() as int) =~= v@);
    out
}

/// The positions of the posts that go into the index, in order.
pub open spec fn indexed_positions(posts: Seq<Post>, exclude: Seq<Seq<char>>) -> Seq<usize>
    decreases posts.len(),
{
    if posts.len() == 0 {
        Seq::empty()
    } else {
        let n = (posts.len() - 1) as usize;
        indexed_positions(posts.drop_last(), exclude)
            + if included(posts.last(), exclude) { seq![n] } else { Seq::empty() }
    }
}

/// The positions of a prefix of the posts begin the positions of all.
proof fn lemma_indexed_prefix(posts: Seq<Post>, n: int, exclude: Seq<Seq<char>>)
    requires
        0 <= n <= posts.len(),
    ensures
        indexed_positions(posts, exclude).take(indexed_positions(posts.take(n), exclude).len() as int)
            == indexed_positions(posts.take(n), exclude),
        indexed_positions(posts.take(n), exclude).len() <= indexed_positions(posts, exclude).len(),
    decreases posts.len() - n,
{
    if n < posts.len() {
        lemma_indexed_prefix(posts, n + 1, exclude);
        assert(posts.take(n + 1).drop_last() =~= posts.take(n));
        let a = indexed_positions(posts.take(n), exclude);
        let b = indexed_positions(posts.take(n + 1), exclude);
        let all = indexed_positions(posts, exclude);
        assert(all.take(a.len() as int) =~= b.take(a.len() as int));
        assert(b.take(a.len() as int) =~= a);
    } else {
        assert(posts.take(n) =~= posts);
        let a = indexed_positions(posts, exclude);
        assert(a.take(a.len() as int) =~= a);
    }
}

impl SearchIndexer {
    /// Create a new search indexer with the given configuration.
    pub fn new(config: SearchConfig) -> (res: SearchIndexer)
        ensures
            res.config == config,
    {
        SearchIndexer { config }
    }

    /// Check if a post should be included in the search index.
    pub fn should_include_post(&self, post: &Post) -> (res: bool)
        ensures
            res == included(*post, string_views(self.config.exclude@)),
    {
        let path = chars_of(post.file_path.as_str());
        let ghost ex = string_views(self.config.exclude@);
        let mut i: usize = 0;
        while i < self.config.exclude.len()
            invariant
                i <= self.config.exclude@.len(),
                ex == string_views(self.config.exclude@),
                path@ == post.file_path@,
                forall|k: int| 0 <= k < i ==> !occurs(post.file_path@, #[trigger] ex[k]),
            decreases self.config.exclude.len() - i,
        {
            if contains_str(&path, self.config.exclude[i].as_str()) {
                assert(ex[i as int] == self.config.exclude@[i as int]@);
                return false;
            }
            i += 1;
        }
        post.metadata.status == PostStatus::Published
    }

    /// The indexed content of a plain text: stopwords removed when the
    /// configuration asks, then cut to the configured size.
    pub fn index_content(&self, plain: &str) -> (res: Option<String>)
        ensures
            ({
                let t = if self.config.remove_stopwords { without_stopwords(plain@) } else { plain@ };
                match res {
                    Some(c) => can_truncate(t, self.config.max_content_chars as nat)
                        && c@ == truncated_content(t, self.config.max_content_chars as nat),
                    None => !can_truncate(t, self.config.max_content_chars as nat),
                }
            }),
    {
        let text = if self.config.remove_stopwords {
            remove_stopwords(plain)
        } else {
            plain.to_owned()
        };
        let tv = chars_of(text.as_str());
        let max = self.config.max_content_chars;
        if !crate::utils::utf8_len_exceeds(&tv, max) {
            return Some(text);
        }
        match byte_boundary(&tv, max) {
            None => None,
            Some(k) => {
                proof {
                    let c = choose|j: int| is_byte_boundary(tv@, j, max as nat);
                    if c != k {
                        if c < k {
                            lemma_utf8_prefix_strict(tv@, c, k as int);
                        } else {
                            lemma_utf8_prefix_strict(tv@, k as int, c);
                        }
                    }
                }
                let mut sp: usize = k;
                let mut found = false;
                while sp > 0 && !found
                    invariant
                        sp <= k <= tv@.len(),
                        !found ==> last_index(tv@.take(k as int), ' ') == last_index(tv@.take(sp as int), ' '),
                        found ==> sp < k && tv@[sp as int] == ' '
                            && last_index(tv@.take(k as int), ' ') == sp,
                    decreases sp + (if found { 0int } else { 1int }),
                {
                    if tv[sp - 1] == ' ' {
                        assert(tv@.take(sp as int).last() == ' ');
                        sp = sp - 1;
                        found = true;
                    } else {
                        assert(tv@.take(sp as int).drop_last() =~= tv@.take(sp - 1));
                        sp = sp - 1;
                    }
                }
                let mut out = if found {
                    string_of_range(&tv, 0, sp)
                } else {
                    string_of_range(&tv, 0, k)
                };
                push_str(&mut out, "...");
                proof {
                    if found {
                        assert(tv@.take(k as int).take(sp as int) =~= tv@.subrange(0, sp as int));
                    } else {
                        assert(tv@.take(0) =~= Seq::<char>::empty());
                        assert(tv@.take(k as int) =~= tv@.subrange(0, k as int));
                    }
                }
                Some(out)
            },
        }
    }

    /// Convert a post to a search document. `None` where the content would
    /// have to be cut inside a character.
    pub fn post_to_search_document(&self, post: &Post) -> (res: Option<SearchDocument>)
        ensures
            document_of(self.config, *post, res),
    {
        let plain = markdown_to_text(post.content.as_str());
        let content = match self.index_content(plain.as_str()) {
            Some(c) => c,
            None => {
                return None;
            },
        };
        let excerpt = excerpt_of_text(plain.as_str(), self.config.excerpt_words);
        let mut url = String::new();
        push_str(&mut url, "/posts/");
        push_str(&mut url, post.metadata.slug.as_str());
        push_str(&mut url, ".html");
        let date = match format_time(post.metadata.date, "%Y-%m-%d") {
            Some(d) => d,
            None => String::new(),
        };
        Some(SearchDocument {
            id: post.metadata.slug.clone(),
            url,
            title: post.metadata.title.clone(),
            tags: clone_strings(&post.metadata.tags),
            date,
            description: post.metadata.description.clone(),
            content,
            excerpt,
        })
    }

    /// The documents of the index: one for each post that goes in, in
    /// order; `None` where the content of such a post would have to be cut
    /// inside a character.
    pub fn index_documents(&self, posts: &Vec<Post>) -> (res: Option<Vec<SearchDocument>>)
        ensures
            ({
                let ps = indexed_positions(posts@, string_views(self.config.exclude@));
                match res {
                    Some(docs) => docs@.len() == ps.len() && forall|k: int| 0 <= k < ps.len()
                        ==> document_of(self.config, posts@[ps[k] as int], Some(#[trigger] docs@[k])),
                    None => exists|k: int| 0 <= k < ps.len()
                        && document_of(self.config, #[trigger] posts@[ps[k] as int], None),
                }
            }),
    {
        let ghost ex = string_views(self.config.exclude@);
        let mut docs: Vec<SearchDocument> = Vec::new();
        let mut i: usize = 0;
        proof {
            assert(posts@.take(0) =~= Seq::<Post>::empty());
        }
        while i < posts.len()
            invariant
                i <= posts@.len(),
                ex == string_views(self.config.exclude@),
                docs@.len() == indexed_positions(posts@.take(i as int), ex).len(),
                forall|k: int| 0 <= k < docs@.len() ==> #[trigger] indexed_positions(posts@.take(i as int), ex)[k] < i,
                forall|k: int| 0 <= k < docs@.len() ==> document_of(self.config,
                    posts@[indexed_positions(posts@.take(i as int), ex)[k] as int], Some(#[trigger] docs@[k])),
            decreases posts.len() - i,
        {
            let ghost before = indexed_positions(posts@.take(i as int), ex);
            proof {
                assert(posts@.take(i + 1).drop_last() =~= posts@.take(i as int));
            }
            if self.should_include_post(&posts[i]) {
                match self.post_to_search_document(&posts[i]) {
                    Some(d) => {
                        docs.push(d);
                        proof {
                            let now = indexed_positions(posts@.take(i + 1), ex);
                            assert(now == before + seq![i]);
                            assert forall|k: int| 0 <= k < docs@.len() implies #[trigger] now[k] < i + 1 by {
                                if k < before.len() {
                                    assert(now[k] == before[k]);
                                }
                            }
                            assert forall|k: int| 0 <= k < docs@.len() implies document_of(self.config,
                                posts@[now[k] as int], Some(#[trigger] docs@[k])) by {
                                if k < before.len() {
                                    assert(now[k] == before[k]);
                                }
                            }
                        }
                    },
                    None => {
                        proof {
                            lemma_indexed_prefix(posts@, (i + 1) as int, ex);
                            let all = indexed_positions(posts@, ex);
                            let k = before.len() as int;
                            let b = indexed_positions(posts@.take(i + 1), ex);
                            assert(b == before + seq![i]);
                            assert(b[k] == i);
                            assert(all.take(b.len() as int)[k] == all[k]);
                            assert(all[k] == i);
                            assert(document_of(self.config, posts@[all[k] as int], None));
                        }
                        return None;
                    },
                }
            } else {
                proof {
                    assert(indexed_positions(posts@.take(i + 1), ex) =~= before);
                }
            }
            i += 1;
        }
        proof {
            assert(posts@.take(posts@.len() as int) =~= posts@);
        }
        Some(docs)
    }
}

} // verus!
