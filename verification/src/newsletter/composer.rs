//! A composed newsletter issue.
use vstd::prelude::*;
use crate::time::{now, Timestamp};
use crate::config::Config;
use crate::text::{chars_of, dec, push_chars_range, push_dec, push_str};
use crate::utils::{utf8_len, utf8_len_exceeds};
use crate::generator::search_index::{byte_boundary, is_byte_boundary, lemma_boundary_unique};

verus! {

/// A newsletter ready to be sent.
pub struct Newsletter {
    pub subject: String,
    pub html_content: String,
    pub text_content: String,
    pub created_at: Timestamp,
    pub unsubscribe_token: Option<String>,
}

impl Newsletter {
    /// A newsletter created now, without an unsubscribe token.
    pub fn new(subject: String, html_content: String, text_content: String) -> (res: Newsletter)
        ensures
            res.subject == subject,
            res.html_content == html_content,
            res.text_content == text_content,
            res.unsubscribe_token is None,
    {
        Newsletter { subject, html_content, text_content, created_at: now(), unsubscribe_token: None }
    }

    /// The same newsletter carrying an unsubscribe token.
    pub fn with_unsubscribe_token(self, token: String) -> (res: Newsletter)
        ensures
            res.subject == self.subject,
            res.html_content == self.html_content,
            res.text_content == self.text_content,
            res.created_at == self.created_at,
            res.unsubscribe_token == Some(token),
    {
        let mut n = self;
        n.unsubscribe_token = Some(token);
        n
    }
}

/// The newsletter's name: the configured sender name, else the blog
/// title.
pub open spec fn newsletter_title_of(c: Config) -> Seq<char> {
    match c.newsletter.sender_name {
        Some(n) => n@,
        None => c.blog.title@,
    }
}

/// The newsletter's name.
pub fn get_newsletter_title(config: &Config) -> (res: String)
    ensures
        res@ == newsletter_title_of(*config),
{
    match &config.newsletter.sender_name {
        Some(n) => n.clone(),
        None => config.blog.title.clone(),
    }
}

/// The unsubscribe link of an issue: a mail to the subscription address
/// (or `unsubscribe@example.com`) quoting the token.
pub open spec fn unsubscribe_url_of(c: Config, token: Seq<char>) -> Seq<char> {
    "mailto:"@ + match c.newsletter.subscribe_email {
        Some(e) => e@,
        None => "unsubscribe@example.com"@,
    } + "?subject=Unsubscribe&body=Please unsubscribe me from the newsletter. Token: "@ + token
}

/// The unsubscribe link of an issue.
pub fn generate_unsubscribe_url(config: &Config, token: &str) -> (res: String)
    ensures
        res@ == unsubscribe_url_of(*config, token@),
{
    let mut out = String::new();
    push_str(&mut out, "mailto:");
    match &config.newsletter.subscribe_email {
        Some(e) => push_str(&mut out, e.as_str()),
        None => push_str(&mut out, "unsubscribe@example.com"),
    }
    push_str(&mut out, "?subject=Unsubscribe&body=Please unsubscribe me from the newsletter. Token: ");
    push_str(&mut out, token);
    out
}

/// The subject of an issue made from a post: the newsletter's name and
/// the post's title.
pub fn post_subject(config: &Config, post_title: &str) -> (res: String)
    ensures
        res@ == newsletter_title_of(*config) + ": "@ + post_title@,
{
    let mut out = get_newsletter_title(config);
    push_str(&mut out, ": ");
    push_str(&mut out, post_title);
    out
}

/// The HTML shown in a terminal preview: up to 500 bytes, else its first
/// 500 bytes and a note of its length in bytes.
pub open spec fn html_preview_of(html: Seq<char>) -> Seq<char> {
    if utf8_len(html) > 500 {
        html.take(choose|k: int| is_byte_boundary(html, k, 500)) + "...\n\n[HTML content truncated - "@
            + dec(utf8_len(html)) + " total characters]"@
    } else {
        html
    }
}

fn utf8_len_of(v: &Vec<char>) -> (res: usize)
    requires
        utf8_len(v@) <= usize::MAX,
    ensures
        res == utf8_len(v@),
{
    let mut total: usize = 0;
    let mut i: usize = 0;
    assert(v@.take(0) =~= Seq::<char>::empty());
    while i < v.len()
        invariant
            i <= v@.len(),
            total == utf8_len(v@.take(i as int)),
            utf8_len(v@) <= usize::MAX,
        decreases v.len() - i,
    {
        proof {
            assert(v@.take(i + 1).drop_last() =~= v@.take(i as int));
            crate::utils::lemma_utf8_len_prefix(v@, i + 1);
        }
        let c = v[i];
        let b: usize = if c <= '\u{7f}' { 1 } else if c <= '\u{7ff}' { 2 } else if c <= '\u{ffff}' { 3 } else { 4 };
        total = total + b;
        i += 1;
    }
    assert(v@.take(v@.len() as int) =~= v@);
    total
}

/// The HTML shown in a terminal preview. HTML over 500 bytes whose 500th
/// byte does not end a character cannot be cut there.
pub fn html_preview(html: &str) -> (res: String)
    requires
        utf8_len(html@) > 500 ==> exists|k: int| is_byte_boundary(html@, k, 500),
        utf8_len(html@) <= usize::MAX,
    ensures
        res@ == html_preview_of(html@),
{
    let v = chars_of(html);
    if !utf8_len_exceeds(&v, 500) {
        return String::from_str(html);
    }
    let n = utf8_len_of(&v);
    match byte_boundary(&v, 500) {
        Some(k) => {
            proof {
                let kk = choose|k: int| is_byte_boundary(html@, k, 500);
                lemma_boundary_unique(html@, k as int, kk, 500);
            }
            let mut out = String::new();
            push_chars_range(&mut out, &v, 0, k);
            assert(v@.subrange(0, k as int) =~= html@.take(k as int));
            push_str(&mut out, "...\n\n[HTML content truncated - ");
            push_dec(&mut out, n as u128);
            push_str(&mut out, " total characters]");
            out
        },
        None => {
            proof {
                let kk = choose|k: int| is_byte_boundary(html@, k, 500);
                assert(is_byte_boundary(v@, kk, 500));
            }
            String::new()
        },
    }
}

} // verus!
