//! Posts: their front matter and body.
use vstd::prelude::*;
use crate::time::Timestamp;
use crate::text::str_eq;

verus! {

/// Whether a post is published.
#[derive(Clone, Copy, PartialEq, Eq, Structural, Debug)]
pub enum PostStatus {
    Draft,
    Published,
}

/// The status a post's front matter gives it: `draft` makes a draft; any
/// other value, or none, a published post.
pub open spec fn status_written(s: Option<Seq<char>>) -> PostStatus {
    if s == Some("draft"@) {
        PostStatus::Draft
    } else {
        PostStatus::Published
    }
}

impl PostStatus {
    /// The status a post's front matter gives it.
    pub fn from_front_matter(s: Option<&str>) -> (res: PostStatus)
        ensures
            res == status_written(match s { Some(t) => Some(t@), None => None }),
    {
        match s {
            Some(t) => if str_eq(t, "draft") { PostStatus::Draft } else { PostStatus::Published },
            None => PostStatus::Published,
        }
    }
}

/// The front matter of a post.
pub struct PostMetadata {
    pub title: String,
    pub date: Timestamp,
    pub author: String,
    pub description: String,
    pub tags: Vec<String>,
    pub status: PostStatus,
    pub slug: String,
    pub featured: bool,
}

/// A post: front matter, Markdown body and the file it was read from.
pub struct Post {
    pub metadata: PostMetadata,
    pub content: String,
    pub file_path: String,
}

} // verus!
