//! Content rules that decide whether a post is worth analysing.

use vstd::prelude::*;
use crate::models::RawPost;
use crate::text::{trim, trim_str};
use vstd::string::{StrSliceExecFns, StringExecFns};

verus! {

/// Result of applying content filter rules to a post.
#[derive(Debug, PartialEq)]
pub enum FilterResult {
    Pass,
    Ignore { reason: String },
}

/// The reason a post is ignored, or `None` when it passes: a blank title is
/// "empty_title"; otherwise a title and link of fewer than `min` characters
/// together are "content_too_short".
pub open spec fn ignore_reason(title: Seq<char>, link: Seq<char>, min: nat) -> Option<Seq<char>> {
    if trim(title).len() == 0 {
        Some("empty_title"@)
    } else if title.len() + link.len() < min {
        Some("content_too_short"@)
    } else {
        None
    }
}

/// The content rules, over all titles, links and minimums: a blank title
/// is "empty_title"; a non-blank title whose length plus the link's length
/// reaches the minimum passes; a shorter one is "content_too_short", and
/// that reason is given only to a title and link shorter than the minimum.
pub proof fn lemma_content_rules(title: Seq<char>, link: Seq<char>, min: nat)
    ensures
        trim(title).len() == 0 ==> ignore_reason(title, link, min) == Some("empty_title"@),
        trim(title).len() > 0 && title.len() + link.len() >= min ==> ignore_reason(
            title,
            link,
            min,
        ) is None,
        trim(title).len() > 0 && title.len() + link.len() < min ==> ignore_reason(title, link, min)
            == Some("content_too_short"@),
        ignore_reason(title, link, min) == Some("content_too_short"@) ==> title.len()
            + link.len() < min,
{
    reveal_strlit("empty_title");
    reveal_strlit("content_too_short");
    assert("empty_title"@.len() != "content_too_short"@.len());
}

/// The verdict on a post: the reason it is ignored, `None` when it passes.
pub open spec fn verdict_of(post: RawPost, min: nat) -> Option<Seq<char>> {
    ignore_reason(post.title@, post.link@, min)
}

/// Applies the content rules.
pub struct ContentFilter;

impl ContentFilter {
    /// Apply content quality rules to a post: a blank title is ignored as
    /// "empty_title"; then a title and link shorter than
    /// `min_content_length` characters together are ignored as
    /// "content_too_short"; everything else passes.
    pub fn check(post: &RawPost, min_content_length: usize) -> (r: FilterResult)
        ensures
            match ignore_reason(post.title@, post.link@, min_content_length as nat) {
                None => r == FilterResult::Pass,
                Some(reason) => r matches FilterResult::Ignore { reason: t } && t@ == reason,
            },
    {
        if trim_str(post.title.as_str()).is_empty() {
            return FilterResult::Ignore { reason: String::from_str("empty_title") };
        }
        let title_len = post.title.as_str().unicode_len();
        let link_len = post.link.as_str().unicode_len();
        if title_len < min_content_length && link_len < min_content_length - title_len {
            return FilterResult::Ignore { reason: String::from_str("content_too_short") };
        }
        FilterResult::Pass
    }
}

} // verus!
