//! Derivation of an article's summary from its content.

use vstd::prelude::*;
use vstd::string::StrSliceExecFns;
use vstd::string::StringExecFns;

verus! {

/// The greatest number of characters a derived summary holds.
pub const SUMMARY_LIMIT: usize = 255;

/// The summary derived from `content`: its first 255 characters, or all of
/// it where it is shorter. No word boundary is looked for.
pub open spec fn summary_of(content: Seq<char>) -> Seq<char> {
    if content.len() <= 255 {
        content
    } else {
        content.subrange(0, 255)
    }
}

/// The summary that is stored for an article: the one supplied, or the one
/// derived from the content where none was supplied.
pub open spec fn stored_summary_of(summary: Seq<char>, content: Seq<char>) -> Seq<char> {
    if summary.len() == 0 {
        summary_of(content)
    } else {
        summary
    }
}

/// Derives a summary by cutting `content` after 255 characters.
pub fn get_summary(content: &str) -> (summary: String)
    ensures
        summary@ == summary_of(content@),
{
    let length: usize = content.unicode_len();
    if length <= SUMMARY_LIMIT {
        String::from_str(content)
    } else {
        String::from_str(content.substring_char(0, SUMMARY_LIMIT))
    }
}

/// The summary to store for an article with the given fields.
pub fn stored_summary(summary: &str, content: &str) -> (stored: String)
    ensures
        stored@ == stored_summary_of(summary@, content@),
{
    if summary.is_empty() {
        get_summary(content)
    } else {
        String::from_str(summary)
    }
}

/// A derived summary is a prefix of the content, holds at most 255
/// characters, and is empty only where the content is.
pub proof fn lemma_summary_is_bounded_prefix(content: Seq<char>)
    ensures
        summary_of(content).len() <= 255,
        summary_of(content).len() == if content.len() <= 255 { content.len() } else { 255 },
        summary_of(content).is_prefix_of(content),
        summary_of(content).len() == 0 <==> content.len() == 0,
{
}

/// A stored summary is empty only where neither a summary nor any content
/// was supplied.
pub proof fn lemma_stored_summary_nonempty(summary: Seq<char>, content: Seq<char>)
    requires
        summary.len() > 0 || content.len() > 0,
    ensures
        stored_summary_of(summary, content).len() > 0,
{
}

} // verus!
