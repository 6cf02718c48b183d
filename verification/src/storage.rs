//! The rules that the database layer applies to what it writes and reads:
//! tag lists stored as JSON text, status labels, export rows, and the
//! errors it recognises.

use vstd::prelude::*;
use crate::models::{Binary32, ExportItem, PostStatus, RawPost, status_from_label};
use crate::text::{contains, contains_str};
use vstd::string::StringExecFns;

verus! {

/// `serde_json::Error`, the failure of JSON encoding.
#[verifier::external_type_specification]
#[verifier::external_body]
pub struct ExJsonError(serde_json::Error);

/// The JSON text that `serde_json::to_string` writes for a list of strings.
pub uninterp spec fn json_string_list_text(items: Seq<Seq<char>>) -> Seq<char>;

/// The list of strings that `serde_json::from_str` reads from `text`, if it
/// is a JSON array of strings.
pub uninterp spec fn json_string_list_value(text: Seq<char>) -> Option<Seq<Seq<char>>>;

/// `serde_json::to_string` on a list of strings.  The contract names the
/// text, and states that reading it back with `serde_json::from_str` gives
/// the same list (strings are written with every character escaped that
/// JSON requires, and read back unescaped).  It also states that the call
/// succeeds: serde_json documents failure only for a `Serialize` impl that
/// decides to fail or for a map with non-string keys, and a list of strings
/// written into memory has neither.
#[verifier::external_body]
fn encode_string_list(items: &Vec<String>) -> (r: Result<String, serde_json::Error>)
    ensures
        r is Ok,
        r matches Ok(t) ==> t@ == json_string_list_text(items.deep_view()) && json_string_list_value(t@)
            == Some(items.deep_view()),
{
    serde_json::to_string(items)
}

/// `serde_json::from_str` into a list of strings; `None` when the text is
/// not a JSON array of strings.  The contract names the result.
#[verifier::external_body]
fn decode_string_list(text: &str) -> (r: Option<Vec<String>>)
    ensures
        match r {
            Some(v) => json_string_list_value(text@) == Some(v.deep_view()),
            None => json_string_list_value(text@) is None,
        },
{
    serde_json::from_str::<Vec<String>>(text).ok()
}

/// The tags read from stored JSON text: the list when the text is a JSON
/// array of strings, no tags otherwise.
pub open spec fn stored_tags(text: Seq<char>) -> Seq<Seq<char>> {
    match json_string_list_value(text) {
        Some(v) => v,
        None => Seq::empty(),
    }
}

/// The JSON text under which a tag list is stored; encoding a list of
/// strings always succeeds.
pub fn tags_to_json(tags: &Vec<String>) -> (r: Result<String, serde_json::Error>)
    ensures
        r is Ok,
        r matches Ok(t) ==> t@ == json_string_list_text(tags.deep_view()),
        r matches Ok(t) ==> stored_tags(t@) == tags.deep_view(),
{
    encode_string_list(tags)
}

/// The tags read back from stored JSON text; text that is not a JSON array
/// of strings gives no tags.
pub fn tags_from_json(text: &str) -> (r: Vec<String>)
    ensures
        r.deep_view() == stored_tags(text@),
{
    match decode_string_list(text) {
        Some(v) => v,
        None => {
            let v: Vec<String> = Vec::new();
            assert(v.deep_view() =~= Seq::<Seq<char>>::empty());
            v
        },
    }
}

/// A post read from a stored row; the status label is read back with
/// `PostStatus::from_label`, so an unknown label reads as pending.
pub fn post_from_row(
    id: String,
    dataset_id: String,
    title: String,
    link: String,
    image_url: Option<String>,
    category_raw: Option<String>,
    post_type: Option<String>,
    status: &str,
    ignore_reason: Option<String>,
) -> (r: RawPost)
    ensures
        r.id == id,
        r.dataset_id == dataset_id,
        r.title == title,
        r.link == link,
        r.image_url == image_url,
        r.category_raw == category_raw,
        r.post_type == post_type,
        r.status == status_from_label(status@),
        r.ignore_reason == ignore_reason,
{
    RawPost {
        id,
        dataset_id,
        title,
        link,
        image_url,
        category_raw,
        post_type,
        status: PostStatus::from_label(status),
        ignore_reason,
    }
}

/// An export item from a joined post and analysis row; the tags are read
/// from their stored JSON text.
pub fn export_item_from_row(
    title: String,
    summary: String,
    tags_json: &str,
    category_ai: String,
    link: String,
    image_url: Option<String>,
    score: Binary32,
) -> (r: ExportItem)
    ensures
        r.title == title,
        r.summary == summary,
        r.tags.deep_view() == stored_tags(tags_json@),
        r.category_ai == category_ai,
        r.link == link,
        r.image_url == image_url,
        r.score == score,
{
    ExportItem { title, summary, tags: tags_from_json(tags_json), category_ai, link, image_url, score }
}

/// Statistics of one dataset.
#[derive(Clone, Debug)]
pub struct DatasetStats {
    pub total: usize,
    pub valid: usize,
    pub ignored: usize,
    pub unprocessed: usize,
    pub category_distribution: Vec<(String, usize)>,
}

/// A database error that reports a second dataset of the same name.
pub open spec fn is_duplicate_name_failure(message: Seq<char>) -> bool {
    contains(message, "UNIQUE constraint failed"@)
}

/// Whether a database error (by its message) is the uniqueness constraint
/// on dataset names.
pub fn duplicate_name_failure(message: &str) -> (r: bool)
    ensures
        r == is_duplicate_name_failure(message@),
{
    contains_str(message, "UNIQUE constraint failed")
}

/// Whether an error raised while computing statistics (by its message)
/// reports a missing dataset.
pub fn missing_dataset_failure(message: &str) -> (r: bool)
    ensures
        r == contains(message@, "not found"@),
{
    contains_str(message, "not found")
}

/// The error text raised while computing statistics for a dataset id that
/// has no posts and no dataset row.
pub fn dataset_not_found_message(dataset_id: &str) -> (r: String)
    ensures
        r@ == "dataset '"@ + dataset_id@ + "' not found"@,
{
    let mut m = String::from_str("dataset '");
    m.append(dataset_id);
    m.append("' not found");
    m
}

} // verus!
