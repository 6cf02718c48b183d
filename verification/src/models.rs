//! The records that flow through the pipeline: posts, analyses, datasets and
//! export rows.

use vstd::prelude::*;
use crate::text::same_str;
use vstd::string::StringExecFns;

verus! {

/// Status of a post in the processing pipeline.
#[derive(Clone, Debug, PartialEq, Eq, Structural)]
pub enum PostStatus {
    Pending,
    Valid,
    Ignored,
}

/// The text under which a status is stored and shown.
pub open spec fn status_label(s: PostStatus) -> Seq<char> {
    match s {
        PostStatus::Pending => "pending"@,
        PostStatus::Valid => "valid"@,
        PostStatus::Ignored => "ignored"@,
    }
}

/// The status that a stored label stands for; anything unknown reads as
/// pending.
pub open spec fn status_from_label(t: Seq<char>) -> PostStatus {
    if t == "valid"@ {
        PostStatus::Valid
    } else if t == "ignored"@ {
        PostStatus::Ignored
    } else {
        PostStatus::Pending
    }
}

impl PostStatus {
    /// The label of this status (its display form).
    pub fn label(&self) -> (r: String)
        ensures
            r@ == status_label(*self),
    {
        match self {
            PostStatus::Pending => String::from_str("pending"),
            PostStatus::Valid => String::from_str("valid"),
            PostStatus::Ignored => String::from_str("ignored"),
        }
    }

    /// Read a stored label back; unknown labels read as `Pending`.
    pub fn from_label(t: &str) -> (r: PostStatus)
        ensures
            r == status_from_label(t@),
    {
        if same_str(t, "valid") {
            PostStatus::Valid
        } else if same_str(t, "ignored") {
            PostStatus::Ignored
        } else {
            PostStatus::Pending
        }
    }
}

/// A status survives being written as its label and read back.
pub proof fn lemma_status_label_round_trip(s: PostStatus)
    ensures
        status_from_label(status_label(s)) == s,
{
    reveal_strlit("pending");
    reveal_strlit("valid");
    reveal_strlit("ignored");
    assert("pending"@.len() != "valid"@.len());
    assert("pending"@[0] != "ignored"@[0]);
    assert("ignored"@.len() != "valid"@.len());
}

/// AI-assigned category for a post.
#[derive(Clone, Debug, PartialEq, Eq, Structural)]
pub enum Category {
    Technology,
    Business,
    Education,
    Entertainment,
    Travel,
    Personal,
    Other,
}

/// The name of a category (its display and serialised form).
pub open spec fn category_label(c: Category) -> Seq<char> {
    match c {
        Category::Technology => "Technology"@,
        Category::Business => "Business"@,
        Category::Education => "Education"@,
        Category::Entertainment => "Entertainment"@,
        Category::Travel => "Travel"@,
        Category::Personal => "Personal"@,
        Category::Other => "Other"@,
    }
}

/// The category whose name is exactly `t`, if any.
pub open spec fn category_named(t: Seq<char>) -> Option<Category> {
    if t == "Technology"@ {
        Some(Category::Technology)
    } else if t == "Business"@ {
        Some(Category::Business)
    } else if t == "Education"@ {
        Some(Category::Education)
    } else if t == "Entertainment"@ {
        Some(Category::Entertainment)
    } else if t == "Travel"@ {
        Some(Category::Travel)
    } else if t == "Personal"@ {
        Some(Category::Personal)
    } else if t == "Other"@ {
        Some(Category::Other)
    } else {
        None
    }
}

impl Category {
    /// The name of this category.
    pub fn label(&self) -> (r: String)
        ensures
            r@ == category_label(*self),
    {
        match self {
            Category::Technology => String::from_str("Technology"),
            Category::Business => String::from_str("Business"),
            Category::Education => String::from_str("Education"),
            Category::Entertainment => String::from_str("Entertainment"),
            Category::Travel => String::from_str("Travel"),
            Category::Personal => String::from_str("Personal"),
            Category::Other => String::from_str("Other"),
        }
    }

    /// The category named exactly `t`, if one is.
    pub fn from_label(t: &str) -> (r: Option<Category>)
        ensures
            r == category_named(t@),
    {
        if same_str(t, "Technology") {
            Some(Category::Technology)
        } else if same_str(t, "Business") {
            Some(Category::Business)
        } else if same_str(t, "Education") {
            Some(Category::Education)
        } else if same_str(t, "Entertainment") {
            Some(Category::Entertainment)
        } else if same_str(t, "Travel") {
            Some(Category::Travel)
        } else if same_str(t, "Personal") {
            Some(Category::Personal)
        } else if same_str(t, "Other") {
            Some(Category::Other)
        } else {
            None
        }
    }
}

/// Every category is found again under its own name.
pub proof fn lemma_category_label_round_trip(c: Category)
    ensures
        category_named(category_label(c)) == Some(c),
{
    reveal_strlit("Technology");
    reveal_strlit("Business");
    reveal_strlit("Education");
    reveal_strlit("Entertainment");
    reveal_strlit("Travel");
    reveal_strlit("Personal");
    reveal_strlit("Other");
    let names = seq![
        "Technology"@,
        "Business"@,
        "Education"@,
        "Entertainment"@,
        "Travel"@,
        "Personal"@,
        "Other"@,
    ];
    assert forall|i: int, j: int| 0 <= i < j < 7 implies names[i] != names[j] by {
        if names[i].len() == names[j].len() {
            assert(names[i][0] != names[j][0]);
        }
    }
    assert(names[0] == "Technology"@);
    assert(names[1] == "Business"@);
    assert(names[2] == "Education"@);
    assert(names[3] == "Entertainment"@);
    assert(names[4] == "Travel"@);
    assert(names[5] == "Personal"@);
    assert(names[6] == "Other"@);
}

/// Each category is named after itself: its label is its own name, and
/// that name, and no other text, reads back as it.
pub proof fn lemma_category_names(t: Seq<char>)
    ensures
        category_label(Category::Technology) == "Technology"@,
        category_label(Category::Business) == "Business"@,
        category_label(Category::Education) == "Education"@,
        category_label(Category::Entertainment) == "Entertainment"@,
        category_label(Category::Travel) == "Travel"@,
        category_label(Category::Personal) == "Personal"@,
        category_label(Category::Other) == "Other"@,
        category_named("Technology"@) == Some(Category::Technology),
        category_named("Business"@) == Some(Category::Business),
        category_named("Education"@) == Some(Category::Education),
        category_named("Entertainment"@) == Some(Category::Entertainment),
        category_named("Travel"@) == Some(Category::Travel),
        category_named("Personal"@) == Some(Category::Personal),
        category_named("Other"@) == Some(Category::Other),
        forall|c: Category| category_named(t) == Some(c) ==> t == category_label(c),
{
    lemma_category_label_round_trip(Category::Technology);
    lemma_category_label_round_trip(Category::Business);
    lemma_category_label_round_trip(Category::Education);
    lemma_category_label_round_trip(Category::Entertainment);
    lemma_category_label_round_trip(Category::Travel);
    lemma_category_label_round_trip(Category::Personal);
    lemma_category_label_round_trip(Category::Other);
}

/// A number held as its IEEE-754 binary32 bit pattern (sign bit first, then
/// eight exponent bits, then 23 fraction bits).
#[derive(Clone, Copy, Debug, PartialEq, Eq, Structural)]
pub struct Binary32 {
    pub bits: u32,
}

/// A normalized post record produced during the import phase.
#[derive(Clone, Debug)]
pub struct RawPost {
    pub id: String,
    pub dataset_id: String,
    pub title: String,
    pub link: String,
    pub image_url: Option<String>,
    pub category_raw: Option<String>,
    pub post_type: Option<String>,
    pub status: PostStatus,
    pub ignore_reason: Option<String>,
}

/// An analysis record produced by the language model for a given post.
#[derive(Clone, Debug)]
pub struct ProcessedPost {
    pub post_id: String,
    pub summary: String,
    pub tags: Vec<String>,
    pub category_ai: Category,
    pub score: Binary32,
    pub processed_at: String,
}

/// A named, independent collection of imported posts.
#[derive(Clone, Debug)]
pub struct Dataset {
    pub id: String,
    pub name: String,
    pub source: String,
    pub created_at: String,
}

/// An item ready for export, joining post and analysis data.
#[derive(Clone, Debug)]
pub struct ExportItem {
    pub title: String,
    pub summary: String,
    pub tags: Vec<String>,
    pub category_ai: String,
    pub link: String,
    pub image_url: Option<String>,
    pub score: Binary32,
}

impl Dataset {
    /// A new dataset record with a fresh random id (a version 4 UUID in its
    /// hyphenated form) and the current time as its creation time; `None`
    /// when the random source or the clock fails.
    pub fn create(name: &str, source: &str) -> (r: Option<Dataset>)
        ensures
            r matches Some(d) ==> {
                &&& d.name@ == name@
                &&& d.source@ == source@
                &&& exists|b: Seq<u8>|
                    b.len() == 16 && d.id@ == crate::clock::uuid_text(
                        crate::clock::uuid_v4_bytes(b),
                    )
                &&& d.id@.len() == 36
                &&& d.id@[8] == '-' && d.id@[13] == '-' && d.id@[18] == '-' && d.id@[23] == '-'
                &&& crate::clock::is_utc_rfc3339(d.created_at@)
            },
    {
        let id = match crate::clock::new_uuid_v4() {
            Some(id) => id,
            None => {
                return None;
            },
        };
        let created_at = match crate::clock::utc_now_rfc3339() {
            Some(t) => t,
            None => {
                return None;
            },
        };
        Some(
            Dataset {
                id,
                name: String::from_str(name),
                source: String::from_str(source),
                created_at,
            },
        )
    }
}

} // verus!
