//! The language-model side of processing: request items, the framing of a
//! reply, the checks every analysis must pass, and the retry policy.

use vstd::prelude::*;
use crate::config::BatchConfig;
use crate::models::{Binary32, Category, category_named};
use crate::text::{
    is_white, lemma_strip_prefix_all_suffix, lemma_strip_suffix_all_prefix, lemma_trim_range,
    lemma_trim_unchanged, chars_of, decimal, find_char, has_prefix, is_first_index, is_last_index, rfind_char,
    strip_prefix_all, strip_prefix_all_range, strip_suffix_all, strip_suffix_all_range, trim,
    trim_range, decimal_string, contains, contains_str,
};
use vstd::std_specs::iter::IteratorSpec;
use vstd::string::{StrSliceExecFns, StringExecFns};

verus! {

broadcast use vstd::std_specs::vec::group_vec_axioms;

/// A single item sent to the language model for analysis.
/// `content` is the title, a space, and the link.
#[derive(Clone, Debug, PartialEq)]
pub struct LlmBatchItem {
    pub id: String,
    pub content: String,
}

/// The id and content of an item.
pub open spec fn item_view(it: LlmBatchItem) -> (Seq<char>, Seq<char>) {
    (it.id@, it.content@)
}

/// The analysis returned by the language model for a single post.
#[derive(Clone, Debug)]
pub struct LlmAnalysis {
    pub id: String,
    pub summary: String,
    pub tags: Vec<String>,
    pub category: Category,
    pub score: Binary32,
}

/// Errors produced by the processor / language-model layer.
#[derive(Debug)]
pub enum ProcessorError {
    /// Every attempt failed; `source` is the text of the last failure.
    LlmExhausted { attempts: u8, source: String },
    InvalidResponse { reason: String },
}

/// The message of an error, as its display form reads.
pub open spec fn error_text(e: ProcessorError) -> Seq<char> {
    match e {
        ProcessorError::LlmExhausted { attempts, source } => "LLM request failed after "@
            + decimal(attempts as nat) + " attempts: "@ + source@,
        ProcessorError::InvalidResponse { reason } => "LLM response validation failed: "@
            + reason@,
    }
}

impl ProcessorError {
    /// The message of this error, as its display form reads.
    pub fn message(&self) -> (r: String)
        ensures
            r@ == error_text(*self),
    {
        match self {
            ProcessorError::LlmExhausted { attempts, source } => {
                let mut m = String::from_str("LLM request failed after ");
                let n = decimal_string(*attempts as u64);
                m.append(n.as_str());
                m.append(" attempts: ");
                m.append(source.as_str());
                m
            },
            ProcessorError::InvalidResponse { reason } => {
                let mut m = String::from_str("LLM response validation failed: ");
                m.append(reason.as_str());
                m
            },
        }
    }
}

// ─── Framing of a reply ─────────────────────────────────────────────────────

/// `s` begins with `[`.
pub open spec fn opens_array(s: Seq<char>) -> bool {
    s.len() > 0 && s[0] == '['
}

/// `t` without markdown code fences: a leading "```json" and "```"
/// (each as often as they occur), trailing "```", then white space.
pub open spec fn without_fences(t: Seq<char>) -> Seq<char> {
    trim(strip_suffix_all(strip_prefix_all(strip_prefix_all(t, "```json"@), "```"@), "```"@))
}

/// There is a first `[` before the last `]` in `raw`.
pub open spec fn has_bracket_span(raw: Seq<char>) -> bool {
    exists|i: int, j: int|
        is_first_index(raw, '[', i) && is_last_index(raw, ']', j) && i < j
}

/// The JSON array text found in a reply: the trimmed reply when it opens
/// with `[`; else the reply without code fences when that opens with `[`;
/// else the text from the first `[` to the last `]` when the first comes
/// before the last; else the reply unchanged.
pub open spec fn json_array_text(raw: Seq<char>) -> Seq<char> {
    if opens_array(trim(raw)) {
        trim(raw)
    } else if opens_array(without_fences(trim(raw))) {
        without_fences(trim(raw))
    } else if has_bracket_span(raw) {
        let (i, j) = choose|i: int, j: int|
            is_first_index(raw, '[', i) && is_last_index(raw, ']', j) && i < j;
        raw.subrange(i, j + 1)
    } else {
        raw
    }
}

proof fn lemma_first_index_unique(s: Seq<char>, c: char, i: int, k: int)
    requires
        is_first_index(s, c, i),
        is_first_index(s, c, k),
    ensures
        i == k,
{
    if i < k {
        assert(s[i] == c);
    } else if k < i {
        assert(s[k] == c);
    }
}

proof fn lemma_last_index_unique(s: Seq<char>, c: char, i: int, k: int)
    requires
        is_last_index(s, c, i),
        is_last_index(s, c, k),
    ensures
        i == k,
{
    if i < k {
        assert(s[k] == c);
    } else if k < i {
        assert(s[i] == c);
    }
}

/// Extract a JSON array from a language-model reply that may contain
/// markdown fences, leading or trailing text, or other noise.
///
/// In order: the trimmed reply if it starts with `[`; the reply with code
/// fences stripped if that starts with `[`; the outermost `[ ... ]` block;
/// otherwise the reply itself, so that the caller gets a meaningful parse
/// error.
pub fn extract_json_array<'a>(raw: &'a str) -> (r: &'a str)
    ensures
        r@ == json_array_text(raw@),
{
    let v = chars_of(raw);
    let n = v.len();
    assert(v@.subrange(0, n as int) =~= v@);
    let (ta, tb) = trim_range(&v, 0, n);
    if ta < tb && v[ta] == '[' {
        return raw.substring_char(ta, tb);
    }
    let fence_json = chars_of("```json");
    let fence = chars_of("```");
    let a1 = strip_prefix_all_range(&v, ta, tb, &fence_json);
    let a2 = strip_prefix_all_range(&v, a1, tb, &fence);
    let b1 = strip_suffix_all_range(&v, a2, tb, &fence);
    let (fa, fb) = trim_range(&v, a2, b1);
    assert(v@.subrange(fa as int, fb as int) == without_fences(trim(raw@)));
    if fa < fb && v[fa] == '[' {
        return raw.substring_char(fa, fb);
    }
    let first = find_char(&v, '[');
    let last = rfind_char(&v, ']');
    match (first, last) {
        (Some(a), Some(b)) => {
            if a < b {
                assert(has_bracket_span(raw@));
                let ghost (i, j) = choose|i: int, j: int|
                    is_first_index(raw@, '[', i) && is_last_index(raw@, ']', j) && i < j;
                proof {
                    lemma_first_index_unique(raw@, '[', i, a as int);
                    lemma_last_index_unique(raw@, ']', j, b as int);
                }
                return raw.substring_char(a, b + 1);
            }
            assert forall|i: int, j: int|
                is_first_index(raw@, '[', i) && is_last_index(raw@, ']', j) implies !(i < j) by {
                lemma_first_index_unique(raw@, '[', i, a as int);
                lemma_last_index_unique(raw@, ']', j, b as int);
            }
        },
        _ => {
            assert forall|i: int, j: int|
                is_first_index(raw@, '[', i) && is_last_index(raw@, ']', j) implies false by {
                assert(raw@[i] == '[');
                assert(raw@[j] == ']');
            }
        },
    }
    raw
}

/// A text that begins with `[` and is already trimmed frames to itself.
proof fn lemma_framed_text_is_fixed(r: Seq<char>)
    requires
        opens_array(r),
        !is_white(r.last()),
    ensures
        json_array_text(r) == r,
{
    assert(!is_white('['));
    lemma_trim_unchanged(r);
}

/// The framing of a reply is a piece of the reply, is either the whole
/// reply or a text that begins with `[`, and frames to itself: extracting
/// again changes nothing.
pub proof fn lemma_json_array_text_is_fixed_substring(raw: Seq<char>)
    ensures
        exists|i: int, j: int|
            0 <= i <= j <= raw.len() && json_array_text(raw) == raw.subrange(i, j),
        json_array_text(raw) == raw || opens_array(json_array_text(raw)),
        json_array_text(json_array_text(raw)) == json_array_text(raw),
{
    let r = json_array_text(raw);
    let (a, b) = lemma_trim_range(raw);
    let t = trim(raw);
    if opens_array(t) {
        lemma_framed_text_is_fixed(t);
        assert(json_array_text(raw) == raw.subrange(a, b));
    } else if opens_array(without_fences(t)) {
        let k1 = lemma_strip_prefix_all_suffix(t, "```json"@);
        let x1 = strip_prefix_all(t, "```json"@);
        let k2 = lemma_strip_prefix_all_suffix(x1, "```"@);
        let x2 = strip_prefix_all(x1, "```"@);
        let k3 = lemma_strip_suffix_all_prefix(x2, "```"@);
        let x3 = strip_suffix_all(x2, "```"@);
        let (c, d) = lemma_trim_range(x3);
        let lo = a + k1 + k2 + c;
        let hi = a + k1 + k2 + d;
        assert(x1 =~= raw.subrange(a + k1, b));
        assert(x2 =~= raw.subrange(a + k1 + k2, b));
        assert(x3 =~= raw.subrange(a + k1 + k2, a + k1 + k2 + k3));
        assert(trim(x3) =~= raw.subrange(lo, hi));
        assert(json_array_text(raw) == raw.subrange(lo, hi));
        lemma_framed_text_is_fixed(trim(x3));
    } else if has_bracket_span(raw) {
        let (i, j) = choose|i: int, j: int|
            is_first_index(raw, '[', i) && is_last_index(raw, ']', j) && i < j;
        assert(r == raw.subrange(i, j + 1));
        assert(r[0] == '[');
        assert(r.last() == ']');
        assert(!is_white(']'));
        lemma_framed_text_is_fixed(r);
    } else {
        assert(r == raw);
        assert(raw.subrange(0, raw.len() as int) =~= raw);
    }
}

// ─── Checking the analyses ──────────────────────────────────────────────────

/// The lowercase form of `s`, as `str::to_lowercase` maps it.
pub uninterp spec fn lowercase(s: Seq<char>) -> Seq<char>;

/// `str::to_lowercase`: the Unicode lowercase mapping of each character.
/// The contract names the result.
#[verifier::external_body]
fn to_lowercase(s: &str) -> (r: String)
    ensures
        r@ == lowercase(s@),
{
    s.to_lowercase()
}

/// The fields an analysis must carry.
#[derive(Clone, Copy, Debug, PartialEq, Eq, Structural)]
pub enum AnalysisField {
    Id,
    Summary,
    Tags,
    Category,
    Score,
}

/// One element of a reply, as parsed: each field that was present and not
/// null; each tag as its text when it is a JSON string; the score as the
/// binary32 value of its number when it is a JSON number.
#[derive(Clone, Debug)]
pub struct RawAnalysisRecord {
    pub id: Option<String>,
    pub summary: Option<String>,
    pub tags: Option<Vec<Option<String>>>,
    pub category: Option<String>,
    pub score: Option<Option<Binary32>>,
}

/// Why a reply was refused: the first failing element, by its position,
/// and what was wrong with it.
#[derive(Clone, Debug)]
#[allow(inconsistent_fields)]
pub enum ResponseDefect {
    MissingField { index: usize, id: Option<String>, field: AnalysisField },
    TagCount { index: usize, id: String, count: usize },
    TagNotString { index: usize, id: String, position: usize },
    ScoreNotNumber { index: usize, id: String },
    ScoreOutOfRange { index: usize, id: String, score: Binary32 },
}

/// The binary32 value lies in `[0.0, 1.0]`.  Non-negative binary32 values
/// are ordered as their bit patterns, from +0.0 (0x00000000) up to 1.0
/// (0x3F800000); the only other value in the interval is -0.0
/// (0x80000000); NaN patterns lie above 0x7F800000 or have the sign bit set.
pub open spec fn in_unit_interval(b: Binary32) -> bool {
    b.bits <= 0x3F80_0000 || b.bits == 0x8000_0000
}

/// The category a reply's label maps to: the category of that name, or
/// `Other` for an unknown label.
pub open spec fn reply_category(label: Seq<char>) -> Category {
    match category_named(label) {
        Some(c) => c,
        None => Category::Other,
    }
}

/// Every tag is a string.
pub open spec fn all_tags_text(tags: Seq<Option<String>>) -> bool {
    forall|j: int| 0 <= j < tags.len() ==> (#[trigger] tags[j]) is Some
}

/// `j` is the first tag that is not a string.
pub open spec fn first_non_text_tag(tags: Seq<Option<String>>, j: int) -> bool {
    &&& 0 <= j < tags.len()
    &&& tags[j] is None
    &&& forall|k: int| 0 <= k < j ==> (#[trigger] tags[k]) is Some
}

/// An element that passes every check.
pub open spec fn record_ok(rec: RawAnalysisRecord) -> bool {
    &&& rec.id is Some
    &&& rec.summary is Some
    &&& rec.tags matches Some(t) && 1 <= t@.len() <= 7 && all_tags_text(t@)
    &&& rec.category is Some
    &&& rec.score matches Some(Some(b)) && in_unit_interval(b)
}

/// `d` is the defect of element `index`, checked in this order: id,
/// summary, tags present, tag count in 1..=7, each tag a string, category,
/// score present, score a number, score in `[0.0, 1.0]`.
pub open spec fn defect_of(d: ResponseDefect, rec: RawAnalysisRecord, index: int) -> bool {
    if rec.id is None {
        d matches ResponseDefect::MissingField { index: i, id, field } && i == index && id is None
            && field == AnalysisField::Id
    } else if rec.summary is None {
        d matches ResponseDefect::MissingField { index: i, id, field } && i == index && id
            == rec.id && field == AnalysisField::Summary
    } else if rec.tags is None {
        d matches ResponseDefect::MissingField { index: i, id, field } && i == index && id
            == rec.id && field == AnalysisField::Tags
    } else if !(1 <= rec.tags->0@.len() <= 7) {
        d matches ResponseDefect::TagCount { index: i, id, count } && i == index && Some(id)
            == rec.id && count == rec.tags->0@.len()
    } else if !all_tags_text(rec.tags->0@) {
        d matches ResponseDefect::TagNotString { index: i, id, position } && i == index && Some(id)
            == rec.id && first_non_text_tag(rec.tags->0@, position as int)
    } else if rec.category is None {
        d matches ResponseDefect::MissingField { index: i, id, field } && i == index && id
            == rec.id && field == AnalysisField::Category
    } else if rec.score is None {
        d matches ResponseDefect::MissingField { index: i, id, field } && i == index && id
            == rec.id && field == AnalysisField::Score
    } else if rec.score->0 is None {
        d matches ResponseDefect::ScoreNotNumber { index: i, id } && i == index && Some(id)
            == rec.id
    } else {
        d matches ResponseDefect::ScoreOutOfRange { index: i, id, score } && i == index && Some(id)
            == rec.id && Some(Some(score)) == rec.score
    }
}

/// `a` is the analysis made of a passing element: id and summary carried
/// over, tags lowercased, the category mapped, the score carried over.
pub open spec fn analysis_of(a: LlmAnalysis, rec: RawAnalysisRecord) -> bool {
    &&& Some(a.id) == rec.id
    &&& Some(a.summary) == rec.summary
    &&& a.tags@.len() == rec.tags->0@.len()
    &&& forall|j: int|
        0 <= j < a.tags@.len() ==> (#[trigger] a.tags@[j])@ == lowercase(rec.tags->0@[j]->0@)
    &&& a.category == reply_category(rec.category->0@)
    &&& Some(Some(a.score)) == rec.score
}

/// The checks of one element, with the element's position for the defect.
#[verifier::loop_isolation(false)]
fn check_record(rec: RawAnalysisRecord, index: usize) -> (r: Result<LlmAnalysis, ResponseDefect>)
    ensures
        record_ok(rec) ==> (r matches Ok(a) && analysis_of(a, rec)),
        !record_ok(rec) ==> (r matches Err(d) && defect_of(d, rec, index as int)),
{
    let ghost orig = rec;
    let id = match rec.id {
        Some(id) => id,
        None => {
            return Err(ResponseDefect::MissingField { index, id: None, field: AnalysisField::Id });
        },
    };
    let summary = match rec.summary {
        Some(s) => s,
        None => {
            return Err(
                ResponseDefect::MissingField { index, id: Some(id), field: AnalysisField::Summary },
            );
        },
    };
    let raw_tags = match rec.tags {
        Some(t) => t,
        None => {
            return Err(
                ResponseDefect::MissingField { index, id: Some(id), field: AnalysisField::Tags },
            );
        },
    };
    if raw_tags.len() == 0 || raw_tags.len() > 7 {
        return Err(ResponseDefect::TagCount { index, id, count: raw_tags.len() });
    }
    let mut tags: Vec<String> = Vec::new();
    let mut j: usize = 0;
    while j < raw_tags.len()
        invariant
            orig.tags == Some(raw_tags),
            orig.id == Some(id),
            orig.summary == Some(summary),
            1 <= raw_tags@.len() <= 7,
            j <= raw_tags@.len(),
            tags@.len() == j,
            forall|k: int| 0 <= k < j ==> (#[trigger] raw_tags@[k]) is Some,
            forall|k: int| 0 <= k < j ==> (#[trigger] tags@[k])@ == lowercase(raw_tags@[k]->0@),
        decreases raw_tags@.len() - j,
    {
        match &raw_tags[j] {
            Some(t) => {
                let lower = to_lowercase(t.as_str());
                tags.push(lower);
            },
            None => {
                assert(raw_tags@[j as int] is None);
                assert(!all_tags_text(raw_tags@));
                assert(first_non_text_tag(raw_tags@, j as int));
                return Err(ResponseDefect::TagNotString { index, id, position: j });
            },
        }
        j = j + 1;
    }
    let label = match rec.category {
        Some(c) => c,
        None => {
            return Err(
                ResponseDefect::MissingField { index, id: Some(id), field: AnalysisField::Category },
            );
        },
    };
    let category = match Category::from_label(label.as_str()) {
        Some(c) => c,
        None => Category::Other,
    };
    let score = match rec.score {
        Some(Some(b)) => b,
        Some(None) => {
            return Err(ResponseDefect::ScoreNotNumber { index, id });
        },
        None => {
            return Err(
                ResponseDefect::MissingField { index, id: Some(id), field: AnalysisField::Score },
            );
        },
    };
    if !(score.bits <= 0x3F80_0000 || score.bits == 0x8000_0000) {
        return Err(ResponseDefect::ScoreOutOfRange { index, id, score });
    }
    Ok(LlmAnalysis { id, summary, tags, category, score })
}

/// Element `k` is the first that fails a check, and `d` is its defect.
pub open spec fn is_first_defect(recs: Seq<RawAnalysisRecord>, d: ResponseDefect, k: int) -> bool {
    &&& 0 <= k < recs.len()
    &&& forall|i: int| 0 <= i < k ==> record_ok(#[trigger] recs[i])
    &&& !record_ok(recs[k])
    &&& defect_of(d, recs[k], k)
}

/// Check the elements of a parsed reply and build the analyses.
///
/// Rules: each element must have `id`, `summary`, `tags`, `category` and
/// `score`; `tags` must have 1 to 7 entries, all strings, which are
/// lowercased; an unknown `category` becomes `Other`; `score` must be a
/// number in `[0.0, 1.0]`.  The first element that breaks a rule decides the
/// defect.
#[verifier::loop_isolation(false)]
pub fn validate_analyses(records: Vec<RawAnalysisRecord>) -> (r: Result<Vec<LlmAnalysis>, ResponseDefect>)
    ensures
        match r {
            Ok(v) => {
                &&& forall|i: int| 0 <= i < records@.len() ==> record_ok(#[trigger] records@[i])
                &&& v@.len() == records@.len()
                &&& forall|i: int|
                    0 <= i < records@.len() ==> analysis_of(#[trigger] v@[i], records@[i])
            },
            Err(d) => exists|k: int| is_first_defect(records@, d, k),
        },
{
    let ghost recs = records@;
    let n = records.len();
    let mut out: Vec<LlmAnalysis> = Vec::new();
    let mut pending = reversed(records);
    let mut i: usize = 0;
    while i < n
        invariant
            n == recs.len(),
            i <= recs.len(),
            pending@.len() == recs.len() - i,
            forall|k: int| 0 <= k < pending@.len() ==> #[trigger] pending@[k] == recs[recs.len() - 1 - k],
            out@.len() == i,
            forall|k: int| 0 <= k < i ==> record_ok(#[trigger] recs[k]),
            forall|k: int| 0 <= k < i ==> analysis_of(#[trigger] out@[k], recs[k]),
        decreases recs.len() - i,
    {
        let rec = pending.pop().unwrap();
        assert(rec == recs[i as int]);
        match check_record(rec, i) {
            Ok(a) => {
                out.push(a);
            },
            Err(d) => {
                assert(is_first_defect(recs, d, i as int));
                return Err(d);
            },
        }
        i = i + 1;
    }
    Ok(out)
}

/// The items of `v` in reverse order.
pub fn reversed<T>(v: Vec<T>) -> (r: Vec<T>)
    ensures
        r@.len() == v@.len(),
        forall|k: int| 0 <= k < v@.len() ==> #[trigger] r@[k] == v@[v@.len() - 1 - k],
{
    let ghost orig = v@;
    let mut src = v;
    let mut r: Vec<T> = Vec::new();
    while src.len() > 0
        invariant
            src@ == orig.take(src@.len() as int),
            src@.len() <= orig.len(),
            r@.len() == orig.len() - src@.len(),
            forall|k: int| 0 <= k < r@.len() ==> #[trigger] r@[k] == orig[orig.len() - 1 - k],
        decreases src@.len(),
    {
        let x = src.pop().unwrap();
        r.push(x);
        assert(src@ =~= orig.take(src@.len() as int));
    }
    r
}

/// "element " and the position, then " (id=" and the id and ")" when the id
/// is known.
pub open spec fn element_label(index: nat, id: Option<String>) -> Seq<char> {
    match id {
        Some(i) => "element "@ + decimal(index) + " (id="@ + i@ + ")"@,
        None => "element "@ + decimal(index),
    }
}

/// The name of a field as the messages quote it.
pub open spec fn field_name(f: AnalysisField) -> Seq<char> {
    match f {
        AnalysisField::Id => "id"@,
        AnalysisField::Summary => "summary"@,
        AnalysisField::Tags => "tags"@,
        AnalysisField::Category => "category"@,
        AnalysisField::Score => "score"@,
    }
}

fn element_label_exec(index: usize, id: Option<&String>) -> (r: String)
    ensures
        r@ == element_label(index as nat, match id {
            Some(i) => Some(*i),
            None => None,
        }),
{
    let mut m = String::from_str("element ");
    let n = decimal_string(index as u64);
    m.append(n.as_str());
    match id {
        Some(i) => {
            m.append(" (id=");
            m.append(i.as_str());
            m.append(")");
        },
        None => {},
    }
    m
}

impl ResponseDefect {
    /// The reason text of this defect.  `score_text` is the display form of
    /// the score, used only when the score is out of range.
    pub fn reason(&self, score_text: &str) -> (r: String)
        ensures
            match self {
                ResponseDefect::MissingField { index, id, field } => r@ == element_label(
                    *index as nat,
                    *id,
                ) + " missing field '"@ + field_name(*field) + "'"@,
                ResponseDefect::TagCount { index, id, count } => r@ == element_label(
                    *index as nat,
                    Some(*id),
                ) + " has "@ + decimal(*count as nat) + " tags; expected 1–7"@,
                ResponseDefect::TagNotString { index, id, position } => r@ == element_label(
                    *index as nat,
                    Some(*id),
                ) + " tag["@ + decimal(*position as nat) + "] is not a string"@,
                ResponseDefect::ScoreNotNumber { index, id } => r@ == element_label(
                    *index as nat,
                    Some(*id),
                ) + " 'score' is not a number"@,
                ResponseDefect::ScoreOutOfRange { index, id, .. } => r@ == element_label(
                    *index as nat,
                    Some(*id),
                ) + " score "@ + score_text@ + " is out of range [0.0, 1.0]"@,
            },
    {
        match self {
            ResponseDefect::MissingField { index, id, field } => {
                let mut m = element_label_exec(*index, id.as_ref());
                m.append(" missing field '");
                match field {
                    AnalysisField::Id => m.append("id"),
                    AnalysisField::Summary => m.append("summary"),
                    AnalysisField::Tags => m.append("tags"),
                    AnalysisField::Category => m.append("category"),
                    AnalysisField::Score => m.append("score"),
                }
                m.append("'");
                m
            },
            ResponseDefect::TagCount { index, id, count } => {
                let mut m = element_label_exec(*index, Some(id));
                m.append(" has ");
                let n = decimal_string(*count as u64);
                m.append(n.as_str());
                m.append(" tags; expected 1–7");
                m
            },
            ResponseDefect::TagNotString { index, id, position } => {
                let mut m = element_label_exec(*index, Some(id));
                m.append(" tag[");
                let n = decimal_string(*position as u64);
                m.append(n.as_str());
                m.append("] is not a string");
                m
            },
            ResponseDefect::ScoreNotNumber { index, id } => {
                let mut m = element_label_exec(*index, Some(id));
                m.append(" 'score' is not a number");
                m
            },
            ResponseDefect::ScoreOutOfRange { index, id, .. } => {
                let mut m = element_label_exec(*index, Some(id));
                m.append(" score ");
                m.append(score_text);
                m.append(" is out of range [0.0, 1.0]");
                m
            },
        }
    }
}

/// The error for a reply whose framed text is not a JSON array of
/// analyses; `detail` is the parser's message.
pub fn not_an_array(detail: &str) -> (r: ProcessorError)
    ensures
        r matches ProcessorError::InvalidResponse { reason } && reason@
            == "response is not a valid JSON array: "@ + detail@,
{
    let mut m = String::from_str("response is not a valid JSON array: ");
    m.append(detail);
    ProcessorError::InvalidResponse { reason: m }
}

/// The request body sent to Ollama: the model, the prompt, no streaming,
/// and the token limit and temperature of the configuration.
#[derive(Clone, Debug)]
pub struct OllamaRequest {
    pub model: String,
    pub prompt: String,
    pub stream: bool,
    pub options: OllamaOptions,
}

/// Sampling options of an Ollama request.
#[derive(Clone, Copy, Debug)]
pub struct OllamaOptions {
    pub num_predict: u32,
    pub temperature: Binary32,
}

/// The Ollama request for a prompt: every request carries the configured
/// `max_tokens` (as `num_predict`) and `temperature`.
pub fn ollama_request(model: &String, prompt: String, batch: &BatchConfig) -> (r: OllamaRequest)
    ensures
        r.model@ == model@,
        r.prompt == prompt,
        !r.stream,
        r.options.num_predict == batch.max_tokens,
        r.options.temperature == batch.temperature,
{
    OllamaRequest {
        model: model.clone(),
        prompt,
        stream: false,
        options: OllamaOptions { num_predict: batch.max_tokens, temperature: batch.temperature },
    }
}

/// The chat-completion request sent to OpenAI: the model, the prompt as
/// the one user message, and the token limit and temperature of the
/// configuration.
#[derive(Clone, Debug)]
pub struct OpenAiRequest {
    pub model: String,
    pub prompt: String,
    pub max_tokens: u32,
    pub temperature: Binary32,
}

/// The OpenAI request for a prompt: every request carries the configured
/// `max_tokens` and `temperature`.
pub fn openai_request(model: &String, prompt: String, batch: &BatchConfig) -> (r: OpenAiRequest)
    ensures
        r.model@ == model@,
        r.prompt == prompt,
        r.max_tokens == batch.max_tokens,
        r.temperature == batch.temperature,
{
    OpenAiRequest {
        model: model.clone(),
        prompt,
        max_tokens: batch.max_tokens,
        temperature: batch.temperature,
    }
}

// ─── Retry policy ───────────────────────────────────────────────────────────

/// Maximum number of attempts (1 initial + 3 retries).
pub const MAX_ATTEMPTS: u8 = 4;

/// Seconds to wait before the attempt numbered `attempt` (from 0): nothing
/// before the first, then 1, 2 and 4 (exponential backoff).
pub open spec fn backoff_secs(attempt: nat) -> Option<u64> {
    if attempt == 0 {
        None
    } else if attempt == 1 {
        Some(1u64)
    } else if attempt == 2 {
        Some(2u64)
    } else {
        Some(4u64)
    }
}

/// Determine whether an HTTP status code should trigger a retry: 429 and
/// every 5xx code.
pub fn should_retry_status(status: u16) -> (r: bool)
    ensures
        r == (status == 429 || (500 <= status < 600)),
{
    status == 429 || (500 <= status && status < 600)
}

/// Determine whether an HTTP status code should NOT be retried: 400, 401
/// and 403.
pub fn is_non_retryable_status(status: u16) -> (r: bool)
    ensures
        r == (status == 400 || status == 401 || status == 403),
{
    status == 400 || status == 401 || status == 403
}

/// What to do with the HTTP status of an Ollama reply.
#[derive(Clone, Copy, Debug, PartialEq, Eq, Structural)]
pub enum StatusAction {
    /// Stop at once: the request will not succeed when repeated.
    GiveUp,
    /// Try again after the backoff.
    Retry,
    /// The request succeeded; read the reply body.
    ReadBody,
}

/// The action for an HTTP status: 400, 401 and 403 give up; any other
/// status outside 2xx (429 and 5xx among them) retries; 2xx reads the body.
pub open spec fn status_action(status: u16) -> StatusAction {
    if status == 400 || status == 401 || status == 403 {
        StatusAction::GiveUp
    } else if !(200 <= status < 300) {
        StatusAction::Retry
    } else {
        StatusAction::ReadBody
    }
}

/// The action for an HTTP status: 400, 401 and 403 give up; 429 and 5xx
/// retry; any other status outside 2xx retries too; 2xx reads the body.
pub fn ollama_status_action(status: u16) -> (r: StatusAction)
    ensures
        r == status_action(status),
        (status == 400 || status == 401 || status == 403) ==> r == StatusAction::GiveUp,
        !(status == 400 || status == 401 || status == 403) && !(200 <= status < 300) ==> r
            == StatusAction::Retry,
        200 <= status < 300 ==> r == StatusAction::ReadBody,
{
    if is_non_retryable_status(status) {
        StatusAction::GiveUp
    } else if should_retry_status(status) {
        StatusAction::Retry
    } else if !(200 <= status && status < 300) {
        StatusAction::Retry
    } else {
        StatusAction::ReadBody
    }
}

/// An OpenAI client error that mentions status 400, 401 or 403 is not
/// retried.
pub open spec fn openai_error_is_final(message: Seq<char>) -> bool {
    contains(message, "400"@) || contains(message, "401"@) || contains(message, "403"@)
}

/// An OpenAI client error ends the attempts exactly when its message
/// mentions 400, 401 or 403: a message with any of them is never retried,
/// and one with none of them always is.
pub proof fn lemma_openai_final_errors(m: Seq<char>)
    ensures
        contains(m, "400"@) ==> openai_error_is_final(m),
        contains(m, "401"@) ==> openai_error_is_final(m),
        contains(m, "403"@) ==> openai_error_is_final(m),
        !contains(m, "400"@) && !contains(m, "401"@) && !contains(m, "403"@)
            ==> !openai_error_is_final(m),
{
}

/// Whether an OpenAI client error (by its message) ends the attempts.
pub fn openai_error_gives_up(message: &str) -> (r: bool)
    ensures
        r == openai_error_is_final(message@),
        r == (contains(message@, "400"@) || contains(message@, "401"@) || contains(
            message@,
            "403"@,
        )),
{
    contains_str(message, "400") || contains_str(message, "401") || contains_str(message, "403")
}

/// The text kept for a failed HTTP status: "HTTP " and the code.
pub fn http_status_failure(status: u16) -> (r: String)
    ensures
        r@ == "HTTP "@ + decimal(status as nat),
{
    let mut m = String::from_str("HTTP ");
    let n = decimal_string(status as u64);
    m.append(n.as_str());
    m
}

/// The text for a status that is not retried: "HTTP ", the code, and
/// " — not retrying".
pub fn http_status_final(status: u16) -> (r: String)
    ensures
        r@ == "HTTP "@ + decimal(status as nat) + " — not retrying"@,
{
    let mut m = http_status_failure(status);
    m.append(" — not retrying");
    m
}

/// Progress of the attempts at one request.
pub struct RetryState {
    /// How many attempts have failed so far.
    pub attempt: u8,
    /// The text of the last failure.
    pub last_error: String,
}

impl RetryState {
    /// No attempt made yet.
    pub fn new() -> (r: RetryState)
        ensures
            r.attempt == 0,
            r.last_error@ == "LLM response validation failed: no attempts made"@,
    {
        RetryState {
            attempt: 0,
            last_error: String::from_str("LLM response validation failed: no attempts made"),
        }
    }

    /// Whether another attempt may be made.
    pub fn may_attempt(&self) -> (r: bool)
        ensures
            r == (self.attempt < MAX_ATTEMPTS),
    {
        self.attempt < MAX_ATTEMPTS
    }

    /// The wait before the next attempt, in seconds.
    pub fn delay_secs(&self) -> (r: Option<u64>)
        ensures
            r == backoff_secs(self.attempt as nat),
    {
        if self.attempt == 0 {
            None
        } else if self.attempt == 1 {
            Some(1)
        } else if self.attempt == 2 {
            Some(2)
        } else {
            Some(4)
        }
    }

    /// Record a failed attempt that is to be retried.
    pub fn failed(&mut self, error: String)
        requires
            old(self).attempt < MAX_ATTEMPTS,
        ensures
            final(self).attempt == old(self).attempt + 1,
            final(self).last_error == error,
    {
        self.attempt = self.attempt + 1;
        self.last_error = error;
    }

    /// The error for a failure that ends the attempts at once: the current
    /// attempt is counted.
    pub fn give_up(&self, source: String) -> (r: ProcessorError)
        requires
            self.attempt < MAX_ATTEMPTS,
        ensures
            r == (ProcessorError::LlmExhausted { attempts: (self.attempt + 1) as u8, source }),
    {
        ProcessorError::LlmExhausted { attempts: self.attempt + 1, source }
    }

    /// The error once every attempt has failed: `MAX_ATTEMPTS` attempts and
    /// the last failure.
    pub fn exhausted(self) -> (r: ProcessorError)
        ensures
            r == (ProcessorError::LlmExhausted { attempts: MAX_ATTEMPTS, source: self.last_error }),
    {
        ProcessorError::LlmExhausted { attempts: MAX_ATTEMPTS, source: self.last_error }
    }
}

/// What happened in an attempt at an Ollama request.
#[derive(Debug)]
pub enum OllamaEvent {
    /// The request could not be sent, or no reply came; the error's text.
    SendFailed { error: String },
    /// The reply came with this HTTP status.
    Status { status: u16 },
    /// The reply body could not be read as an Ollama reply; the reason.
    BodyUnreadable { detail: String },
    /// The reply text was framed, parsed and checked, with this result.
    Checked { result: Result<Vec<LlmAnalysis>, ProcessorError> },
}

/// What happened in an attempt at an OpenAI request.
#[derive(Debug)]
pub enum OpenAiEvent {
    /// The OpenAI client reported an error; its text.
    ClientFailed { error: String },
    /// The reply has no message content.
    NoContent,
    /// The reply content was framed, parsed and checked, with this result.
    Checked { result: Result<Vec<LlmAnalysis>, ProcessorError> },
}

/// What to do after an event of an attempt.
#[derive(Debug)]
pub enum AttemptAction {
    /// Wait this many seconds, then send the request again.
    RetryAfter { secs: u64 },
    /// Read the reply body.
    ReadBody,
    /// Stop with these analyses.
    Succeed { analyses: Vec<LlmAnalysis> },
    /// Stop with this error.
    Fail { error: ProcessorError },
}

/// A failure that is retried: one more attempt is counted and the failure
/// kept; the next attempt comes after the backoff while attempts remain,
/// and once all `MAX_ATTEMPTS` have failed the request fails with the last
/// failure.
pub open spec fn retried(before: RetryState, after: RetryState, error: Seq<char>, r: AttemptAction) -> bool {
    &&& after.attempt == before.attempt + 1
    &&& after.last_error@ == error
    &&& after.attempt < MAX_ATTEMPTS ==> r == (AttemptAction::RetryAfter {
        secs: backoff_secs(after.attempt as nat)->0,
    })
    &&& after.attempt >= MAX_ATTEMPTS ==> (r matches AttemptAction::Fail {
        error: ProcessorError::LlmExhausted { attempts, source },
    } && attempts == MAX_ATTEMPTS && source@ == error)
}

/// A failure that ends the attempts at once: nothing more is counted, and
/// the request fails with the current attempt counted and this failure.
pub open spec fn gave_up(before: RetryState, after: RetryState, error: Seq<char>, r: AttemptAction) -> bool {
    &&& after == before
    &&& r matches AttemptAction::Fail { error: ProcessorError::LlmExhausted { attempts, source } }
        && attempts == before.attempt + 1 && source@ == error
}

impl RetryState {
    /// Count a failure that is retried, and say what comes next.
    fn retry_or_exhaust(&mut self, error: String) -> (r: AttemptAction)
        requires
            old(self).attempt < MAX_ATTEMPTS,
        ensures
            retried(*old(self), *final(self), error@, r),
    {
        self.failed(error);
        if self.may_attempt() {
            match self.delay_secs() {
                Some(secs) => AttemptAction::RetryAfter { secs },
                None => AttemptAction::RetryAfter { secs: 0 },
            }
        } else {
            AttemptAction::Fail {
                error: ProcessorError::LlmExhausted {
                    attempts: MAX_ATTEMPTS,
                    source: self.last_error.clone(),
                },
            }
        }
    }

    /// The decision on an event of an Ollama attempt: a failed send and a
    /// status to retry are retried; 400, 401 and 403 give up at once; a 2xx
    /// status reads the body; an unreadable body and a checked reply end
    /// the request.
    pub fn ollama_step(&mut self, event: OllamaEvent) -> (r: AttemptAction)
        requires
            old(self).attempt < MAX_ATTEMPTS,
        ensures
            match event {
                OllamaEvent::SendFailed { error } => retried(*old(self), *final(self), error@, r),
                OllamaEvent::Status { status } => match status_action(status) {
                    StatusAction::GiveUp => gave_up(
                        *old(self),
                        *final(self),
                        "HTTP "@ + decimal(status as nat) + " — not retrying"@,
                        r,
                    ),
                    StatusAction::Retry => retried(
                        *old(self),
                        *final(self),
                        "HTTP "@ + decimal(status as nat),
                        r,
                    ),
                    StatusAction::ReadBody => *final(self) == *old(self) && r
                        == AttemptAction::ReadBody,
                },
                OllamaEvent::BodyUnreadable { detail } => *final(self) == *old(self) && (r matches AttemptAction::Fail {
                    error: ProcessorError::InvalidResponse { reason },
                } && reason@ == "failed to parse Ollama response: "@ + detail@),
                OllamaEvent::Checked { result } => *final(self) == *old(self) && match result {
                    Ok(v) => r == (AttemptAction::Succeed { analyses: v }),
                    Err(e) => r == (AttemptAction::Fail { error: e }),
                },
            },
    {
        match event {
            OllamaEvent::SendFailed { error } => self.retry_or_exhaust(error),
            OllamaEvent::Status { status } => match ollama_status_action(status) {
                StatusAction::GiveUp => {
                    let error = self.give_up(http_status_final(status));
                    AttemptAction::Fail { error }
                },
                StatusAction::Retry => self.retry_or_exhaust(http_status_failure(status)),
                StatusAction::ReadBody => AttemptAction::ReadBody,
            },
            OllamaEvent::BodyUnreadable { detail } => AttemptAction::Fail {
                error: ollama_body_error(detail.as_str()),
            },
            OllamaEvent::Checked { result } => match result {
                Ok(analyses) => AttemptAction::Succeed { analyses },
                Err(error) => AttemptAction::Fail { error },
            },
        }
    }

    /// The decision on an event of an OpenAI attempt: a client error that
    /// mentions 400, 401 or 403 gives up at once, any other is retried; a
    /// reply without content ends the request; a reply that fails the
    /// checks is retried with its message; a reply that passes ends the
    /// request with its analyses.
    pub fn openai_step(&mut self, event: OpenAiEvent) -> (r: AttemptAction)
        requires
            old(self).attempt < MAX_ATTEMPTS,
        ensures
            match event {
                OpenAiEvent::ClientFailed { error } => if openai_error_is_final(error@) {
                    gave_up(*old(self), *final(self), error@, r)
                } else {
                    retried(*old(self), *final(self), error@, r)
                },
                OpenAiEvent::NoContent => *final(self) == *old(self) && (r matches AttemptAction::Fail {
                    error: ProcessorError::InvalidResponse { reason },
                } && reason@ == "OpenAI response has no content"@),
                OpenAiEvent::Checked { result } => match result {
                    Ok(v) => *final(self) == *old(self) && r == (AttemptAction::Succeed {
                        analyses: v,
                    }),
                    Err(e) => retried(*old(self), *final(self), error_text(e), r),
                },
            },
            event matches OpenAiEvent::ClientFailed { error } ==> ((contains(error@, "400"@)
                || contains(error@, "401"@) || contains(error@, "403"@)) ==> {
                &&& *final(self) == *old(self)
                &&& r matches AttemptAction::Fail {
                    error: ProcessorError::LlmExhausted { attempts, source },
                } && attempts == old(self).attempt + 1 && source@ == error@
            }),
    {
        match event {
            OpenAiEvent::ClientFailed { error } => {
                if openai_error_gives_up(error.as_str()) {
                    let error = self.give_up(error);
                    AttemptAction::Fail { error }
                } else {
                    self.retry_or_exhaust(error)
                }
            },
            OpenAiEvent::NoContent => AttemptAction::Fail { error: openai_no_content() },
            OpenAiEvent::Checked { result } => match result {
                Ok(analyses) => AttemptAction::Succeed { analyses },
                Err(e) => {
                    let text = e.message();
                    self.retry_or_exhaust(text)
                },
            },
        }
    }
}

/// Starting from no attempt, a run of failures may go on for at most
/// `MAX_ATTEMPTS` attempts, waiting 1 + 2 + 4 = 7 seconds in all.
pub proof fn lemma_backoff_total()
    ensures
        backoff_secs(0) is None,
        backoff_secs(1) == Some(1u64),
        backoff_secs(2) == Some(2u64),
        backoff_secs(3) == Some(4u64),
        MAX_ATTEMPTS == 4,
{
}

/// The text of a failed Ollama reply body.
pub fn ollama_body_error(detail: &str) -> (r: ProcessorError)
    ensures
        r matches ProcessorError::InvalidResponse { reason } && reason@
            == "failed to parse Ollama response: "@ + detail@,
{
    let mut m = String::from_str("failed to parse Ollama response: ");
    m.append(detail);
    ProcessorError::InvalidResponse { reason: m }
}

/// The error for an OpenAI reply without content.
pub fn openai_no_content() -> (r: ProcessorError)
    ensures
        r matches ProcessorError::InvalidResponse { reason } && reason@
            == "OpenAI response has no content"@,
{
    ProcessorError::InvalidResponse { reason: String::from_str("OpenAI response has no content") }
}

// ─── Requests ───────────────────────────────────────────────────────────────

/// The instructions sent to Ollama before the posts.
pub open spec fn ollama_prompt_head() -> Seq<char> {
    "You are a JSON API. Respond with ONLY a valid JSON array, no markdown, no explanation.\n\
     Analyze the following posts and return a JSON array where each element has:\n\
     - id: string (same as input)\n\
     - summary: string (1-2 sentences)\n\
     - tags: array of 1-7 lowercase keyword strings\n\
     - category: one of exactly: Technology, Business, Education, Entertainment, Travel, Personal, Other\n\
     - score: number between 0.0 and 1.0 (relevance/quality)\n\
     Output ONLY the JSON array, starting with [ and ending with ].\n\
     Posts: "@
}

/// The instructions sent to OpenAI before the posts.
pub open spec fn openai_prompt_head() -> Seq<char> {
    "You are a JSON API. Respond with ONLY a valid JSON array, no markdown, no explanation.\n\
     Analyze the following posts and return a JSON array where each element has:\n\
     - id: string (same as input)\n\
     - summary: string (1-2 sentences)\n\
     - tags: array of 1-7 keyword strings\n\
     - category: one of exactly: Technology, Business, Education, Entertainment, Travel, Personal, Other\n\
     - score: number between 0.0 and 1.0 (relevance/quality)\n\
     Output ONLY the JSON array, starting with [ and ending with ].\n\
     Posts: "@
}

/// The Ollama prompt for a batch whose items serialise to `items_json`.
pub fn ollama_prompt(items_json: &str) -> (r: String)
    ensures
        r@ == ollama_prompt_head() + items_json@,
{
    let mut m = String::from_str(
        "You are a JSON API. Respond with ONLY a valid JSON array, no markdown, no explanation.\n\
         Analyze the following posts and return a JSON array where each element has:\n\
         - id: string (same as input)\n\
         - summary: string (1-2 sentences)\n\
         - tags: array of 1-7 lowercase keyword strings\n\
         - category: one of exactly: Technology, Business, Education, Entertainment, Travel, Personal, Other\n\
         - score: number between 0.0 and 1.0 (relevance/quality)\n\
         Output ONLY the JSON array, starting with [ and ending with ].\n\
         Posts: ",
    );
    m.append(items_json);
    m
}

/// The OpenAI prompt for a batch whose items serialise to `items_json`.
pub fn openai_prompt(items_json: &str) -> (r: String)
    ensures
        r@ == openai_prompt_head() + items_json@,
{
    let mut m = String::from_str(
        "You are a JSON API. Respond with ONLY a valid JSON array, no markdown, no explanation.\n\
         Analyze the following posts and return a JSON array where each element has:\n\
         - id: string (same as input)\n\
         - summary: string (1-2 sentences)\n\
         - tags: array of 1-7 keyword strings\n\
         - category: one of exactly: Technology, Business, Education, Entertainment, Travel, Personal, Other\n\
         - score: number between 0.0 and 1.0 (relevance/quality)\n\
         Output ONLY the JSON array, starting with [ and ending with ].\n\
         Posts: ",
    );
    m.append(items_json);
    m
}

} // verus!
