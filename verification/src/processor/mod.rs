//! Screening, batching and bookkeeping of a processing run.

pub mod filter;
pub mod llm_client;

use vstd::prelude::*;
use vstd::arithmetic::div_mod::{lemma_basic_div, lemma_div_plus_one};
use crate::config::ProcessingConfig;
use crate::models::{ProcessedPost, RawPost};
use crate::text::same_str;
use filter::{ContentFilter, FilterResult, verdict_of};
use llm_client::{LlmAnalysis, LlmBatchItem, item_view};
use vstd::string::StringExecFns;

verus! {

/// `s` cut into consecutive pieces of `b` items; the last piece may be
/// shorter.  With `b == 0` there are no pieces.
pub open spec fn chunked<T>(s: Seq<T>, b: nat) -> Seq<Seq<T>>
    decreases s.len(),
{
    if b == 0 || s.len() == 0 {
        Seq::empty()
    } else if s.len() <= b {
        seq![s]
    } else {
        seq![s.take(b as int)] + chunked(s.skip(b as int), b)
    }
}

/// The views of the vectors in `v`.
pub open spec fn vec_views<T>(v: Seq<Vec<T>>) -> Seq<Seq<T>> {
    v.map_values(|c: Vec<T>| c@)
}

/// Chunk a vector of items into batches of `batch_size`.
/// The last batch may be smaller than `batch_size`; a batch size of 0 gives
/// no batches.
pub fn chunk_posts<T: Clone>(posts: Vec<T>, batch_size: usize) -> (r: Vec<Vec<T>>)
    ensures
        vec_views(r@) == chunked(posts@, batch_size as nat),
{
    let mut result: Vec<Vec<T>> = Vec::new();
    if batch_size == 0 {
        assert(vec_views(result@) =~= Seq::<Seq<T>>::empty());
        return result;
    }
    let ghost all = posts@;
    let mut rest = posts;
    while rest.len() > batch_size
        invariant
            batch_size > 0,
            vec_views(result@) + chunked(rest@, batch_size as nat) == chunked(all, batch_size as nat),
        decreases rest@.len(),
    {
        let ghost before = rest@;
        let tail = rest.split_off(batch_size);
        assert(rest@ == before.take(batch_size as int));
        assert(tail@ == before.skip(batch_size as int));
        let ghost done = vec_views(result@);
        result.push(rest);
        assert(vec_views(result@) =~= done.push(before.take(batch_size as int)));
        assert(chunked(before, batch_size as nat) == seq![before.take(batch_size as int)]
            + chunked(tail@, batch_size as nat));
        assert(vec_views(result@) + chunked(tail@, batch_size as nat) =~= done + chunked(
            before,
            batch_size as nat,
        ));
        rest = tail;
    }
    if rest.len() > 0 {
        let ghost done = vec_views(result@);
        let ghost last = rest@;
        result.push(rest);
        assert(vec_views(result@) =~= done + seq![last]);
    } else {
        assert(chunked(rest@, batch_size as nat) =~= Seq::<Seq<T>>::empty());
        assert(vec_views(result@) + chunked(rest@, batch_size as nat) =~= vec_views(result@));
    }
    result
}

/// Batch sizes are respected: for a batch size `b > 0`, the batches of `n`
/// items are `ceil(n / b)` in number, together hold exactly the items in
/// order, each but the last holds `b` items, and the last holds between 1
/// and `b`.
pub proof fn lemma_chunked_shape<T>(s: Seq<T>, b: nat)
    requires
        b > 0,
    ensures
        chunked(s, b).flatten() == s,
        chunked(s, b).len() == (s.len() + b - 1) / (b as int),
        forall|i: int| 0 <= i < chunked(s, b).len() - 1 ==> #[trigger] chunked(s, b)[i].len() == b,
        chunked(s, b).len() > 0 ==> 1 <= chunked(s, b).last().len() <= b,
    decreases s.len(),
{
    if s.len() == 0 {
        lemma_basic_div(b - 1, b as int);
    } else if s.len() <= b {
        let c = chunked(s, b);
        assert(c.drop_first() =~= Seq::<Seq<T>>::empty());
        assert(Seq::<Seq<T>>::empty().flatten() =~= Seq::<T>::empty());
        assert(c.first() == s);
        assert(c.flatten() =~= s);
        lemma_basic_div(s.len() - 1, b as int);
        lemma_div_plus_one(s.len() - 1, b as int);
    } else {
        let rest = s.skip(b as int);
        lemma_chunked_shape(rest, b);
        let c = chunked(s, b);
        assert(c.drop_first() =~= chunked(rest, b));
        assert(c.flatten() =~= s.take(b as int) + chunked(rest, b).flatten());
        assert(s.take(b as int) + rest =~= s);
        lemma_div_plus_one(rest.len() + b - 1, b as int);
        assert(rest.len() + b - 1 + b == s.len() + b - 1);
        assert forall|i: int| 0 <= i < c.len() - 1 implies #[trigger] c[i].len() == b by {
            if i > 0 {
                assert(c[i] == chunked(rest, b)[i - 1]);
            }
        }
        assert(c.last() == chunked(rest, b).last());
    }
}

/// Counts of a processing run.
#[derive(Clone, Debug)]
pub struct ProcessStats {
    pub processed: usize,
    pub skipped: usize,
    pub ignored: usize,
}

impl ProcessStats {
    /// Nothing counted yet.
    pub fn new() -> (r: ProcessStats)
        ensures
            r.processed == 0,
            r.skipped == 0,
            r.ignored == 0,
    {
        ProcessStats { processed: 0, skipped: 0, ignored: 0 }
    }

    /// The counts of a run: the analyses stored are processed; the posts
    /// screened out and the posts of failed batches are ignored; nothing is
    /// skipped.
    pub fn of_run(screened_out: usize, outcomes: &Vec<BatchOutcome>) -> (r: ProcessStats)
        requires
            stored_total(outcomes@) <= usize::MAX,
            screened_out + failed_total(outcomes@) <= usize::MAX,
        ensures
            r.processed == stored_total(outcomes@),
            r.ignored == screened_out + failed_total(outcomes@),
            r.skipped == 0,
    {
        let mut stats = ProcessStats::new();
        stats.ignored = screened_out;
        let mut i: usize = 0;
        while i < outcomes.len()
            invariant
                i <= outcomes@.len(),
                stored_total(outcomes@) <= usize::MAX,
                screened_out + failed_total(outcomes@) <= usize::MAX,
                stats.processed == stored_total(outcomes@.take(i as int)),
                stats.ignored == screened_out + failed_total(outcomes@.take(i as int)),
                stats.skipped == 0,
            decreases outcomes@.len() - i,
        {
            assert(outcomes@.take(i + 1).drop_last() =~= outcomes@.take(i as int));
            proof {
                lemma_totals_grow(outcomes@, i + 1);
            }
            match outcomes[i] {
                BatchOutcome::Stored { count } => {
                    stats.processed = stats.processed + count;
                },
                BatchOutcome::Failed { count } => {
                    stats.ignored = stats.ignored + count;
                },
            }
            i = i + 1;
        }
        assert(outcomes@.take(outcomes@.len() as int) =~= outcomes@);
        stats
    }

    /// Count one post marked ignored.
    pub fn count_ignored(&mut self)
        requires
            old(self).ignored < usize::MAX,
        ensures
            final(self).ignored == old(self).ignored + 1,
            final(self).processed == old(self).processed,
            final(self).skipped == old(self).skipped,
    {
        self.ignored = self.ignored + 1;
    }

    /// Count one analysis stored.
    pub fn count_processed(&mut self)
        requires
            old(self).processed < usize::MAX,
        ensures
            final(self).processed == old(self).processed + 1,
            final(self).ignored == old(self).ignored,
            final(self).skipped == old(self).skipped,
    {
        self.processed = self.processed + 1;
    }
}

/// How one batch of a run ended.
#[derive(Clone, Copy, Debug, PartialEq, Eq, Structural)]
pub enum BatchOutcome {
    /// The request succeeded and this many analyses were stored.
    Stored { count: usize },
    /// The request failed and this many posts were marked ignored.
    Failed { count: usize },
}

/// The analyses stored over the batches.
pub open spec fn stored_total(o: Seq<BatchOutcome>) -> nat
    decreases o.len(),
{
    if o.len() == 0 {
        0
    } else {
        stored_total(o.drop_last()) + match o.last() {
            BatchOutcome::Stored { count } => count as nat,
            BatchOutcome::Failed { .. } => 0nat,
        }
    }
}

/// The posts of failed batches.
pub open spec fn failed_total(o: Seq<BatchOutcome>) -> nat
    decreases o.len(),
{
    if o.len() == 0 {
        0
    } else {
        failed_total(o.drop_last()) + match o.last() {
            BatchOutcome::Stored { .. } => 0nat,
            BatchOutcome::Failed { count } => count as nat,
        }
    }
}

/// The counts of a run add up batch by batch: a failed batch adds its
/// count to the ignored posts and nothing to the stored analyses; a stored
/// batch adds its count to the stored analyses and nothing to the ignored
/// posts; and the totals of two runs of batches one after the other are the
/// sums of their totals.
pub proof fn lemma_totals_add_up(a: Seq<BatchOutcome>, b: Seq<BatchOutcome>, c: usize)
    ensures
        failed_total(a.push(BatchOutcome::Failed { count: c })) == failed_total(a) + c,
        stored_total(a.push(BatchOutcome::Failed { count: c })) == stored_total(a),
        stored_total(a.push(BatchOutcome::Stored { count: c })) == stored_total(a) + c,
        failed_total(a.push(BatchOutcome::Stored { count: c })) == failed_total(a),
        failed_total(a + b) == failed_total(a) + failed_total(b),
        stored_total(a + b) == stored_total(a) + stored_total(b),
    decreases b.len(),
{
    assert(a.push(BatchOutcome::Failed { count: c }).drop_last() =~= a);
    assert(a.push(BatchOutcome::Stored { count: c }).drop_last() =~= a);
    if b.len() == 0 {
        assert(a + b =~= a);
    } else {
        lemma_totals_add_up(a, b.drop_last(), c);
        assert((a + b).drop_last() =~= a + b.drop_last());
        assert((a + b).last() == b.last());
    }
}

proof fn lemma_totals_grow(o: Seq<BatchOutcome>, i: int)
    requires
        0 <= i <= o.len(),
    ensures
        stored_total(o.take(i)) <= stored_total(o),
        failed_total(o.take(i)) <= failed_total(o),
    decreases o.len() - i,
{
    if i < o.len() {
        lemma_totals_grow(o, i + 1);
        assert(o.take(i + 1).drop_last() =~= o.take(i));
    } else {
        assert(o.take(i) =~= o);
    }
}

/// The posts a run works on: the first `max_items` when that is set (not
/// 0) and there are more; all of them otherwise.
pub open spec fn selected_posts(posts: Seq<RawPost>, max_items: nat) -> Seq<RawPost> {
    if max_items > 0 && posts.len() > max_items {
        posts.take(max_items as int)
    } else {
        posts
    }
}

/// The request item for a post: its id, and its title and link joined by a
/// space.
pub open spec fn item_of_post(p: RawPost) -> (Seq<char>, Seq<char>) {
    (p.id@, p.title@ + " "@ + p.link@)
}

/// The request items of the posts of `s` that pass the content rules, in
/// order.
pub open spec fn eligible_items(s: Seq<RawPost>, min: nat) -> Seq<(Seq<char>, Seq<char>)>
    decreases s.len(),
{
    if s.len() == 0 {
        Seq::empty()
    } else {
        eligible_items(s.drop_last(), min) + if verdict_of(s.last(), min) is None {
            seq![item_of_post(s.last())]
        } else {
            Seq::empty()
        }
    }
}

/// The id and reason of each post of `s` that the content rules ignore, in
/// order.
pub open spec fn ignored_entries(s: Seq<RawPost>, min: nat) -> Seq<(Seq<char>, Seq<char>)>
    decreases s.len(),
{
    if s.len() == 0 {
        Seq::empty()
    } else {
        ignored_entries(s.drop_last(), min) + match verdict_of(s.last(), min) {
            Some(reason) => seq![(s.last().id@, reason)],
            None => Seq::empty(),
        }
    }
}

/// A post that the content rules turned away, and why.
#[derive(Clone, Debug)]
pub struct IgnoredPost {
    pub post_id: String,
    pub reason: String,
}

/// The work of a run before any request: the posts to mark ignored, and the
/// batches of request items for the rest.
#[derive(Clone, Debug)]
pub struct ProcessPlan {
    pub ignored: Vec<IgnoredPost>,
    pub batches: Vec<Vec<LlmBatchItem>>,
}

/// The id and reason of each ignored post.
pub open spec fn ignored_view(v: Seq<IgnoredPost>) -> Seq<(Seq<char>, Seq<char>)> {
    v.map_values(|p: IgnoredPost| (p.post_id@, p.reason@))
}

/// The id and content of each item.
pub open spec fn items_view(v: Seq<LlmBatchItem>) -> Seq<(Seq<char>, Seq<char>)> {
    v.map_values(|it: LlmBatchItem| item_view(it))
}

/// The id and content of each item of each batch.
pub open spec fn batches_view(v: Seq<Vec<LlmBatchItem>>) -> Seq<Seq<(Seq<char>, Seq<char>)>> {
    v.map_values(|b: Vec<LlmBatchItem>| items_view(b@))
}

/// The request item for a post (`content` is the title, a space, the link).
pub fn batch_item(post: &RawPost) -> (r: LlmBatchItem)
    ensures
        item_view(r) == item_of_post(*post),
{
    let mut content = post.title.clone();
    content.append(" ");
    content.append(post.link.as_str());
    LlmBatchItem { id: post.id.clone(), content }
}

proof fn lemma_chunked_map<T>(s: Seq<T>, b: nat, f: spec_fn(T) -> (Seq<char>, Seq<char>))
    ensures
        chunked(s, b).map_values(|c: Seq<T>| c.map_values(f)) == chunked(s.map_values(f), b),
    decreases s.len(),
{
    let lhs = chunked(s, b).map_values(|c: Seq<T>| c.map_values(f));
    let rhs = chunked(s.map_values(f), b);
    if b == 0 || s.len() == 0 {
        assert(lhs =~= rhs);
    } else if s.len() <= b {
        assert(lhs =~= rhs);
    } else {
        lemma_chunked_map(s.skip(b as int), b, f);
        assert(s.map_values(f).take(b as int) =~= s.take(b as int).map_values(f));
        assert(s.map_values(f).skip(b as int) =~= s.skip(b as int).map_values(f));
        assert(lhs =~= rhs);
    }
}

/// Plan a processing run over the unprocessed posts: keep the first
/// `max_items` when that is set, sort out the posts that the content rules
/// ignore (with their reasons), and cut the request items of the rest into
/// batches of `batch_size`.
pub fn plan_processing(posts: &Vec<RawPost>, processing: &ProcessingConfig, batch_size: usize) -> (r: ProcessPlan)
    ensures
        ignored_view(r.ignored@) == ignored_entries(
            selected_posts(posts@, processing.max_items as nat),
            processing.min_content_length as nat,
        ),
        batches_view(r.batches@) == chunked(
            eligible_items(
                selected_posts(posts@, processing.max_items as nat),
                processing.min_content_length as nat,
            ),
            batch_size as nat,
        ),
{
    let min = processing.min_content_length;
    let limit = if processing.max_items > 0 && posts.len() > processing.max_items {
        processing.max_items
    } else {
        posts.len()
    };
    let ghost sel = selected_posts(posts@, processing.max_items as nat);
    assert(sel =~= posts@.take(limit as int));
    let mut ignored: Vec<IgnoredPost> = Vec::new();
    let mut items: Vec<LlmBatchItem> = Vec::new();
    let mut i: usize = 0;
    while i < limit
        invariant
            limit <= posts@.len(),
            sel == posts@.take(limit as int),
            i <= limit,
            ignored_view(ignored@) == ignored_entries(posts@.take(i as int), min as nat),
            items_view(items@) == eligible_items(posts@.take(i as int), min as nat),
        decreases limit - i,
    {
        let ghost prefix = posts@.take(i as int);
        let ghost next = posts@.take(i + 1);
        assert(next.drop_last() =~= prefix);
        assert(next.last() == posts@[i as int]);
        let ghost before_ignored = ignored@;
        let ghost before_items = items@;
        match ContentFilter::check(&posts[i], min) {
            FilterResult::Pass => {
                let item = batch_item(&posts[i]);
                items.push(item);
                assert(items_view(items@) =~= items_view(before_items) + seq![item_of_post(posts@[i as int])]);
                assert(ignored_view(ignored@) =~= ignored_view(before_ignored) + Seq::empty());
            },
            FilterResult::Ignore { reason } => {
                ignored.push(IgnoredPost { post_id: posts[i].id.clone(), reason });
                assert(ignored_view(ignored@) =~= ignored_view(before_ignored) + seq![
                    (posts@[i as int].id@, verdict_of(posts@[i as int], min as nat)->0)
                ]);
                assert(items_view(items@) =~= items_view(before_items) + Seq::empty());
            },
        }
        i = i + 1;
    }
    assert(posts@.take(limit as int) == sel);
    let ghost item_seq = items@;
    let batches = chunk_posts(items, batch_size);
    proof {
        lemma_chunked_map(item_seq, batch_size as nat, |it: LlmBatchItem| item_view(it));
        assert(batches_view(batches@) =~= vec_views(batches@).map_values(
            |c: Seq<LlmBatchItem>| c.map_values(|it: LlmBatchItem| item_view(it)),
        ));
    }
    ProcessPlan { ignored, batches }
}

/// Whether some item of the batch has the id `id`: analyses for any other
/// id are dropped, since no such post was asked about.
pub fn is_known_id(items: &Vec<LlmBatchItem>, id: &str) -> (r: bool)
    ensures
        r == exists|k: int| 0 <= k < items@.len() && (#[trigger] items@[k]).id@ == id@,
{
    let mut k: usize = 0;
    while k < items.len()
        invariant
            k <= items@.len(),
            forall|j: int| 0 <= j < k ==> (#[trigger] items@[j]).id@ != id@,
        decreases items@.len() - k,
    {
        if same_str(items[k].id.as_str(), id) {
            return true;
        }
        k = k + 1;
    }
    false
}

/// The stored record of an analysis, stamped with `processed_at`.
pub fn processed_post(analysis: LlmAnalysis, processed_at: String) -> (r: ProcessedPost)
    ensures
        r.post_id == analysis.id,
        r.summary == analysis.summary,
        r.tags == analysis.tags,
        r.category_ai == analysis.category,
        r.score == analysis.score,
        r.processed_at == processed_at,
{
    ProcessedPost {
        post_id: analysis.id,
        summary: analysis.summary,
        tags: analysis.tags,
        category_ai: analysis.category,
        score: analysis.score,
        processed_at,
    }
}

/// The stored record of an analysis, stamped with the current time as an
/// RFC 3339 UTC timestamp; `None` when the clock cannot be read as a time
/// after 1970.
pub fn stamp_analysis(analysis: LlmAnalysis) -> (r: Option<ProcessedPost>)
    ensures
        r matches Some(p) ==> {
            &&& crate::clock::is_utc_rfc3339(p.processed_at@)
            &&& p.post_id == analysis.id
            &&& p.summary == analysis.summary
            &&& p.tags == analysis.tags
            &&& p.category_ai == analysis.category
            &&& p.score == analysis.score
        },
{
    match crate::clock::utc_now_rfc3339() {
        Some(now) => Some(processed_post(analysis, now)),
        None => None,
    }
}

/// The reason recorded for the posts of a batch whose request failed.
pub fn llm_failure_reason() -> (r: String)
    ensures
        r@ == "llm_failure"@,
{
    String::from_str("llm_failure")
}

/// The posts to mark ignored when the request for a batch failed: every
/// item of the batch, in order, with the reason "llm_failure".
pub fn failed_batch_entries(items: &Vec<LlmBatchItem>) -> (r: Vec<IgnoredPost>)
    ensures
        ignored_view(r@) == items@.map_values(|it: LlmBatchItem| (it.id@, "llm_failure"@)),
{
    let mut out: Vec<IgnoredPost> = Vec::new();
    let mut k: usize = 0;
    while k < items.len()
        invariant
            k <= items@.len(),
            ignored_view(out@) == items@.take(k as int).map_values(
                |it: LlmBatchItem| (it.id@, "llm_failure"@),
            ),
        decreases items@.len() - k,
    {
        let ghost before = out@;
        out.push(IgnoredPost { post_id: items[k].id.clone(), reason: llm_failure_reason() });
        assert(ignored_view(out@) =~= ignored_view(before).push((items@[k as int].id@, "llm_failure"@)));
        assert(items@.take(k + 1) =~= items@.take(k as int).push(items@[k as int]));
        k = k + 1;
    }
    assert(items@.take(items@.len() as int) =~= items@);
    out
}

/// Screening sorts every post one way: each post is either ignored or
/// gives one request item.
pub proof fn lemma_screen_counts(s: Seq<RawPost>, min: nat)
    ensures
        ignored_entries(s, min).len() + eligible_items(s, min).len() == s.len(),
    decreases s.len(),
{
    if s.len() > 0 {
        lemma_screen_counts(s.drop_last(), min);
    }
}

/// A run accounts for every post it selects: each selected post is either
/// marked ignored or sent in exactly one batch, in order; `max_items`
/// (when set and exceeded) selects exactly that many posts; 0 selects all.
pub proof fn lemma_plan_covers_selection(posts: Seq<RawPost>, max_items: nat, min: nat, b: nat)
    requires
        b > 0,
    ensures
        ignored_entries(selected_posts(posts, max_items), min).len() + chunked(
            eligible_items(selected_posts(posts, max_items), min),
            b,
        ).flatten().len() == selected_posts(posts, max_items).len(),
        max_items > 0 && posts.len() > max_items ==> selected_posts(posts, max_items).len()
            == max_items,
        !(max_items > 0 && posts.len() > max_items) ==> selected_posts(posts, max_items) == posts,
{
    let sel = selected_posts(posts, max_items);
    lemma_screen_counts(sel, min);
    lemma_chunked_shape(eligible_items(sel, min), b);
}

/// The id of `a` belongs to an item of the batch.
pub open spec fn id_in_batch(items: Seq<LlmBatchItem>, id: Seq<char>) -> bool {
    exists|k: int| 0 <= k < items.len() && (#[trigger] items[k]).id@ == id
}

/// The analyses of a reply that answer an item of the batch, in order;
/// analyses for any other id are dropped, since no such post was asked
/// about and storing them would break the link to the posts table.
pub fn accepted_analyses(items: &Vec<LlmBatchItem>, analyses: Vec<LlmAnalysis>) -> (r: Vec<LlmAnalysis>)
    ensures
        r@ == analyses@.filter(|a: LlmAnalysis| id_in_batch(items@, a.id@)),
{
    let ghost all = analyses@;
    let n = analyses.len();
    let mut pending = llm_client::reversed(analyses);
    let mut out: Vec<LlmAnalysis> = Vec::new();
    let mut i: usize = 0;
    while i < n
        invariant
            n == all.len(),
            i <= n,
            pending@.len() == n - i,
            forall|k: int| 0 <= k < pending@.len() ==> #[trigger] pending@[k] == all[n - 1 - k],
            out@ == all.take(i as int).filter(|a: LlmAnalysis| id_in_batch(items@, a.id@)),
        decreases n - i,
    {
        let a = pending.pop().unwrap();
        assert(a == all[i as int]);
        assert(all.take(i + 1).drop_last() =~= all.take(i as int));
        let known = is_known_id(items, a.id.as_str());
        if known {
            out.push(a);
        }
        proof {
            reveal_with_fuel(Seq::filter, 1);
        }
        i = i + 1;
    }
    assert(all.take(n as int) =~= all);
    out
}

} // verus!
