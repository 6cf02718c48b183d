//! Import of J2Team Facebook exports: normalising records into posts,
//! identifying them by the SHA-1 of their link, and counting the outcome.

use vstd::prelude::*;
use crate::models::{PostStatus, RawPost};
use crate::text::{trim, trim_str};
use sha1::Digest;
use vstd::string::{StringExecFns, StringSliceAdditionalSpecFns};

verus! {

/// A record from the J2Team Facebook saved-posts export format.
#[derive(Clone, Debug)]
pub struct J2TeamRecord {
    pub title: Option<String>,
    pub link: Option<String>,
    pub image_url: Option<String>,
    pub category: Option<String>,
    pub post_type: Option<String>,
}

/// The lowercase hexadecimal digit for `0 <= d < 16`.
pub open spec fn hex_digit(d: int) -> char {
    if d < 10 {
        (48 + d) as char
    } else {
        (87 + d) as char
    }
}

/// Lowercase hexadecimal encoding, two digits per byte, high half first.
pub open spec fn hex_lower(bytes: Seq<u8>) -> Seq<char>
    decreases bytes.len(),
{
    if bytes.len() == 0 {
        seq![]
    } else {
        seq![hex_digit((bytes[0] / 16) as int), hex_digit((bytes[0] % 16) as int)] + hex_lower(bytes.drop_first())
    }
}

/// The SHA-1 digest of `data`.
pub uninterp spec fn sha1_digest(data: Seq<u8>) -> Seq<u8>;

/// The SHA-1 digest of `data` (`Digest::digest` of `sha1::Sha1`).  The
/// contract names the result and states that a digest is 20 bytes.
#[verifier::external_body]
fn sha1_bytes(data: &[u8]) -> (r: Vec<u8>)
    ensures
        r@ == sha1_digest(data@),
        r@.len() == 20,
{
    sha1::Sha1::digest(data).to_vec()
}

/// Lowercase hexadecimal encoding of `data` (`hex::encode`): for each byte
/// the digit of its high half, then that of its low half, from the table
/// "0123456789abcdef".
#[verifier::external_body]
fn hex_encode(data: &[u8]) -> (r: String)
    ensures
        r@ == hex_lower(data@),
{
    hex::encode(data)
}

/// Compute the SHA-1 hex digest of a string's UTF-8 bytes.
pub fn sha1_hex(input: &str) -> (r: String)
    ensures
        r@ == hex_lower(sha1_digest(input.spec_bytes())),
        r@.len() == 40,
{
    let digest = sha1_bytes(input.as_bytes());
    proof {
        lemma_hex_lower_len(digest@);
    }
    hex_encode(digest.as_slice())
}

/// The link of a record, if it has one that is not blank.
pub open spec fn usable_link(link: Option<String>) -> bool {
    link matches Some(l) && trim(l@).len() > 0
}

/// The post identifier derived from a link.
pub open spec fn post_id_for_link(link: Seq<char>) -> Seq<char> {
    hex_lower(sha1_digest(vstd::utf8::encode_utf8(link)))
}

/// Converts export records into posts.
pub struct Normalizer;

impl Normalizer {
    /// Convert a J2TeamRecord into a RawPost. Returns None if the link is
    /// empty, blank or absent.  The post's id is the SHA-1 hex digest of the
    /// link; the other fields are carried over, a missing title becomes
    /// empty, and the post starts pending.
    pub fn normalize(record: J2TeamRecord, dataset_id: &str) -> (r: Option<RawPost>)
        ensures
            r is None <==> !usable_link(record.link),
            r matches Some(p) ==> {
                &&& record.link matches Some(l) && p.link == l
                &&& p.id@ == post_id_for_link(p.link@)
                &&& p.dataset_id@ == dataset_id@
                &&& p.title@ == (match record.title {
                    Some(t) => t@,
                    None => Seq::<char>::empty(),
                })
                &&& p.image_url == record.image_url
                &&& p.category_raw == record.category
                &&& p.post_type == record.post_type
                &&& p.status == PostStatus::Pending
                &&& p.ignore_reason is None
            },
    {
        let link = match record.link {
            Some(l) => l,
            None => {
                return None;
            },
        };
        if trim_str(link.as_str()).is_empty() {
            return None;
        }
        let id = sha1_hex(link.as_str());
        let title = match record.title {
            Some(t) => t,
            None => String::new(),
        };
        Some(
            RawPost {
                id,
                dataset_id: String::from_str(dataset_id),
                title,
                link,
                image_url: record.image_url,
                category_raw: record.category,
                post_type: record.post_type,
                status: PostStatus::Pending,
                ignore_reason: None,
            },
        )
    }
}

/// Two records with the same link give posts with the same identifier, so
/// a re-import meets the posts of the first import under their ids.
pub proof fn lemma_post_id_depends_on_link_only(l1: Seq<char>, l2: Seq<char>)
    requires
        l1 == l2,
    ensures
        post_id_for_link(l1) == post_id_for_link(l2),
{
}

/// Hex encoding doubles the length.
pub proof fn lemma_hex_lower_len(bytes: Seq<u8>)
    ensures
        hex_lower(bytes).len() == 2 * bytes.len(),
    decreases bytes.len(),
{
    if bytes.len() > 0 {
        lemma_hex_lower_len(bytes.drop_first());
    }
}

/// What became of one record of an import.
#[derive(Clone, Copy, Debug, PartialEq, Eq, Structural)]
pub enum RecordOutcome {
    /// The record has no usable link and was skipped.
    NoLink,
    /// The post was new and was stored.
    Inserted,
    /// A post with the same id was already stored; the record was skipped.
    Duplicate,
}

/// Counts of an import run.
#[derive(Clone, Debug)]
pub struct ImportStats {
    pub parsed: usize,
    pub inserted: usize,
    pub skipped: usize,
}

/// How many of `outcomes` are insertions.
pub open spec fn count_inserted(outcomes: Seq<RecordOutcome>) -> nat
    decreases outcomes.len(),
{
    if outcomes.len() == 0 {
        0
    } else {
        count_inserted(outcomes.drop_last()) + if outcomes.last() == RecordOutcome::Inserted {
            1nat
        } else {
            0nat
        }
    }
}

proof fn lemma_count_inserted_bound(outcomes: Seq<RecordOutcome>)
    ensures
        count_inserted(outcomes) <= outcomes.len(),
    decreases outcomes.len(),
{
    if outcomes.len() > 0 {
        lemma_count_inserted_bound(outcomes.drop_last());
    }
}

impl ImportStats {
    /// The counts of an import whose records had the given outcomes: every
    /// record is parsed, the stored ones are inserted, all others skipped.
    pub fn tally(outcomes: &Vec<RecordOutcome>) -> (r: ImportStats)
        ensures
            r.parsed == outcomes@.len(),
            r.inserted == count_inserted(outcomes@),
            r.skipped == outcomes@.len() - count_inserted(outcomes@),
    {
        let mut inserted: usize = 0;
        let mut skipped: usize = 0;
        let mut i: usize = 0;
        while i < outcomes.len()
            invariant
                i <= outcomes@.len(),
                inserted == count_inserted(outcomes@.take(i as int)),
                inserted + skipped == i,
            decreases outcomes@.len() - i,
        {
            assert(outcomes@.take(i + 1).drop_last() =~= outcomes@.take(i as int));
            if outcomes[i] == RecordOutcome::Inserted {
                inserted = inserted + 1;
            } else {
                skipped = skipped + 1;
            }
            i = i + 1;
        }
        assert(outcomes@.take(i as int) =~= outcomes@);
        ImportStats { parsed: outcomes.len(), inserted, skipped }
    }
}

/// Every record of an import is counted once: parsed = inserted + skipped.
pub proof fn lemma_import_counts_add_up(outcomes: Seq<RecordOutcome>)
    ensures
        count_inserted(outcomes) + (outcomes.len() - count_inserted(outcomes)) == outcomes.len(),
        count_inserted(outcomes) <= outcomes.len(),
{
    lemma_count_inserted_bound(outcomes);
}

/// The UTF-8 byte order mark.
pub open spec fn utf8_bom() -> Seq<u8> {
    seq![0xEFu8, 0xBBu8, 0xBFu8]
}

/// `bytes` without a leading UTF-8 byte order mark, if it has one.
pub fn strip_utf8_bom(bytes: &[u8]) -> (r: &[u8])
    ensures
        bytes@.len() >= 3 && bytes@.take(3) == utf8_bom() ==> r@ == bytes@.skip(3),
        !(bytes@.len() >= 3 && bytes@.take(3) == utf8_bom()) ==> r@ == bytes@,
{
    if bytes.len() >= 3 && bytes[0] == 0xEF && bytes[1] == 0xBB && bytes[2] == 0xBF {
        assert(bytes@.take(3) =~= utf8_bom());
        let r = &bytes[3..bytes.len()];
        assert(r@ =~= bytes@.skip(3));
        r
    } else {
        proof {
            if bytes@.len() >= 3 && bytes@.take(3) == utf8_bom() {
                assert(bytes@.take(3)[0] == 0xEF);
                assert(bytes@.take(3)[1] == 0xBB);
                assert(bytes@.take(3)[2] == 0xBF);
            }
        }
        bytes
    }
}

/// The importer for Facebook saved posts exported by J2Team.
pub struct FacebookImporter;

} // verus!
