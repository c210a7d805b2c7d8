//! The backfill worker's logic: paging the upstream repo listing, turning
//! pages into `(subject, rkey)` pairs, batching them for the bulk follow
//! write, and remembering which identities were already backfilled.
use vstd::prelude::*;
use vstd::string::StringExecFns;
use crate::store::StrSet;
use crate::util::parse_rkey;
use crate::util::spec_parse_rkey;

verus! {

/// How many follow rows go into one bulk write.
pub const BATCH_SIZE: usize = 60;

/// The collection paged for follows.
pub const FOLLOW_COLLECTION: &'static str = "app.bsky.graph.follow";

/// The collection paged for blocks.
pub const BLOCK_COLLECTION: &'static str = "app.bsky.graph.block";

/// One record of a listing page, reduced to the fields the worker reads.
pub struct RepoRecord {
    /// The record's own AT-URI; its final 13 characters are the edge key.
    pub uri: String,
    /// The DID the record points at.
    pub subject: String,
}

/// The listing URL for one page: the fixed endpoint, the repo, the
/// collection, the page limit, and the cursor when one is handed on.
pub open spec fn spec_list_records_url(
    did: Seq<char>,
    collection: Seq<char>,
    cursor: Option<Seq<char>>,
) -> Seq<char> {
    let base = "https://bsky.social/xrpc/com.atproto.repo.listRecords?repo="@ + did
        + "&collection="@ + collection + "&limit=100"@;
    match cursor {
        Some(c) => base + "&cursor="@ + c,
        None => base,
    }
}

/// Build the listing URL for one page.
pub fn list_records_url(did: &str, collection: &str, cursor: Option<&String>) -> (r: String)
    ensures
        r@ == spec_list_records_url(
            did@,
            collection@,
            match cursor {
                Some(c) => Some(c@),
                None => None,
            },
        ),
{
    let mut s = String::from_str("https://bsky.social/xrpc/com.atproto.repo.listRecords?repo=");
    s.append(did);
    s.append("&collection=");
    s.append(collection);
    s.append("&limit=100");
    match cursor {
        Some(c) => {
            s.append("&cursor=");
            s.append(c.as_str());
            proof {
                assert(s@ =~= spec_list_records_url(did@, collection@, Some(c@)));
            }
        },
        None => {
            proof {
                assert(s@ =~= spec_list_records_url(did@, collection@, None));
            }
        },
    }
    s
}

/// The paging walk for one identity and collection. The cursor names the
/// page to fetch next; a failed fetch or parse asks the same page again
/// (the state does not move), a parsed page with a cursor advances to it,
/// and a parsed page without one ends the walk.
pub struct Pager {
    pub did: String,
    pub collection: String,
    pub cursor: Option<String>,
}

impl Pager {
    /// Start at the first page of one identity's collection.
    pub fn new(did: String, collection: String) -> (r: Pager)
        ensures
            r.did == did,
            r.collection == collection,
            r.cursor is None,
    {
        Pager { did, collection, cursor: None }
    }

    /// The URL of the page to fetch now. Retrying after a failure is
    /// calling this again without advancing: the same URL comes back.
    pub fn current_url(&self) -> (r: String)
        ensures
            r@ == spec_list_records_url(
                self.did@,
                self.collection@,
                match self.cursor {
                    Some(c) => Some(c@),
                    None => None,
                },
            ),
    {
        list_records_url(self.did.as_str(), self.collection.as_str(), self.cursor.as_ref())
    }

    /// Consume one parsed page's cursor: a present cursor names the next
    /// page, an absent one ends the walk.
    pub fn advance(&mut self, next_cursor: Option<String>) -> (done: bool)
        ensures
            done == (next_cursor is None),
            final(self).did == old(self).did,
            final(self).collection == old(self).collection,
            final(self).cursor == next_cursor,
    {
        let done = next_cursor.is_none();
        self.cursor = next_cursor;
        done
    }
}

/// Append one page's records to the collected pairs: each record yields
/// its subject and the record key of its URI, in page order.
pub fn collect_page(out: &mut Vec<(String, String)>, records: &Vec<RepoRecord>)
    ensures
        final(out)@.len() == old(out)@.len() + records@.len(),
        forall|i: int| 0 <= i < old(out)@.len() ==> final(out)@[i] == old(out)@[i],
        forall|i: int| 0 <= i < records@.len() ==> {
            &&& (#[trigger] final(out)@[old(out)@.len() + i]).0@ == records@[i].subject@
            &&& final(out)@[old(out)@.len() + i].1@ == spec_parse_rkey(records@[i].uri@)
        },
{
    let mut i: usize = 0;
    while i < records.len()
        invariant
            i <= records@.len(),
            out@.len() == old(out)@.len() + i,
            forall|j: int| 0 <= j < old(out)@.len() ==> out@[j] == old(out)@[j],
            forall|j: int| 0 <= j < i ==> {
                &&& (#[trigger] out@[old(out)@.len() + j]).0@ == records@[j].subject@
                &&& out@[old(out)@.len() + j].1@ == spec_parse_rkey(records@[j].uri@)
            },
        decreases records@.len() - i,
    {
        let rec = &records[i];
        let rkey = parse_rkey(rec.uri.as_str());
        out.push((rec.subject.clone(), rkey));
        i += 1;
    }
}

/// One row of a bulk edge write: the subject DID, the requesting
/// identity, and the edge's record key. The block backfill shares this
/// shape and the batching below.
pub struct FollowRow {
    pub out: String,
    pub did: String,
    pub rkey: String,
}

/// Split the collected pairs for one identity into bulk-write batches: in
/// order, each batch holds at most 60 rows, every batch but the last holds
/// exactly 60, and row `j` of batch `c` carries pair `60 * c + j`.
pub fn chunk_follow_rows(did: &str, pairs: &Vec<(String, String)>) -> (r: Vec<Vec<FollowRow>>)
    ensures
        pairs@.len() == 0 ==> r@.len() == 0,
        pairs@.len() > 0 ==> 60 * (r@.len() - 1) < pairs@.len() <= 60 * r@.len(),
        forall|c: int| 0 <= c < r@.len() ==> #[trigger] r@[c]@.len() == (
            if 60 * (c + 1) <= pairs@.len() {
                60int
            } else {
                pairs@.len() - 60 * c
            }),
        forall|c: int, j: int| 0 <= c < r@.len() && 0 <= j < r@[c]@.len() ==> {
            &&& 0 <= 60 * c + j < pairs@.len()
            &&& (#[trigger] r@[c]@[j]).out@ == pairs@[60 * c + j].0@
            &&& r@[c]@[j].did@ == did@
            &&& r@[c]@[j].rkey@ == pairs@[60 * c + j].1@
        },
{
    let mut r: Vec<Vec<FollowRow>> = Vec::new();
    let mut start: usize = 0;
    while start < pairs.len()
        invariant
            start <= pairs@.len(),
            start == 60 * r@.len() || (start == pairs@.len() && pairs@.len() <= 60 * r@.len()),
            pairs@.len() > 0 && r@.len() > 0 ==> 60 * (r@.len() - 1) < start,
            r@.len() == 0 <==> start == 0,
            forall|c: int| 0 <= c < r@.len() ==> #[trigger] r@[c]@.len() == (
                if 60 * (c + 1) <= start {
                    60int
                } else {
                    start - 60 * c
                }),
            forall|c: int, j: int| 0 <= c < r@.len() && 0 <= j < r@[c]@.len() ==> {
                &&& 0 <= 60 * c + j < pairs@.len()
                &&& (#[trigger] r@[c]@[j]).out@ == pairs@[60 * c + j].0@
                &&& r@[c]@[j].did@ == did@
                &&& r@[c]@[j].rkey@ == pairs@[60 * c + j].1@
            },
        decreases pairs@.len() - start,
    {
        let remaining = pairs.len() - start;
        let size = if remaining < BATCH_SIZE {
            remaining
        } else {
            BATCH_SIZE
        };
        let mut cur: Vec<FollowRow> = Vec::new();
        let mut j: usize = 0;
        while j < size
            invariant
                j <= size,
                size >= 1,
                start + size <= pairs@.len(),
                pairs@.len() <= usize::MAX as int,
                cur@.len() == j as int,
                forall|jj: int| 0 <= jj < j ==> {
                    &&& (#[trigger] cur@[jj]).out@ == pairs@[start + jj].0@
                    &&& cur@[jj].did@ == did@
                    &&& cur@[jj].rkey@ == pairs@[start + jj].1@
                },
            decreases size - j,
        {
            let p = &pairs[start + j];
            cur.push(FollowRow { out: p.0.clone(), did: did.to_owned(), rkey: p.1.clone() });
            j += 1;
        }
        let ghost old_r = r@;
        r.push(cur);
        start = start + size;
        proof {
            assert(r@.len() == old_r.len() + 1);
            assert(forall|c: int| 0 <= c < old_r.len() ==> r@[c] == old_r[c]);
        }
    }
    r
}

/// Which identities were already backfilled this run; process-local.
pub struct SeenSet {
    seen: StrSet,
}

impl SeenSet {
    /// The set of identities marked seen.
    pub closed spec fn view(&self) -> Set<Seq<char>> {
        self.seen@
    }

    /// An empty memory: nothing was backfilled yet.
    pub fn new() -> (r: SeenSet)
        ensures
            r@ == Set::<Seq<char>>::empty(),
    {
        SeenSet { seen: StrSet::new() }
    }

    /// Whether a request for this identity still needs work.
    pub fn needs_backfill(&self, did: &str) -> (r: bool)
        ensures
            r == !self@.contains(did@),
    {
        !self.seen.contains(did)
    }

    /// Remember that this identity was backfilled.
    pub fn mark_seen(&mut self, did: String)
        ensures
            final(self)@ == old(self)@.insert(did@),
    {
        self.seen.insert(did);
    }
}

} // verus!
