//! The event classifier: spam and staleness filtering, operation and
//! collection dispatch, and the typed mutation each event produces.
use vstd::prelude::*;
use vstd::string::StrSliceExecFns;
use crate::event::BskyEvent;
use crate::event::BskyEventV;
use crate::event::CommitV;
use crate::event::RecordV;
use crate::event::Subject;
use crate::event::SubjectV;
use crate::event::get_rkey;
use crate::event::spec_get_rkey;
use crate::text::str_eq;
use crate::util::parse_rkey;
use crate::util::spec_parse_rkey;

verus! {

/// Records whose `createdAt` lies more than this many microseconds in the
/// past are dropped on create: 24 hours.
pub const STALE_US: i64 = 86400000000;

/// A typed mutation request for the graph, the classifier's whole output.
pub enum Mutation {
    /// Insert a post; when `parent_rkey` is set the post is a reply and the
    /// reply edge is connected first.
    AddPost {
        did: String,
        rkey: String,
        created_at: i64,
        is_reply: bool,
        is_image: bool,
        parent_rkey: Option<String>,
    },
    AddRepost { did: String, target_rkey: String, rkey: String },
    AddLike { did: String, target_rkey: String, rkey: String },
    AddFollow { did: String, subject: String, rkey: String },
    /// The blockee is the record's subject; the blocker is the event's DID.
    AddBlock { blockee: String, blocker: String, rkey: String },
    RmPost { did: String, rkey: String },
    RmRepost { did: String, rkey: String },
    RmLike { did: String, rkey: String },
    RmFollow { did: String, rkey: String },
    RmBlock { did: String, rkey: String },
}

/// Mathematical image of `Mutation`.
pub enum MutationV {
    AddPost {
        did: Seq<char>,
        rkey: Seq<char>,
        created_at: int,
        is_reply: bool,
        is_image: bool,
        parent_rkey: Option<Seq<char>>,
    },
    AddRepost { did: Seq<char>, target_rkey: Seq<char>, rkey: Seq<char> },
    AddLike { did: Seq<char>, target_rkey: Seq<char>, rkey: Seq<char> },
    AddFollow { did: Seq<char>, subject: Seq<char>, rkey: Seq<char> },
    AddBlock { blockee: Seq<char>, blocker: Seq<char>, rkey: Seq<char> },
    RmPost { did: Seq<char>, rkey: Seq<char> },
    RmRepost { did: Seq<char>, rkey: Seq<char> },
    RmLike { did: Seq<char>, rkey: Seq<char> },
    RmFollow { did: Seq<char>, rkey: Seq<char> },
    RmBlock { did: Seq<char>, rkey: Seq<char> },
}

impl View for Mutation {
    type V = MutationV;

    open spec fn view(&self) -> MutationV {
        match self {
            Mutation::AddPost { did, rkey, created_at, is_reply, is_image, parent_rkey } => {
                MutationV::AddPost {
                    did: did@,
                    rkey: rkey@,
                    created_at: *created_at as int,
                    is_reply: *is_reply,
                    is_image: *is_image,
                    parent_rkey: match parent_rkey {
                        Some(p) => Some(p@),
                        None => None,
                    },
                }
            },
            Mutation::AddRepost { did, target_rkey, rkey } => {
                MutationV::AddRepost { did: did@, target_rkey: target_rkey@, rkey: rkey@ }
            },
            Mutation::AddLike { did, target_rkey, rkey } => {
                MutationV::AddLike { did: did@, target_rkey: target_rkey@, rkey: rkey@ }
            },
            Mutation::AddFollow { did, subject, rkey } => {
                MutationV::AddFollow { did: did@, subject: subject@, rkey: rkey@ }
            },
            Mutation::AddBlock { blockee, blocker, rkey } => {
                MutationV::AddBlock { blockee: blockee@, blocker: blocker@, rkey: rkey@ }
            },
            Mutation::RmPost { did, rkey } => MutationV::RmPost { did: did@, rkey: rkey@ },
            Mutation::RmRepost { did, rkey } => MutationV::RmRepost { did: did@, rkey: rkey@ },
            Mutation::RmLike { did, rkey } => MutationV::RmLike { did: did@, rkey: rkey@ },
            Mutation::RmFollow { did, rkey } => MutationV::RmFollow { did: did@, rkey: rkey@ },
            Mutation::RmBlock { did, rkey } => MutationV::RmBlock { did: did@, rkey: rkey@ },
        }
    }
}

/// The view of an optional mutation.
pub open spec fn opt_mutation_view(m: Option<Mutation>) -> Option<MutationV> {
    match m {
        Some(m) => Some(m@),
        None => None,
    }
}

/// The hard-coded spam identities: events from these DIDs are dropped
/// before any mutation.
pub open spec fn spec_is_spam(did: Seq<char>) -> bool {
    ||| did == "did:plc:xdx2v7gyd5dmfqt7v77gf457"@
    ||| did == "did:plc:a56vfzkrxo2bh443zgjxr4ix"@
    ||| did == "did:plc:cov6pwd7ajm2wgkrgbpej2f3"@
    ||| did == "did:plc:fcnbisw7xl6lmtcnvioocffz"@
    ||| did == "did:plc:ss7fj6p6yfirwq2hnlkfuntt"@
}

/// Decide membership in the spam set.
pub fn is_spam(did: &str) -> (r: bool)
    ensures
        r == spec_is_spam(did@),
{
    str_eq(did, "did:plc:xdx2v7gyd5dmfqt7v77gf457")
        || str_eq(did, "did:plc:a56vfzkrxo2bh443zgjxr4ix")
        || str_eq(did, "did:plc:cov6pwd7ajm2wgkrgbpej2f3")
        || str_eq(did, "did:plc:fcnbisw7xl6lmtcnvioocffz")
        || str_eq(did, "did:plc:ss7fj6p6yfirwq2hnlkfuntt")
}

/// A difference clamped into the `i64` range.
pub open spec fn spec_clamp_i64(d: int) -> int {
    if d > i64::MAX as int {
        i64::MAX as int
    } else if d < i64::MIN as int {
        i64::MIN as int
    } else {
        d
    }
}

/// The arrival lag in milliseconds: the clamped difference of the two
/// stamps, divided by 1000 with truncation toward zero.
pub open spec fn spec_drift_ms(now: int, t: int) -> int {
    let d = spec_clamp_i64(now - t);
    if d >= 0 {
        d / 1000
    } else {
        -((-d) / 1000)
    }
}

/// Compute the arrival lag of an event in milliseconds.
pub fn drift_ms(now: i64, t: i64) -> (r: i64)
    ensures
        r as int == spec_drift_ms(now as int, t as int),
{
    let d: i128 = now as i128 - t as i128;
    let dc: i128 = if d > i64::MAX as i128 {
        i64::MAX as i128
    } else if d < i64::MIN as i128 {
        i64::MIN as i128
    } else {
        d
    };
    if dc >= 0 {
        let q: u64 = (dc as u64) / 1000;
        q as i64
    } else {
        let m: u64 = (-dc) as u64;
        let q: u64 = m / 1000;
        -(q as i64)
    }
}

/// What `chrono::DateTime::parse_from_rfc3339` followed by
/// `timestamp_micros` yields for a text: the instant in microseconds since
/// the Unix epoch, or nothing when the text is not a valid RFC-3339 stamp.
pub uninterp spec fn rfc3339_micros(s: Seq<char>) -> Option<i64>;

/// Relies on chrono's `DateTime::parse_from_rfc3339` and
/// `DateTime::<FixedOffset>::timestamp_micros`: both are pure functions of
/// the text, so the outcome depends on its characters alone.
#[verifier::external_body]
fn parse_created_at(s: &str) -> (r: Option<i64>)
    ensures
        r == rfc3339_micros(s@),
{
    match chrono::DateTime::parse_from_rfc3339(s) {
        Ok(t) => Some(t.timestamp_micros()),
        Err(_) => None,
    }
}

/// What a create-post commit produces: the drift and at most one
/// `AddPost` mutation, or nothing when the record is stale.
pub open spec fn spec_classify_post(
    did: Seq<char>,
    rkey: Seq<char>,
    record: Option<RecordV>,
    time_us: int,
    now: int,
    drift: int,
) -> (int, Option<MutationV>) {
    match record {
        Some(r) => {
            let created_at = match rfc3339_micros(r.created_at) {
                Some(t) => t as int,
                None => time_us,
            };
            if rfc3339_micros(r.created_at) is Some && now - created_at > STALE_US as int {
                (0, None)
            } else {
                match r.reply_parent_uri {
                    Some(uri) => (
                        drift,
                        Some(MutationV::AddPost {
                            did,
                            rkey,
                            created_at,
                            is_reply: true,
                            is_image: r.has_images,
                            parent_rkey: Some(spec_parse_rkey(uri)),
                        }),
                    ),
                    None => (
                        drift,
                        Some(MutationV::AddPost {
                            did,
                            rkey,
                            created_at,
                            is_reply: false,
                            is_image: r.has_images,
                            parent_rkey: None,
                        }),
                    ),
                }
            }
        },
        None => (
            drift,
            Some(MutationV::AddPost {
                did,
                rkey,
                created_at: 0,
                is_reply: false,
                is_image: false,
                parent_rkey: None,
            }),
        ),
    }
}

/// The DID a follow or block commit points at, when its subject has the
/// DID shape; unknown shapes yield nothing.
pub open spec fn spec_subject_did(record: Option<RecordV>) -> Option<Seq<char>> {
    match record {
        Some(r) => match r.subject {
            Some(SubjectV::Did(s)) => Some(s),
            _ => None,
        },
        None => None,
    }
}

/// What a create commit produces, by collection.
pub open spec fn spec_classify_create(
    did: Seq<char>,
    c: CommitV,
    time_us: int,
    now: int,
    drift: int,
) -> (int, Option<MutationV>) {
    if c.collection == "app.bsky.feed.post"@ {
        spec_classify_post(did, c.rkey, c.record, time_us, now, drift)
    } else if c.collection == "app.bsky.feed.repost"@ {
        let target = spec_get_rkey(c);
        if target.len() == 0 {
            (0, None)
        } else {
            (drift, Some(MutationV::AddRepost { did, target_rkey: target, rkey: c.rkey }))
        }
    } else if c.collection == "app.bsky.feed.like"@ {
        let target = spec_get_rkey(c);
        if target.len() == 0 {
            (0, None)
        } else {
            (drift, Some(MutationV::AddLike { did, target_rkey: target, rkey: c.rkey }))
        }
    } else if c.collection == "app.bsky.graph.follow"@ {
        match spec_subject_did(c.record) {
            Some(s) => if s.len() == 0 {
                (0, None)
            } else {
                (drift, Some(MutationV::AddFollow { did, subject: s, rkey: c.rkey }))
            },
            None => (0, None),
        }
    } else if c.collection == "app.bsky.graph.block"@ {
        match spec_subject_did(c.record) {
            Some(s) => if s.len() == 0 {
                (0, None)
            } else {
                (drift, Some(MutationV::AddBlock { blockee: s, blocker: did, rkey: c.rkey }))
            },
            None => (0, None),
        }
    } else {
        (0, None)
    }
}

/// What a delete commit produces, by collection.
pub open spec fn spec_classify_delete(
    did: Seq<char>,
    c: CommitV,
    drift: int,
) -> (int, Option<MutationV>) {
    if c.collection == "app.bsky.feed.post"@ {
        (drift, Some(MutationV::RmPost { did, rkey: c.rkey }))
    } else if c.collection == "app.bsky.feed.repost"@ {
        (drift, Some(MutationV::RmRepost { did, rkey: c.rkey }))
    } else if c.collection == "app.bsky.feed.like"@ {
        (drift, Some(MutationV::RmLike { did, rkey: c.rkey }))
    } else if c.collection == "app.bsky.graph.follow"@ {
        (drift, Some(MutationV::RmFollow { did, rkey: c.rkey }))
    } else if c.collection == "app.bsky.graph.block"@ {
        (drift, Some(MutationV::RmBlock { did, rkey: c.rkey }))
    } else {
        (0, None)
    }
}

/// The classifier: the drift sample and the at most one mutation that an
/// event produces, given the current wall clock in microseconds.
pub open spec fn spec_classify(e: BskyEventV, now: int) -> (int, Option<MutationV>) {
    if spec_is_spam(e.did) {
        (0, None)
    } else {
        match e.commit {
            None => (0, None),
            Some(c) => {
                let drift = spec_drift_ms(now, e.time_us);
                if c.operation == "create"@ {
                    spec_classify_create(e.did, c, e.time_us, now, drift)
                } else if c.operation == "delete"@ {
                    spec_classify_delete(e.did, c, drift)
                } else {
                    (0, None)
                }
            },
        }
    }
}

/// Classify one decoded event against the current wall clock.
///
/// Spam identities, absent commits, unknown operations and collections,
/// stale creates, and malformed subjects all yield no mutation and a zero
/// drift sample; every dispatched event yields its arrival lag and exactly
/// the mutation `spec_classify` names.
pub fn classify_event(evt: &BskyEvent, now_us: i64) -> (r: (i64, Option<Mutation>))
    ensures
        r.0 as int == spec_classify(evt@, now_us as int).0,
        opt_mutation_view(r.1) == spec_classify(evt@, now_us as int).1,
{
    if is_spam(evt.did.as_str()) {
        return (0, None);
    }
    let commit = match &evt.commit {
        Some(c) => c,
        None => {
            return (0, None);
        },
    };
    let drift = drift_ms(now_us, evt.time_us);
    if str_eq(commit.operation.as_str(), "create") {
        if str_eq(commit.collection.as_str(), "app.bsky.feed.post") {
            let (created_at, stale, is_image) = match &commit.record {
                Some(r) => {
                    let (c, stale) = match parse_created_at(r.created_at.as_str()) {
                        Some(t) => {
                            let age: i128 = now_us as i128 - t as i128;
                            (t, age > STALE_US as i128)
                        },
                        None => (evt.time_us, false),
                    };
                    (c, stale, r.has_images)
                },
                None => (0i64, false, false),
            };
            if stale {
                return (0, None);
            }
            let parent_rkey = match &commit.record {
                Some(r) => match &r.reply_parent_uri {
                    Some(uri) => Some(parse_rkey(uri.as_str())),
                    None => None,
                },
                None => None,
            };
            let is_reply = parent_rkey.is_some();
            return (
                drift,
                Some(Mutation::AddPost {
                    did: evt.did.clone(),
                    rkey: commit.rkey.clone(),
                    created_at,
                    is_reply,
                    is_image,
                    parent_rkey,
                }),
            );
        } else if str_eq(commit.collection.as_str(), "app.bsky.feed.repost") {
            let target = get_rkey(commit);
            if target.as_str().is_empty() {
                return (0, None);
            }
            return (
                drift,
                Some(Mutation::AddRepost {
                    did: evt.did.clone(),
                    target_rkey: target,
                    rkey: commit.rkey.clone(),
                }),
            );
        } else if str_eq(commit.collection.as_str(), "app.bsky.feed.like") {
            let target = get_rkey(commit);
            if target.as_str().is_empty() {
                return (0, None);
            }
            return (
                drift,
                Some(Mutation::AddLike {
                    did: evt.did.clone(),
                    target_rkey: target,
                    rkey: commit.rkey.clone(),
                }),
            );
        } else if str_eq(commit.collection.as_str(), "app.bsky.graph.follow") {
            let subject = match &commit.record {
                Some(r) => match &r.subject {
                    Some(Subject::Did(s)) => Some(s.clone()),
                    _ => None,
                },
                None => None,
            };
            match subject {
                Some(s) => {
                    if s.as_str().is_empty() {
                        return (0, None);
                    }
                    return (
                        drift,
                        Some(Mutation::AddFollow {
                            did: evt.did.clone(),
                            subject: s,
                            rkey: commit.rkey.clone(),
                        }),
                    );
                },
                None => {
                    return (0, None);
                },
            }
        } else if str_eq(commit.collection.as_str(), "app.bsky.graph.block") {
            let subject = match &commit.record {
                Some(r) => match &r.subject {
                    Some(Subject::Did(s)) => Some(s.clone()),
                    _ => None,
                },
                None => None,
            };
            match subject {
                Some(s) => {
                    if s.as_str().is_empty() {
                        return (0, None);
                    }
                    return (
                        drift,
                        Some(Mutation::AddBlock {
                            blockee: s,
                            blocker: evt.did.clone(),
                            rkey: commit.rkey.clone(),
                        }),
                    );
                },
                None => {
                    return (0, None);
                },
            }
        } else {
            return (0, None);
        }
    } else if str_eq(commit.operation.as_str(), "delete") {
        if str_eq(commit.collection.as_str(), "app.bsky.feed.post") {
            return (
                drift,
                Some(Mutation::RmPost { did: evt.did.clone(), rkey: commit.rkey.clone() }),
            );
        } else if str_eq(commit.collection.as_str(), "app.bsky.feed.repost") {
            return (
                drift,
                Some(Mutation::RmRepost { did: evt.did.clone(), rkey: commit.rkey.clone() }),
            );
        } else if str_eq(commit.collection.as_str(), "app.bsky.feed.like") {
            return (
                drift,
                Some(Mutation::RmLike { did: evt.did.clone(), rkey: commit.rkey.clone() }),
            );
        } else if str_eq(commit.collection.as_str(), "app.bsky.graph.follow") {
            return (
                drift,
                Some(Mutation::RmFollow { did: evt.did.clone(), rkey: commit.rkey.clone() }),
            );
        } else if str_eq(commit.collection.as_str(), "app.bsky.graph.block") {
            return (
                drift,
                Some(Mutation::RmBlock { did: evt.did.clone(), rkey: commit.rkey.clone() }),
            );
        } else {
            return (0, None);
        }
    } else {
        return (0, None);
    }
}

/// No event from a spam identity produces a mutation, and its drift sample
/// is zero.
pub proof fn lemma_spam_no_mutation(e: BskyEventV, now: int)
    requires
        spec_is_spam(e.did),
    ensures
        spec_classify(e, now).1 is None,
        spec_classify(e, now).0 == 0,
{
}

/// A create-post event whose record stamp parses and lies more than 24
/// hours before the wall clock produces no mutation.
pub proof fn lemma_stale_post_dropped(e: BskyEventV, now: int, c: CommitV, r: RecordV, t: i64)
    requires
        e.commit == Some(c),
        c.operation == "create"@,
        c.collection == "app.bsky.feed.post"@,
        c.record == Some(r),
        rfc3339_micros(r.created_at) == Some(t),
        now - t > STALE_US as int,
    ensures
        spec_classify(e, now).1 is None,
{
}

} // verus!
