//! The decoded firehose event envelope, as plain values.
//!
//! The wire form is JSON (possibly zstd-compressed, see `codec`); the
//! unverified rim turns those bytes into these types, and everything the
//! classifier reads is a plain field here.
use vstd::prelude::*;
use crate::util::spec_parse_rkey;
use crate::util::parse_rkey;

verus! {

/// The subject of a graph or feed record: either a bare DID (follow and
/// block records) or a reference to another record by its AT-URI (like and
/// repost records).
pub enum Subject {
    Did(String),
    Ref(String),
}

/// The record payload carried by a commit, reduced to the fields the
/// classifier reads.
pub struct Record {
    /// The `createdAt` stamp, as the raw RFC-3339 text.
    pub created_at: String,
    /// Whether the record carries an image attachment.
    pub has_images: bool,
    /// The AT-URI of the parent post, when the record is a reply.
    pub reply_parent_uri: Option<String>,
    /// The record's subject, when it has one.
    pub subject: Option<Subject>,
}

/// One create/update/delete operation on one record in one collection.
pub struct Commit {
    pub operation: String,
    pub collection: String,
    pub rkey: String,
    pub record: Option<Record>,
}

/// The event envelope: who, when (microseconds since the Unix epoch), and
/// at most one commit.
pub struct BskyEvent {
    pub did: String,
    pub time_us: i64,
    pub commit: Option<Commit>,
}

/// Mathematical image of `Subject`.
pub enum SubjectV {
    Did(Seq<char>),
    Ref(Seq<char>),
}

/// Mathematical image of `Record`.
pub struct RecordV {
    pub created_at: Seq<char>,
    pub has_images: bool,
    pub reply_parent_uri: Option<Seq<char>>,
    pub subject: Option<SubjectV>,
}

/// Mathematical image of `Commit`.
pub struct CommitV {
    pub operation: Seq<char>,
    pub collection: Seq<char>,
    pub rkey: Seq<char>,
    pub record: Option<RecordV>,
}

/// Mathematical image of `BskyEvent`.
pub struct BskyEventV {
    pub did: Seq<char>,
    pub time_us: int,
    pub commit: Option<CommitV>,
}

impl View for Subject {
    type V = SubjectV;

    open spec fn view(&self) -> SubjectV {
        match self {
            Subject::Did(s) => SubjectV::Did(s@),
            Subject::Ref(s) => SubjectV::Ref(s@),
        }
    }
}

impl View for Record {
    type V = RecordV;

    open spec fn view(&self) -> RecordV {
        RecordV {
            created_at: self.created_at@,
            has_images: self.has_images,
            reply_parent_uri: match &self.reply_parent_uri {
                Some(u) => Some(u@),
                None => None,
            },
            subject: match &self.subject {
                Some(s) => Some(s@),
                None => None,
            },
        }
    }
}

impl View for Commit {
    type V = CommitV;

    open spec fn view(&self) -> CommitV {
        CommitV {
            operation: self.operation@,
            collection: self.collection@,
            rkey: self.rkey@,
            record: match &self.record {
                Some(r) => Some(r@),
                None => None,
            },
        }
    }
}

impl View for BskyEvent {
    type V = BskyEventV;

    open spec fn view(&self) -> BskyEventV {
        BskyEventV {
            did: self.did@,
            time_us: self.time_us as int,
            commit: match &self.commit {
                Some(c) => Some(c@),
                None => None,
            },
        }
    }
}

/// The record key of the commit's subject reference: the key of the target
/// URI for likes and reposts, and empty whenever the commit carries no
/// URI-shaped subject.
pub open spec fn spec_get_rkey(c: CommitV) -> Seq<char> {
    match c.record {
        Some(r) => match r.subject {
            Some(SubjectV::Ref(uri)) => spec_parse_rkey(uri),
            _ => Seq::empty(),
        },
        None => Seq::empty(),
    }
}

/// Extract the target record key from a commit's subject reference.
pub fn get_rkey(commit: &Commit) -> (r: String)
    ensures
        r@ == spec_get_rkey(commit@),
{
    match &commit.record {
        Some(r) => match &r.subject {
            Some(Subject::Ref(uri)) => parse_rkey(uri.as_str()),
            _ => String::new(),
        },
        None => String::new(),
    }
}

} // verus!
