//! The graph-DB statements: one parameterized, idempotent statement text
//! per mutation kind, and the mapping from a typed mutation to the
//! statements and parameters to run, in order.
use vstd::prelude::*;
use crate::classify::Mutation;
use crate::classify::MutationV;

verus! {

pub const ADD_POST: &'static str = "MERGE (u:User {did: $did}) MERGE (p:Post {did: $did, rkey: $rkey}) SET p.createdAt = $createdAt, p.isReply = $isReply, p.isImage = $isImage MERGE (u)-[:POSTED]->(p)";

pub const ADD_REPLY: &'static str = "MERGE (c:Post {did: $did, rkey: $rkey}) MERGE (p:Post {rkey: $parentRkey}) MERGE (c)-[:REPLIED_TO]->(p)";

pub const ADD_REPOST: &'static str = "MERGE (u:User {did: $did}) MERGE (p:Post {rkey: $targetRkey}) MERGE (u)-[:REPOSTED {rkey: $rkey}]->(p)";

pub const ADD_LIKE: &'static str = "MERGE (u:User {did: $did}) MERGE (p:Post {rkey: $targetRkey}) MERGE (u)-[:LIKED {rkey: $rkey}]->(p)";

pub const ADD_FOLLOW: &'static str = "MERGE (u:User {did: $did}) MERGE (v:User {did: $subject}) MERGE (u)-[:FOLLOWS {rkey: $rkey}]->(v)";

pub const ADD_BLOCK: &'static str = "MERGE (u:User {did: $blocker}) MERGE (v:User {did: $blockee}) MERGE (u)-[:BLOCKS {rkey: $rkey}]->(v)";

/// The bulk follow write of the backfill path: one row per edge, batched.
pub const ADD_FOLLOWS_BULK: &'static str = "UNWIND $follows AS f MERGE (u:User {did: f.did}) MERGE (v:User {did: f.out}) MERGE (u)-[:FOLLOWS {rkey: f.rkey}]->(v)";

/// The bulk block write of the backfill path, on the same row shape: the
/// requesting identity is the blocker, the subject the blockee.
pub const ADD_BLOCKS_BULK: &'static str = "UNWIND $blocks AS b MERGE (u:User {did: b.did}) MERGE (v:User {did: b.out}) MERGE (u)-[:BLOCKS {rkey: b.rkey}]->(v)";

pub const RM_POST: &'static str = "MATCH (p:Post {did: $did, rkey: $rkey}) DETACH DELETE p";

pub const RM_REPOST: &'static str = "MATCH (:User {did: $did})-[r:REPOSTED {rkey: $rkey}]->() DELETE r";

pub const RM_LIKE: &'static str = "MATCH (:User {did: $did})-[r:LIKED {rkey: $rkey}]->() DELETE r";

pub const RM_FOLLOW: &'static str = "MATCH (:User {did: $did})-[r:FOLLOWS {rkey: $rkey}]->() DELETE r";

pub const RM_BLOCK: &'static str = "MATCH (:User {did: $did})-[r:BLOCKS {rkey: $rkey}]->() DELETE r";

/// The periodic purge: posts older than the cutoff go, edges with them.
pub const PURGE_OLD_POSTS: &'static str = "MATCH (p:Post) WHERE p.createdAt < $cutoff DETACH DELETE p";

/// How often the purge runs, in seconds.
pub const PURGE_INTERVAL_SECS: u64 = 45 * 60;

/// One statement parameter value.
pub enum ParamValue {
    Str(String),
    Int(i64),
    Bool(bool),
}

/// Mathematical image of `ParamValue`.
pub enum ParamValueV {
    Str(Seq<char>),
    Int(int),
    Bool(bool),
}

impl View for ParamValue {
    type V = ParamValueV;

    open spec fn view(&self) -> ParamValueV {
        match self {
            ParamValue::Str(s) => ParamValueV::Str(s@),
            ParamValue::Int(i) => ParamValueV::Int(*i as int),
            ParamValue::Bool(b) => ParamValueV::Bool(*b),
        }
    }
}

/// One parameterized statement, ready to run.
pub struct Statement {
    pub text: &'static str,
    pub params: Vec<(&'static str, ParamValue)>,
}

/// Mathematical image of `Statement`.
pub struct StatementV {
    pub text: Seq<char>,
    pub params: Seq<(Seq<char>, ParamValueV)>,
}

impl View for Statement {
    type V = StatementV;

    open spec fn view(&self) -> StatementV {
        StatementV {
            text: self.text@,
            params: self.params@.map_values(|p: (&'static str, ParamValue)| (p.0@, p.1@)),
        }
    }
}

/// The statement sequence a vector denotes.
pub open spec fn stmts_view(s: Seq<Statement>) -> Seq<StatementV> {
    s.map_values(|st: Statement| st@)
}

/// The statements one mutation maps to, in the order they run: a
/// reply post connects its parent first, everything else is a single
/// statement.
pub open spec fn spec_statements_for(m: MutationV) -> Seq<StatementV> {
    match m {
        MutationV::AddPost { did, rkey, created_at, is_reply, is_image, parent_rkey } => {
            let post = StatementV {
                text: ADD_POST@,
                params: seq![
                    ("did"@, ParamValueV::Str(did)),
                    ("rkey"@, ParamValueV::Str(rkey)),
                    ("createdAt"@, ParamValueV::Int(created_at)),
                    ("isReply"@, ParamValueV::Bool(is_reply)),
                    ("isImage"@, ParamValueV::Bool(is_image)),
                ],
            };
            match parent_rkey {
                Some(p) => seq![
                    StatementV {
                        text: ADD_REPLY@,
                        params: seq![
                            ("did"@, ParamValueV::Str(did)),
                            ("rkey"@, ParamValueV::Str(rkey)),
                            ("parentRkey"@, ParamValueV::Str(p)),
                        ],
                    },
                    post,
                ],
                None => seq![post],
            }
        },
        MutationV::AddRepost { did, target_rkey, rkey } => seq![
            StatementV {
                text: ADD_REPOST@,
                params: seq![
                    ("did"@, ParamValueV::Str(did)),
                    ("targetRkey"@, ParamValueV::Str(target_rkey)),
                    ("rkey"@, ParamValueV::Str(rkey)),
                ],
            },
        ],
        MutationV::AddLike { did, target_rkey, rkey } => seq![
            StatementV {
                text: ADD_LIKE@,
                params: seq![
                    ("did"@, ParamValueV::Str(did)),
                    ("targetRkey"@, ParamValueV::Str(target_rkey)),
                    ("rkey"@, ParamValueV::Str(rkey)),
                ],
            },
        ],
        MutationV::AddFollow { did, subject, rkey } => seq![
            StatementV {
                text: ADD_FOLLOW@,
                params: seq![
                    ("did"@, ParamValueV::Str(did)),
                    ("subject"@, ParamValueV::Str(subject)),
                    ("rkey"@, ParamValueV::Str(rkey)),
                ],
            },
        ],
        MutationV::AddBlock { blockee, blocker, rkey } => seq![
            StatementV {
                text: ADD_BLOCK@,
                params: seq![
                    ("blocker"@, ParamValueV::Str(blocker)),
                    ("blockee"@, ParamValueV::Str(blockee)),
                    ("rkey"@, ParamValueV::Str(rkey)),
                ],
            },
        ],
        MutationV::RmPost { did, rkey } => seq![spec_rm_statement(RM_POST@, did, rkey)],
        MutationV::RmRepost { did, rkey } => seq![spec_rm_statement(RM_REPOST@, did, rkey)],
        MutationV::RmLike { did, rkey } => seq![spec_rm_statement(RM_LIKE@, did, rkey)],
        MutationV::RmFollow { did, rkey } => seq![spec_rm_statement(RM_FOLLOW@, did, rkey)],
        MutationV::RmBlock { did, rkey } => seq![spec_rm_statement(RM_BLOCK@, did, rkey)],
    }
}

/// A removal statement: the text plus the `(did, rkey)` identity.
pub open spec fn spec_rm_statement(text: Seq<char>, did: Seq<char>, rkey: Seq<char>) -> StatementV {
    StatementV {
        text,
        params: seq![("did"@, ParamValueV::Str(did)), ("rkey"@, ParamValueV::Str(rkey))],
    }
}

fn rm_statement(text: &'static str, did: &String, rkey: &String) -> (r: Statement)
    ensures
        r@ == spec_rm_statement(text@, did@, rkey@),
{
    let r = Statement {
        text,
        params: vec![
            ("did", ParamValue::Str(did.clone())),
            ("rkey", ParamValue::Str(rkey.clone())),
        ],
    };
    proof {
        assert(r@.params =~= spec_rm_statement(text@, did@, rkey@).params);
    }
    r
}

/// Build the parameterized statements one typed mutation runs under the
/// write lock, in order.
pub fn statements_for(m: &Mutation) -> (r: Vec<Statement>)
    ensures
        stmts_view(r@) == spec_statements_for(m@),
{
    let mut out: Vec<Statement> = Vec::new();
    match m {
        Mutation::AddPost { did, rkey, created_at, is_reply, is_image, parent_rkey } => {
            match parent_rkey {
                Some(p) => {
                    let s = Statement {
                        text: ADD_REPLY,
                        params: vec![
                            ("did", ParamValue::Str(did.clone())),
                            ("rkey", ParamValue::Str(rkey.clone())),
                            ("parentRkey", ParamValue::Str(p.clone())),
                        ],
                    };
                    proof {
                        assert(s@.params =~= spec_statements_for(m@)[0].params);
                    }
                    out.push(s);
                },
                None => {},
            }
            let s = Statement {
                text: ADD_POST,
                params: vec![
                    ("did", ParamValue::Str(did.clone())),
                    ("rkey", ParamValue::Str(rkey.clone())),
                    ("createdAt", ParamValue::Int(*created_at)),
                    ("isReply", ParamValue::Bool(*is_reply)),
                    ("isImage", ParamValue::Bool(*is_image)),
                ],
            };
            proof {
                assert(s@.params
                    =~= spec_statements_for(m@)[spec_statements_for(m@).len() - 1].params);
            }
            out.push(s);
        },
        Mutation::AddRepost { did, target_rkey, rkey } => {
            let s = Statement {
                text: ADD_REPOST,
                params: vec![
                    ("did", ParamValue::Str(did.clone())),
                    ("targetRkey", ParamValue::Str(target_rkey.clone())),
                    ("rkey", ParamValue::Str(rkey.clone())),
                ],
            };
            proof {
                assert(s@.params =~= spec_statements_for(m@)[0].params);
            }
            out.push(s);
        },
        Mutation::AddLike { did, target_rkey, rkey } => {
            let s = Statement {
                text: ADD_LIKE,
                params: vec![
                    ("did", ParamValue::Str(did.clone())),
                    ("targetRkey", ParamValue::Str(target_rkey.clone())),
                    ("rkey", ParamValue::Str(rkey.clone())),
                ],
            };
            proof {
                assert(s@.params =~= spec_statements_for(m@)[0].params);
            }
            out.push(s);
        },
        Mutation::AddFollow { did, subject, rkey } => {
            let s = Statement {
                text: ADD_FOLLOW,
                params: vec![
                    ("did", ParamValue::Str(did.clone())),
                    ("subject", ParamValue::Str(subject.clone())),
                    ("rkey", ParamValue::Str(rkey.clone())),
                ],
            };
            proof {
                assert(s@.params =~= spec_statements_for(m@)[0].params);
            }
            out.push(s);
        },
        Mutation::AddBlock { blockee, blocker, rkey } => {
            let s = Statement {
                text: ADD_BLOCK,
                params: vec![
                    ("blocker", ParamValue::Str(blocker.clone())),
                    ("blockee", ParamValue::Str(blockee.clone())),
                    ("rkey", ParamValue::Str(rkey.clone())),
                ],
            };
            proof {
                assert(s@.params =~= spec_statements_for(m@)[0].params);
            }
            out.push(s);
        },
        Mutation::RmPost { did, rkey } => {
            out.push(rm_statement(RM_POST, did, rkey));
        },
        Mutation::RmRepost { did, rkey } => {
            out.push(rm_statement(RM_REPOST, did, rkey));
        },
        Mutation::RmLike { did, rkey } => {
            out.push(rm_statement(RM_LIKE, did, rkey));
        },
        Mutation::RmFollow { did, rkey } => {
            out.push(rm_statement(RM_FOLLOW, did, rkey));
        },
        Mutation::RmBlock { did, rkey } => {
            out.push(rm_statement(RM_BLOCK, did, rkey));
        },
    }
    proof {
        assert(stmts_view(out@) =~= spec_statements_for(m@));
    }
    out
}

} // verus!
