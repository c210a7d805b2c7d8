//! The graph mutator: an abstract state of users, posts and edges, the
//! verified in-memory model of it, and the mutation operations, all
//! idempotent by their identity keys.
use vstd::prelude::*;
use crate::classify::Mutation;
use crate::classify::MutationV;
use crate::classify::classify_event;
use crate::classify::opt_mutation_view;
use crate::classify::spec_classify;
use crate::event::BskyEvent;
use crate::store::KeyedVec;
use crate::store::StrSet;

verus! {

/// Attributes of a post node.
#[derive(Clone, Copy)]
pub struct PostProps {
    pub created_at: i64,
    pub is_reply: bool,
    pub is_image: bool,
}

/// Mathematical image of `PostProps`.
pub struct PostPropsV {
    pub created_at: int,
    pub is_reply: bool,
    pub is_image: bool,
}

impl View for PostProps {
    type V = PostPropsV;

    open spec fn view(&self) -> PostPropsV {
        PostPropsV {
            created_at: self.created_at as int,
            is_reply: self.is_reply,
            is_image: self.is_image,
        }
    }
}

/// The abstract graph: the user set, the posts by `(did, rkey)`, and one
/// map per edge kind, each keyed by `(source_did, edge_rkey)`.
///
/// `replies` points a child post at its parent's record key; `reposts` and
/// `likes` point at the target post's record key; `follows` points at the
/// followed DID; `blocks` is keyed by the blocker and points at the blockee.
#[verifier::ext_equal]
pub struct GraphState {
    pub users: Set<Seq<char>>,
    pub posts: Map<(Seq<char>, Seq<char>), PostPropsV>,
    pub replies: Map<(Seq<char>, Seq<char>), Seq<char>>,
    pub reposts: Map<(Seq<char>, Seq<char>), Seq<char>>,
    pub likes: Map<(Seq<char>, Seq<char>), Seq<char>>,
    pub follows: Map<(Seq<char>, Seq<char>), Seq<char>>,
    pub blocks: Map<(Seq<char>, Seq<char>), Seq<char>>,
}

/// The graph with no users, posts or edges.
pub open spec fn empty_graph() -> GraphState {
    GraphState {
        users: Set::empty(),
        posts: Map::empty(),
        replies: Map::empty(),
        reposts: Map::empty(),
        likes: Map::empty(),
        follows: Map::empty(),
        blocks: Map::empty(),
    }
}

/// Upsert the author and the post.
pub open spec fn spec_add_post(
    g: GraphState,
    did: Seq<char>,
    rkey: Seq<char>,
    created_at: int,
    is_reply: bool,
    is_image: bool,
) -> GraphState {
    GraphState {
        users: g.users.insert(did),
        posts: g.posts.insert((did, rkey), PostPropsV { created_at, is_reply, is_image }),
        ..g
    }
}

/// Upsert the author and connect the child post to its parent's key.
pub open spec fn spec_add_reply(
    g: GraphState,
    did: Seq<char>,
    rkey: Seq<char>,
    parent_rkey: Seq<char>,
) -> GraphState {
    GraphState { users: g.users.insert(did), replies: g.replies.insert((did, rkey), parent_rkey), ..g }
}

/// Upsert the reposter and the repost edge.
pub open spec fn spec_add_repost(
    g: GraphState,
    did: Seq<char>,
    target_rkey: Seq<char>,
    rkey: Seq<char>,
) -> GraphState {
    GraphState { users: g.users.insert(did), reposts: g.reposts.insert((did, rkey), target_rkey), ..g }
}

/// Upsert the liker and the like edge.
pub open spec fn spec_add_like(
    g: GraphState,
    did: Seq<char>,
    target_rkey: Seq<char>,
    rkey: Seq<char>,
) -> GraphState {
    GraphState { users: g.users.insert(did), likes: g.likes.insert((did, rkey), target_rkey), ..g }
}

/// Upsert both users and the follow edge.
pub open spec fn spec_add_follow(
    g: GraphState,
    src_did: Seq<char>,
    dst_did: Seq<char>,
    rkey: Seq<char>,
) -> GraphState {
    GraphState {
        users: g.users.insert(src_did).insert(dst_did),
        follows: g.follows.insert((src_did, rkey), dst_did),
        ..g
    }
}

/// Upsert both users and the block edge, keyed by the blocker.
pub open spec fn spec_add_block(
    g: GraphState,
    blockee_did: Seq<char>,
    blocker_did: Seq<char>,
    rkey: Seq<char>,
) -> GraphState {
    GraphState {
        users: g.users.insert(blockee_did).insert(blocker_did),
        blocks: g.blocks.insert((blocker_did, rkey), blockee_did),
        ..g
    }
}

/// Remove the post and its outgoing reply edge; missing keys change
/// nothing. Edges other users point at the removed post are outside this
/// model's reach (see `spec_apply`): the database's detaching delete also
/// drops those.
pub open spec fn spec_rm_post(g: GraphState, did: Seq<char>, rkey: Seq<char>) -> GraphState {
    GraphState { posts: g.posts.remove((did, rkey)), replies: g.replies.remove((did, rkey)), ..g }
}

/// Remove the repost edge; a missing key changes nothing.
pub open spec fn spec_rm_repost(g: GraphState, did: Seq<char>, rkey: Seq<char>) -> GraphState {
    GraphState { reposts: g.reposts.remove((did, rkey)), ..g }
}

/// Remove the like edge; a missing key changes nothing.
pub open spec fn spec_rm_like(g: GraphState, did: Seq<char>, rkey: Seq<char>) -> GraphState {
    GraphState { likes: g.likes.remove((did, rkey)), ..g }
}

/// Remove the follow edge; a missing key changes nothing.
pub open spec fn spec_rm_follow(g: GraphState, did: Seq<char>, rkey: Seq<char>) -> GraphState {
    GraphState { follows: g.follows.remove((did, rkey)), ..g }
}

/// Remove the block edge; a missing key changes nothing.
pub open spec fn spec_rm_block(g: GraphState, did: Seq<char>, rkey: Seq<char>) -> GraphState {
    GraphState { blocks: g.blocks.remove((did, rkey)), ..g }
}

/// The effect of one typed mutation on the abstract graph. A reply post
/// connects the reply edge first and then upserts the post, as the
/// classifier dispatches it.
///
/// This is the meaning of the statements `queries::spec_statements_for`
/// builds for the same mutation, as far as this model reaches: it tracks
/// every edge by its source key alone, so removing a post covers the post
/// row and its own outgoing reply edge, while the database's detaching
/// delete also drops edges that other users aim at the removed node by
/// node identity, which a model without node identity cannot name.
pub open spec fn spec_apply(g: GraphState, m: MutationV) -> GraphState {
    match m {
        MutationV::AddPost { did, rkey, created_at, is_reply, is_image, parent_rkey } => {
            let g1 = match parent_rkey {
                Some(p) => spec_add_reply(g, did, rkey, p),
                None => g,
            };
            spec_add_post(g1, did, rkey, created_at, is_reply, is_image)
        },
        MutationV::AddRepost { did, target_rkey, rkey } => spec_add_repost(g, did, target_rkey, rkey),
        MutationV::AddLike { did, target_rkey, rkey } => spec_add_like(g, did, target_rkey, rkey),
        MutationV::AddFollow { did, subject, rkey } => spec_add_follow(g, did, subject, rkey),
        MutationV::AddBlock { blockee, blocker, rkey } => spec_add_block(g, blockee, blocker, rkey),
        MutationV::RmPost { did, rkey } => spec_rm_post(g, did, rkey),
        MutationV::RmRepost { did, rkey } => spec_rm_repost(g, did, rkey),
        MutationV::RmLike { did, rkey } => spec_rm_like(g, did, rkey),
        MutationV::RmFollow { did, rkey } => spec_rm_follow(g, did, rkey),
        MutationV::RmBlock { did, rkey } => spec_rm_block(g, did, rkey),
    }
}

/// The effect of the classifier's output: no mutation leaves the graph as
/// it stands.
pub open spec fn spec_apply_opt(g: GraphState, m: Option<MutationV>) -> GraphState {
    match m {
        Some(m) => spec_apply(g, m),
        None => g,
    }
}

/// The verified in-memory graph model, whose view is a `GraphState`.
pub struct GraphModel {
    users: StrSet,
    posts: KeyedVec<PostProps>,
    replies: KeyedVec<String>,
    reposts: KeyedVec<String>,
    likes: KeyedVec<String>,
    follows: KeyedVec<String>,
    blocks: KeyedVec<String>,
}

impl GraphModel {
    /// The stores keep their keys distinct.
    pub closed spec fn wf(&self) -> bool {
        self.posts.wf() && self.replies.wf() && self.reposts.wf() && self.likes.wf()
            && self.follows.wf() && self.blocks.wf()
    }

    /// The abstract graph this model holds.
    pub closed spec fn view(&self) -> GraphState {
        GraphState {
            users: self.users@,
            posts: self.posts@,
            replies: self.replies@,
            reposts: self.reposts@,
            likes: self.likes@,
            follows: self.follows@,
            blocks: self.blocks@,
        }
    }

    /// An empty graph model.
    pub fn new() -> (r: GraphModel)
        ensures
            r.wf(),
            r@ == empty_graph(),
    {
        let r = GraphModel {
            users: StrSet::new(),
            posts: KeyedVec::new(),
            replies: KeyedVec::new(),
            reposts: KeyedVec::new(),
            likes: KeyedVec::new(),
            follows: KeyedVec::new(),
            blocks: KeyedVec::new(),
        };
        proof {
            assert(r@ =~= empty_graph());
        }
        r
    }

    /// Upsert the author and the post.
    pub fn add_post(&mut self, did: String, rkey: String, created_at: i64, is_reply: bool, is_image: bool)
        requires
            old(self).wf(),
        ensures
            final(self).wf(),
            final(self)@ == spec_add_post(old(self)@, did@, rkey@, created_at as int, is_reply, is_image),
    {
        self.users.insert(did.clone());
        self.posts.upsert(did, rkey, PostProps { created_at, is_reply, is_image });
        proof {
            assert(self@ =~= spec_add_post(old(self)@, did@, rkey@, created_at as int, is_reply, is_image));
        }
    }

    /// Upsert the author and connect the child post to its parent's key.
    pub fn add_reply(&mut self, did: String, rkey: String, parent_rkey: String)
        requires
            old(self).wf(),
        ensures
            final(self).wf(),
            final(self)@ == spec_add_reply(old(self)@, did@, rkey@, parent_rkey@),
    {
        self.users.insert(did.clone());
        self.replies.upsert(did, rkey, parent_rkey);
        proof {
            assert(self@ =~= spec_add_reply(old(self)@, did@, rkey@, parent_rkey@));
        }
    }

    /// Upsert the reposter and the repost edge.
    pub fn add_repost(&mut self, did: String, target_rkey: String, rkey: String)
        requires
            old(self).wf(),
        ensures
            final(self).wf(),
            final(self)@ == spec_add_repost(old(self)@, did@, target_rkey@, rkey@),
    {
        self.users.insert(did.clone());
        self.reposts.upsert(did, rkey, target_rkey);
        proof {
            assert(self@ =~= spec_add_repost(old(self)@, did@, target_rkey@, rkey@));
        }
    }

    /// Upsert the liker and the like edge.
    pub fn add_like(&mut self, did: String, target_rkey: String, rkey: String)
        requires
            old(self).wf(),
        ensures
            final(self).wf(),
            final(self)@ == spec_add_like(old(self)@, did@, target_rkey@, rkey@),
    {
        self.users.insert(did.clone());
        self.likes.upsert(did, rkey, target_rkey);
        proof {
            assert(self@ =~= spec_add_like(old(self)@, did@, target_rkey@, rkey@));
        }
    }

    /// Upsert both users and the follow edge.
    pub fn add_follow(&mut self, src_did: String, dst_did: String, rkey: String)
        requires
            old(self).wf(),
        ensures
            final(self).wf(),
            final(self)@ == spec_add_follow(old(self)@, src_did@, dst_did@, rkey@),
    {
        self.users.insert(src_did.clone());
        self.users.insert(dst_did.clone());
        self.follows.upsert(src_did, rkey, dst_did);
        proof {
            assert(self@ =~= spec_add_follow(old(self)@, src_did@, dst_did@, rkey@));
        }
    }

    /// Upsert both users and the block edge; the blockee is the record's
    /// subject, the blocker the event's author.
    pub fn add_block(&mut self, blockee_did: String, blocker_did: String, rkey: String)
        requires
            old(self).wf(),
        ensures
            final(self).wf(),
            final(self)@ == spec_add_block(old(self)@, blockee_did@, blocker_did@, rkey@),
    {
        self.users.insert(blockee_did.clone());
        self.users.insert(blocker_did.clone());
        self.blocks.upsert(blocker_did, rkey, blockee_did);
        proof {
            assert(self@ =~= spec_add_block(old(self)@, blockee_did@, blocker_did@, rkey@));
        }
    }

    /// Remove a post and its outgoing reply edge by key.
    pub fn rm_post(&mut self, did: &str, rkey: &str)
        requires
            old(self).wf(),
        ensures
            final(self).wf(),
            final(self)@ == spec_rm_post(old(self)@, did@, rkey@),
    {
        self.posts.remove(did, rkey);
        self.replies.remove(did, rkey);
        proof {
            assert(self@ =~= spec_rm_post(old(self)@, did@, rkey@));
        }
    }

    /// Remove a repost edge by key.
    pub fn rm_repost(&mut self, did: &str, rkey: &str)
        requires
            old(self).wf(),
        ensures
            final(self).wf(),
            final(self)@ == spec_rm_repost(old(self)@, did@, rkey@),
    {
        self.reposts.remove(did, rkey);
        proof {
            assert(self@ =~= spec_rm_repost(old(self)@, did@, rkey@));
        }
    }

    /// Remove a like edge by key.
    pub fn rm_like(&mut self, did: &str, rkey: &str)
        requires
            old(self).wf(),
        ensures
            final(self).wf(),
            final(self)@ == spec_rm_like(old(self)@, did@, rkey@),
    {
        self.likes.remove(did, rkey);
        proof {
            assert(self@ =~= spec_rm_like(old(self)@, did@, rkey@));
        }
    }

    /// Remove a follow edge by key.
    pub fn rm_follow(&mut self, did: &str, rkey: &str)
        requires
            old(self).wf(),
        ensures
            final(self).wf(),
            final(self)@ == spec_rm_follow(old(self)@, did@, rkey@),
    {
        self.follows.remove(did, rkey);
        proof {
            assert(self@ =~= spec_rm_follow(old(self)@, did@, rkey@));
        }
    }

    /// Remove a block edge by its blocker and key.
    pub fn rm_block(&mut self, did: &str, rkey: &str)
        requires
            old(self).wf(),
        ensures
            final(self).wf(),
            final(self)@ == spec_rm_block(old(self)@, did@, rkey@),
    {
        self.blocks.remove(did, rkey);
        proof {
            assert(self@ =~= spec_rm_block(old(self)@, did@, rkey@));
        }
    }

    /// Apply one typed mutation.
    pub fn apply(&mut self, m: &Mutation)
        requires
            old(self).wf(),
        ensures
            final(self).wf(),
            final(self)@ == spec_apply(old(self)@, m@),
    {
        match m {
            Mutation::AddPost { did, rkey, created_at, is_reply, is_image, parent_rkey } => {
                match parent_rkey {
                    Some(p) => {
                        self.add_reply(did.clone(), rkey.clone(), p.clone());
                    },
                    None => {},
                }
                self.add_post(did.clone(), rkey.clone(), *created_at, *is_reply, *is_image);
            },
            Mutation::AddRepost { did, target_rkey, rkey } => {
                self.add_repost(did.clone(), target_rkey.clone(), rkey.clone());
            },
            Mutation::AddLike { did, target_rkey, rkey } => {
                self.add_like(did.clone(), target_rkey.clone(), rkey.clone());
            },
            Mutation::AddFollow { did, subject, rkey } => {
                self.add_follow(did.clone(), subject.clone(), rkey.clone());
            },
            Mutation::AddBlock { blockee, blocker, rkey } => {
                self.add_block(blockee.clone(), blocker.clone(), rkey.clone());
            },
            Mutation::RmPost { did, rkey } => {
                self.rm_post(did.as_str(), rkey.as_str());
            },
            Mutation::RmRepost { did, rkey } => {
                self.rm_repost(did.as_str(), rkey.as_str());
            },
            Mutation::RmLike { did, rkey } => {
                self.rm_like(did.as_str(), rkey.as_str());
            },
            Mutation::RmFollow { did, rkey } => {
                self.rm_follow(did.as_str(), rkey.as_str());
            },
            Mutation::RmBlock { did, rkey } => {
                self.rm_block(did.as_str(), rkey.as_str());
            },
        }
    }

    /// Whether a user node exists.
    pub fn is_user(&self, did: &str) -> (r: bool)
        ensures
            r == self@.users.contains(did@),
    {
        self.users.contains(did)
    }

    /// The attributes of a post, if it exists.
    pub fn get_post(&self, did: &str, rkey: &str) -> (r: Option<PostProps>)
        requires
            self.wf(),
        ensures
            match r {
                Some(p) => self@.posts.contains_key((did@, rkey@))
                    && p@ == self@.posts[(did@, rkey@)],
                None => !self@.posts.contains_key((did@, rkey@)),
            },
    {
        match self.posts.get(did, rkey) {
            Some(p) => Some(*p),
            None => None,
        }
    }

    /// The parent record key of a reply edge, if the edge exists.
    pub fn get_reply(&self, did: &str, rkey: &str) -> (r: Option<&String>)
        requires
            self.wf(),
        ensures
            match r {
                Some(p) => self@.replies.contains_key((did@, rkey@))
                    && p@ == self@.replies[(did@, rkey@)],
                None => !self@.replies.contains_key((did@, rkey@)),
            },
    {
        self.replies.get(did, rkey)
    }

    /// The target of a repost edge, if the edge exists.
    pub fn get_repost(&self, did: &str, rkey: &str) -> (r: Option<&String>)
        requires
            self.wf(),
        ensures
            match r {
                Some(p) => self@.reposts.contains_key((did@, rkey@))
                    && p@ == self@.reposts[(did@, rkey@)],
                None => !self@.reposts.contains_key((did@, rkey@)),
            },
    {
        self.reposts.get(did, rkey)
    }

    /// The target of a like edge, if the edge exists.
    pub fn get_like(&self, did: &str, rkey: &str) -> (r: Option<&String>)
        requires
            self.wf(),
        ensures
            match r {
                Some(p) => self@.likes.contains_key((did@, rkey@))
                    && p@ == self@.likes[(did@, rkey@)],
                None => !self@.likes.contains_key((did@, rkey@)),
            },
    {
        self.likes.get(did, rkey)
    }

    /// The followed DID of a follow edge, if the edge exists.
    pub fn get_follow(&self, did: &str, rkey: &str) -> (r: Option<&String>)
        requires
            self.wf(),
        ensures
            match r {
                Some(p) => self@.follows.contains_key((did@, rkey@))
                    && p@ == self@.follows[(did@, rkey@)],
                None => !self@.follows.contains_key((did@, rkey@)),
            },
    {
        self.follows.get(did, rkey)
    }

    /// The blockee of a block edge, if the edge exists.
    pub fn get_block(&self, did: &str, rkey: &str) -> (r: Option<&String>)
        requires
            self.wf(),
        ensures
            match r {
                Some(p) => self@.blocks.contains_key((did@, rkey@))
                    && p@ == self@.blocks[(did@, rkey@)],
                None => !self@.blocks.contains_key((did@, rkey@)),
            },
    {
        self.blocks.get(did, rkey)
    }
}

/// Classify one event and apply whatever mutation it produces to the
/// model, returning the drift sample of the event.
pub fn handle_event_fast(evt: &BskyEvent, g: &mut GraphModel, now_us: i64) -> (drift: i64)
    requires
        old(g).wf(),
    ensures
        final(g).wf(),
        drift as int == spec_classify(evt@, now_us as int).0,
        final(g)@ == spec_apply_opt(old(g)@, spec_classify(evt@, now_us as int).1),
{
    let (drift, m) = classify_event(evt, now_us);
    match m {
        Some(m) => {
            proof {
                assert(opt_mutation_view(Some(m)) == spec_classify(evt@, now_us as int).1);
            }
            g.apply(&m);
        },
        None => {},
    }
    drift
}

/// An event from a spam identity leaves the graph untouched: it produces
/// no mutation, so applying its classification changes nothing.
pub proof fn lemma_spam_leaves_graph(g: GraphState, e: crate::event::BskyEventV, now: int)
    requires
        crate::classify::spec_is_spam(e.did),
    ensures
        spec_apply_opt(g, spec_classify(e, now).1) == g,
{
}

/// A create-post event whose record stamp parses and lies more than 24
/// hours before the wall clock leaves the graph untouched.
pub proof fn lemma_stale_leaves_graph(
    g: GraphState,
    e: crate::event::BskyEventV,
    now: int,
    c: crate::event::CommitV,
    r: crate::event::RecordV,
    t: i64,
)
    requires
        e.commit == Some(c),
        c.operation == "create"@,
        c.collection == "app.bsky.feed.post"@,
        c.record == Some(r),
        crate::classify::rfc3339_micros(r.created_at) == Some(t),
        now - t > crate::classify::STALE_US as int,
    ensures
        spec_apply_opt(g, spec_classify(e, now).1) == g,
{
    crate::classify::lemma_stale_post_dropped(e, now, c, r, t);
}

/// Users are created implicitly by any mutation referencing them and are
/// never deleted: no mutation shrinks the user set.
pub proof fn lemma_users_never_deleted(g: GraphState, m: MutationV)
    ensures
        g.users.subset_of(spec_apply(g, m).users),
{
}

/// Applying any mutation twice has the effect of applying it once: every
/// graph mutation is an upsert or a delete, idempotent by its identity
/// keys.
pub proof fn lemma_apply_idempotent(g: GraphState, m: MutationV)
    ensures
        spec_apply(spec_apply(g, m), m) == spec_apply(g, m),
{
    assert(spec_apply(spec_apply(g, m), m) =~= spec_apply(g, m));
}

/// Adding a post (reply or not) and then removing it by the same key
/// restores the graph, provided the author already exists and the key is
/// fresh.
pub proof fn lemma_post_roundtrip(
    g: GraphState,
    did: Seq<char>,
    rkey: Seq<char>,
    created_at: int,
    is_reply: bool,
    is_image: bool,
    parent_rkey: Option<Seq<char>>,
)
    requires
        g.users.contains(did),
        !g.posts.contains_key((did, rkey)),
        !g.replies.contains_key((did, rkey)),
    ensures
        spec_apply(
            spec_apply(g, MutationV::AddPost { did, rkey, created_at, is_reply, is_image, parent_rkey }),
            MutationV::RmPost { did, rkey },
        ) == g,
{
    assert(spec_apply(
        spec_apply(g, MutationV::AddPost { did, rkey, created_at, is_reply, is_image, parent_rkey }),
        MutationV::RmPost { did, rkey },
    ) =~= g);
}

/// Adding a repost edge and then removing it by the same key restores the
/// graph, provided the reposter already exists and the key is fresh.
pub proof fn lemma_repost_roundtrip(
    g: GraphState,
    did: Seq<char>,
    target_rkey: Seq<char>,
    rkey: Seq<char>,
)
    requires
        g.users.contains(did),
        !g.reposts.contains_key((did, rkey)),
    ensures
        spec_apply(
            spec_apply(g, MutationV::AddRepost { did, target_rkey, rkey }),
            MutationV::RmRepost { did, rkey },
        ) == g,
{
    assert(spec_apply(
        spec_apply(g, MutationV::AddRepost { did, target_rkey, rkey }),
        MutationV::RmRepost { did, rkey },
    ) =~= g);
}

/// Adding a like edge and then removing it by the same key restores the
/// graph, provided the liker already exists and the key is fresh.
pub proof fn lemma_like_roundtrip(
    g: GraphState,
    did: Seq<char>,
    target_rkey: Seq<char>,
    rkey: Seq<char>,
)
    requires
        g.users.contains(did),
        !g.likes.contains_key((did, rkey)),
    ensures
        spec_apply(
            spec_apply(g, MutationV::AddLike { did, target_rkey, rkey }),
            MutationV::RmLike { did, rkey },
        ) == g,
{
    assert(spec_apply(
        spec_apply(g, MutationV::AddLike { did, target_rkey, rkey }),
        MutationV::RmLike { did, rkey },
    ) =~= g);
}

/// Adding a follow edge and then removing it by the same key restores the
/// graph, provided both users already exist and the key is fresh.
pub proof fn lemma_follow_roundtrip(
    g: GraphState,
    did: Seq<char>,
    subject: Seq<char>,
    rkey: Seq<char>,
)
    requires
        g.users.contains(did),
        g.users.contains(subject),
        !g.follows.contains_key((did, rkey)),
    ensures
        spec_apply(
            spec_apply(g, MutationV::AddFollow { did, subject, rkey }),
            MutationV::RmFollow { did, rkey },
        ) == g,
{
    assert(spec_apply(
        spec_apply(g, MutationV::AddFollow { did, subject, rkey }),
        MutationV::RmFollow { did, rkey },
    ) =~= g);
}

/// Adding a block edge and then removing it by the blocker's key restores
/// the graph, provided both users already exist and the key is fresh.
pub proof fn lemma_block_roundtrip(
    g: GraphState,
    blockee: Seq<char>,
    blocker: Seq<char>,
    rkey: Seq<char>,
)
    requires
        g.users.contains(blockee),
        g.users.contains(blocker),
        !g.blocks.contains_key((blocker, rkey)),
    ensures
        spec_apply(
            spec_apply(g, MutationV::AddBlock { blockee, blocker, rkey }),
            MutationV::RmBlock { did: blocker, rkey },
        ) == g,
{
    assert(spec_apply(
        spec_apply(g, MutationV::AddBlock { blockee, blocker, rkey }),
        MutationV::RmBlock { did: blocker, rkey },
    ) =~= g);
}

} // verus!
