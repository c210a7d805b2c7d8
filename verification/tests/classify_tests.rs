use jetgraph::classify::{classify_event, Mutation};
use jetgraph::event::{BskyEvent, Commit, Record, Subject};

// 2024-01-01T00:00:00Z in microseconds since the Unix epoch.
const T0: i64 = 1_704_067_200_000_000;

fn fresh_record() -> Record {
    Record {
        created_at: "2024-01-01T00:00:00Z".to_owned(),
        has_images: false,
        reply_parent_uri: None,
        subject: None,
    }
}

fn event(did: &str, operation: &str, collection: &str, rkey: &str, record: Option<Record>) -> BskyEvent {
    BskyEvent {
        did: did.to_owned(),
        time_us: T0,
        commit: Some(Commit {
            operation: operation.to_owned(),
            collection: collection.to_owned(),
            rkey: rkey.to_owned(),
            record,
        }),
    }
}

#[test]
fn create_post_upserts_post() {
    let evt = event("did:plc:abc", "create", "app.bsky.feed.post", "aaaaaaaaaaaaa", Some(fresh_record()));
    let now = T0 + 5_000_000;
    let (drift, m) = classify_event(&evt, now);
    assert_eq!(drift, 5000);
    match m {
        Some(Mutation::AddPost { did, rkey, created_at, is_reply, is_image, parent_rkey }) => {
            assert_eq!(did, "did:plc:abc");
            assert_eq!(rkey, "aaaaaaaaaaaaa");
            assert_eq!(created_at, T0);
            assert!(!is_reply);
            assert!(!is_image);
            assert!(parent_rkey.is_none());
        }
        other => panic!("expected AddPost, got {:?}", other.is_some()),
    }
}

#[test]
fn create_reply_post_connects_parent() {
    let mut rec = fresh_record();
    rec.reply_parent_uri = Some("at://did:plc:xyz/app.bsky.feed.post/bbbbbbbbbbbbb".to_owned());
    let evt = event("did:plc:abc", "create", "app.bsky.feed.post", "aaaaaaaaaaaaa", Some(rec));
    let (_, m) = classify_event(&evt, T0);
    match m {
        Some(Mutation::AddPost { is_reply, parent_rkey, .. }) => {
            assert!(is_reply);
            assert_eq!(parent_rkey.as_deref(), Some("bbbbbbbbbbbbb"));
        }
        _ => panic!("expected AddPost"),
    }
}

#[test]
fn spam_did_yields_no_mutation() {
    let evt = event(
        "did:plc:xdx2v7gyd5dmfqt7v77gf457",
        "create",
        "app.bsky.feed.post",
        "aaaaaaaaaaaaa",
        Some(fresh_record()),
    );
    let (drift, m) = classify_event(&evt, T0 + 5_000_000);
    assert_eq!(drift, 0);
    assert!(m.is_none());
}

#[test]
fn stale_create_post_is_dropped() {
    let evt = event("did:plc:abc", "create", "app.bsky.feed.post", "aaaaaaaaaaaaa", Some(fresh_record()));
    let now = T0 + 24 * 3600 * 1_000_000 + 1;
    let (drift, m) = classify_event(&evt, now);
    assert_eq!(drift, 0);
    assert!(m.is_none());
}

#[test]
fn post_exactly_24h_old_is_kept() {
    let evt = event("did:plc:abc", "create", "app.bsky.feed.post", "aaaaaaaaaaaaa", Some(fresh_record()));
    let now = T0 + 24 * 3600 * 1_000_000;
    let (_, m) = classify_event(&evt, now);
    assert!(m.is_some());
}

#[test]
fn unparsable_created_at_falls_back_to_event_time() {
    let mut rec = fresh_record();
    rec.created_at = "not a timestamp".to_owned();
    let evt = event("did:plc:abc", "create", "app.bsky.feed.post", "aaaaaaaaaaaaa", Some(rec));
    // Even a wall clock far in the future keeps the event: the staleness
    // cutoff only applies when the stamp parses.
    let now = T0 + 48 * 3600 * 1_000_000;
    let (_, m) = classify_event(&evt, now);
    match m {
        Some(Mutation::AddPost { created_at, .. }) => assert_eq!(created_at, T0),
        _ => panic!("expected AddPost"),
    }
}

#[test]
fn create_follow_uses_subject_did() {
    let mut rec = fresh_record();
    rec.subject = Some(Subject::Did("did:plc:target".to_owned()));
    let evt = event("did:plc:src", "create", "app.bsky.graph.follow", "ccccccccccccc", Some(rec));
    let (_, m) = classify_event(&evt, T0 + 1000);
    match m {
        Some(Mutation::AddFollow { did, subject, rkey }) => {
            assert_eq!(did, "did:plc:src");
            assert_eq!(subject, "did:plc:target");
            assert_eq!(rkey, "ccccccccccccc");
        }
        _ => panic!("expected AddFollow"),
    }
}

#[test]
fn follow_with_uri_subject_is_dropped() {
    let mut rec = fresh_record();
    rec.subject = Some(Subject::Ref("at://x/y/zzzzzzzzzzzzz".to_owned()));
    let evt = event("did:plc:src", "create", "app.bsky.graph.follow", "ccccccccccccc", Some(rec));
    let (drift, m) = classify_event(&evt, T0);
    assert_eq!(drift, 0);
    assert!(m.is_none());
}

#[test]
fn follow_with_empty_subject_is_dropped() {
    let mut rec = fresh_record();
    rec.subject = Some(Subject::Did(String::new()));
    let evt = event("did:plc:src", "create", "app.bsky.graph.follow", "ccccccccccccc", Some(rec));
    let (_, m) = classify_event(&evt, T0);
    assert!(m.is_none());
}

#[test]
fn create_block_swaps_subject_and_author() {
    let mut rec = fresh_record();
    rec.subject = Some(Subject::Did("did:plc:blockee".to_owned()));
    let evt = event("did:plc:blocker", "create", "app.bsky.graph.block", "ddddddddddddd", Some(rec));
    let (_, m) = classify_event(&evt, T0);
    match m {
        Some(Mutation::AddBlock { blockee, blocker, rkey }) => {
            assert_eq!(blockee, "did:plc:blockee");
            assert_eq!(blocker, "did:plc:blocker");
            assert_eq!(rkey, "ddddddddddddd");
        }
        _ => panic!("expected AddBlock"),
    }
}

#[test]
fn create_repost_extracts_target_rkey() {
    let mut rec = fresh_record();
    rec.subject = Some(Subject::Ref("at://did:plc:xyz/app.bsky.feed.post/eeeeeeeeeeeee".to_owned()));
    let evt = event("did:plc:abc", "create", "app.bsky.feed.repost", "fffffffffffff", Some(rec));
    let (_, m) = classify_event(&evt, T0);
    match m {
        Some(Mutation::AddRepost { did, target_rkey, rkey }) => {
            assert_eq!(did, "did:plc:abc");
            assert_eq!(target_rkey, "eeeeeeeeeeeee");
            assert_eq!(rkey, "fffffffffffff");
        }
        _ => panic!("expected AddRepost"),
    }
}

#[test]
fn repost_with_did_subject_is_dropped() {
    let mut rec = fresh_record();
    rec.subject = Some(Subject::Did("did:plc:target".to_owned()));
    let evt = event("did:plc:abc", "create", "app.bsky.feed.repost", "fffffffffffff", Some(rec));
    let (drift, m) = classify_event(&evt, T0);
    assert_eq!(drift, 0);
    assert!(m.is_none());
}

#[test]
fn create_like_extracts_target_rkey() {
    let mut rec = fresh_record();
    rec.subject = Some(Subject::Ref("at://did:plc:xyz/app.bsky.feed.post/eeeeeeeeeeeee".to_owned()));
    let evt = event("did:plc:abc", "create", "app.bsky.feed.like", "ggggggggggggg", Some(rec));
    let (_, m) = classify_event(&evt, T0);
    match m {
        Some(Mutation::AddLike { target_rkey, .. }) => assert_eq!(target_rkey, "eeeeeeeeeeeee"),
        _ => panic!("expected AddLike"),
    }
}

#[test]
fn delete_dispatches_by_collection() {
    let evt = event("did:plc:src", "delete", "app.bsky.graph.follow", "ccccccccccccc", None);
    let (_, m) = classify_event(&evt, T0 + 1000);
    match m {
        Some(Mutation::RmFollow { did, rkey }) => {
            assert_eq!(did, "did:plc:src");
            assert_eq!(rkey, "ccccccccccccc");
        }
        _ => panic!("expected RmFollow"),
    }
    let evt = event("did:plc:src", "delete", "app.bsky.feed.post", "aaaaaaaaaaaaa", None);
    let (_, m) = classify_event(&evt, T0);
    assert!(matches!(m, Some(Mutation::RmPost { .. })));
}

#[test]
fn update_operation_is_ignored() {
    let evt = event("did:plc:abc", "update", "app.bsky.feed.post", "aaaaaaaaaaaaa", Some(fresh_record()));
    let (drift, m) = classify_event(&evt, T0);
    assert_eq!(drift, 0);
    assert!(m.is_none());
}

#[test]
fn unknown_collection_is_ignored() {
    let evt = event("did:plc:abc", "create", "app.bsky.actor.profile", "aaaaaaaaaaaaa", Some(fresh_record()));
    let (drift, m) = classify_event(&evt, T0);
    assert_eq!(drift, 0);
    assert!(m.is_none());
}

#[test]
fn missing_commit_is_ignored() {
    let evt = BskyEvent { did: "did:plc:abc".to_owned(), time_us: T0, commit: None };
    let (drift, m) = classify_event(&evt, T0 + 1_000_000);
    assert_eq!(drift, 0);
    assert!(m.is_none());
}

#[test]
fn drift_truncates_toward_zero() {
    let evt = event("did:plc:abc", "delete", "app.bsky.feed.like", "ggggggggggggg", None);
    let (drift, _) = classify_event(&evt, T0 + 1999);
    assert_eq!(drift, 1);
    let (drift, _) = classify_event(&evt, T0 - 1999);
    assert_eq!(drift, -1);
}
