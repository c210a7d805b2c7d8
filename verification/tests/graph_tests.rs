use jetgraph::classify::Mutation;
use jetgraph::event::{BskyEvent, Commit, Record, Subject};
use jetgraph::graph::{handle_event_fast, GraphModel};

const T0: i64 = 1_704_067_200_000_000;

#[test]
fn add_post_then_lookup() {
    let mut g = GraphModel::new();
    g.add_post("did:plc:abc".to_owned(), "aaaaaaaaaaaaa".to_owned(), T0, false, true);
    assert!(g.is_user("did:plc:abc"));
    let p = g.get_post("did:plc:abc", "aaaaaaaaaaaaa").expect("post exists");
    assert_eq!(p.created_at, T0);
    assert!(!p.is_reply);
    assert!(p.is_image);
    assert!(g.get_post("did:plc:abc", "zzzzzzzzzzzzz").is_none());
}

#[test]
fn upsert_twice_keeps_one_post_with_latest_attributes() {
    let mut g = GraphModel::new();
    g.add_post("did:plc:abc".to_owned(), "aaaaaaaaaaaaa".to_owned(), T0, false, false);
    g.add_post("did:plc:abc".to_owned(), "aaaaaaaaaaaaa".to_owned(), T0 + 1, true, true);
    let p = g.get_post("did:plc:abc", "aaaaaaaaaaaaa").expect("post exists");
    assert_eq!(p.created_at, T0 + 1);
    assert!(p.is_reply);
    assert!(p.is_image);
}

#[test]
fn add_follow_twice_equals_once() {
    let mut g = GraphModel::new();
    g.add_follow("did:plc:src".to_owned(), "did:plc:dst".to_owned(), "ccccccccccccc".to_owned());
    g.add_follow("did:plc:src".to_owned(), "did:plc:dst".to_owned(), "ccccccccccccc".to_owned());
    assert_eq!(g.get_follow("did:plc:src", "ccccccccccccc").map(String::as_str), Some("did:plc:dst"));
    // One removal suffices: the two adds had the effect of one.
    g.rm_follow("did:plc:src", "ccccccccccccc");
    assert!(g.get_follow("did:plc:src", "ccccccccccccc").is_none());
}

#[test]
fn add_then_rm_restores_absence() {
    let mut g = GraphModel::new();
    g.add_like("did:plc:abc".to_owned(), "eeeeeeeeeeeee".to_owned(), "ggggggggggggg".to_owned());
    assert!(g.get_like("did:plc:abc", "ggggggggggggg").is_some());
    g.rm_like("did:plc:abc", "ggggggggggggg");
    assert!(g.get_like("did:plc:abc", "ggggggggggggg").is_none());

    g.add_repost("did:plc:abc".to_owned(), "eeeeeeeeeeeee".to_owned(), "fffffffffffff".to_owned());
    g.rm_repost("did:plc:abc", "fffffffffffff");
    assert!(g.get_repost("did:plc:abc", "fffffffffffff").is_none());

    g.add_block("did:plc:blockee".to_owned(), "did:plc:blocker".to_owned(), "ddddddddddddd".to_owned());
    assert_eq!(
        g.get_block("did:plc:blocker", "ddddddddddddd").map(String::as_str),
        Some("did:plc:blockee")
    );
    g.rm_block("did:plc:blocker", "ddddddddddddd");
    assert!(g.get_block("did:plc:blocker", "ddddddddddddd").is_none());
}

#[test]
fn rm_on_missing_key_is_a_no_op() {
    let mut g = GraphModel::new();
    g.rm_post("did:plc:abc", "aaaaaaaaaaaaa");
    g.rm_follow("did:plc:abc", "aaaaaaaaaaaaa");
    assert!(g.get_post("did:plc:abc", "aaaaaaaaaaaaa").is_none());
}

#[test]
fn rm_post_drops_its_reply_edge() {
    let mut g = GraphModel::new();
    g.add_reply("did:plc:abc".to_owned(), "aaaaaaaaaaaaa".to_owned(), "bbbbbbbbbbbbb".to_owned());
    g.add_post("did:plc:abc".to_owned(), "aaaaaaaaaaaaa".to_owned(), T0, true, false);
    assert_eq!(
        g.get_reply("did:plc:abc", "aaaaaaaaaaaaa").map(String::as_str),
        Some("bbbbbbbbbbbbb")
    );
    g.rm_post("did:plc:abc", "aaaaaaaaaaaaa");
    assert!(g.get_post("did:plc:abc", "aaaaaaaaaaaaa").is_none());
    assert!(g.get_reply("did:plc:abc", "aaaaaaaaaaaaa").is_none());
}

#[test]
fn users_survive_edge_removal() {
    let mut g = GraphModel::new();
    g.add_follow("did:plc:src".to_owned(), "did:plc:dst".to_owned(), "ccccccccccccc".to_owned());
    g.rm_follow("did:plc:src", "ccccccccccccc");
    assert!(g.is_user("did:plc:src"));
    assert!(g.is_user("did:plc:dst"));
}

#[test]
fn apply_routes_each_mutation() {
    let mut g = GraphModel::new();
    g.apply(&Mutation::AddFollow {
        did: "did:plc:src".to_owned(),
        subject: "did:plc:dst".to_owned(),
        rkey: "ccccccccccccc".to_owned(),
    });
    assert!(g.get_follow("did:plc:src", "ccccccccccccc").is_some());
    g.apply(&Mutation::RmFollow { did: "did:plc:src".to_owned(), rkey: "ccccccccccccc".to_owned() });
    assert!(g.get_follow("did:plc:src", "ccccccccccccc").is_none());
}

#[test]
fn reply_post_mutation_creates_edge_and_post() {
    let mut g = GraphModel::new();
    g.apply(&Mutation::AddPost {
        did: "did:plc:abc".to_owned(),
        rkey: "aaaaaaaaaaaaa".to_owned(),
        created_at: T0,
        is_reply: true,
        is_image: false,
        parent_rkey: Some("bbbbbbbbbbbbb".to_owned()),
    });
    assert!(g.get_post("did:plc:abc", "aaaaaaaaaaaaa").unwrap().is_reply);
    assert_eq!(
        g.get_reply("did:plc:abc", "aaaaaaaaaaaaa").map(String::as_str),
        Some("bbbbbbbbbbbbb")
    );
}

#[test]
fn follow_event_flows_end_to_end() {
    let mut g = GraphModel::new();
    let evt = BskyEvent {
        did: "did:plc:src".to_owned(),
        time_us: T0,
        commit: Some(Commit {
            operation: "create".to_owned(),
            collection: "app.bsky.graph.follow".to_owned(),
            rkey: "ccccccccccccc".to_owned(),
            record: Some(Record {
                created_at: String::new(),
                has_images: false,
                reply_parent_uri: None,
                subject: Some(Subject::Did("did:plc:target".to_owned())),
            }),
        }),
    };
    let drift = handle_event_fast(&evt, &mut g, T0 + 2_000_000);
    assert_eq!(drift, 2000);
    assert_eq!(
        g.get_follow("did:plc:src", "ccccccccccccc").map(String::as_str),
        Some("did:plc:target")
    );

    let del = BskyEvent {
        did: "did:plc:src".to_owned(),
        time_us: T0 + 10,
        commit: Some(Commit {
            operation: "delete".to_owned(),
            collection: "app.bsky.graph.follow".to_owned(),
            rkey: "ccccccccccccc".to_owned(),
            record: None,
        }),
    };
    handle_event_fast(&del, &mut g, T0 + 3_000_000);
    assert!(g.get_follow("did:plc:src", "ccccccccccccc").is_none());
}

#[test]
fn spam_event_leaves_graph_untouched() {
    let mut g = GraphModel::new();
    let evt = BskyEvent {
        did: "did:plc:fcnbisw7xl6lmtcnvioocffz".to_owned(),
        time_us: T0,
        commit: Some(Commit {
            operation: "create".to_owned(),
            collection: "app.bsky.feed.post".to_owned(),
            rkey: "aaaaaaaaaaaaa".to_owned(),
            record: Some(Record {
                created_at: "2024-01-01T00:00:00Z".to_owned(),
                has_images: false,
                reply_parent_uri: None,
                subject: None,
            }),
        }),
    };
    let drift = handle_event_fast(&evt, &mut g, T0 + 1_000_000);
    assert_eq!(drift, 0);
    assert!(g.get_post("did:plc:fcnbisw7xl6lmtcnvioocffz", "aaaaaaaaaaaaa").is_none());
    assert!(!g.is_user("did:plc:fcnbisw7xl6lmtcnvioocffz"));
}
