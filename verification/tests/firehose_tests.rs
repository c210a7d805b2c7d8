use jetgraph::firehose::{connect_url, next_action, WsAction, WsEvent};
use jetgraph::queries;
use jetgraph::classify::Mutation;
use jetgraph::queries::{statements_for, ParamValue};

#[test]
fn payload_frames_are_processed() {
    let bytes = vec![1u8, 2, 3];
    match next_action(WsEvent::Data(bytes.clone()), 0) {
        WsAction::Process(p) => assert_eq!(p, bytes),
        _ => panic!("expected Process"),
    }
}

#[test]
fn idle_timeout_reconnects_with_rewound_cursor() {
    let now: u64 = 1_704_067_200_000_000;
    match next_action(WsEvent::TimedOut, now) {
        WsAction::Reconnect { cursor_us } => assert_eq!(cursor_us, now - 2_000_000),
        _ => panic!("expected Reconnect"),
    }
}

#[test]
fn cursor_is_floored_at_the_epoch() {
    match next_action(WsEvent::TimedOut, 1_000_000) {
        WsAction::Reconnect { cursor_us } => assert_eq!(cursor_us, 0),
        _ => panic!("expected Reconnect"),
    }
}

#[test]
fn close_reconnects_without_cursor() {
    assert!(matches!(next_action(WsEvent::Close, 5), WsAction::ReconnectPlain));
}

#[test]
fn control_frames_and_failed_reads_keep_reading() {
    assert!(matches!(next_action(WsEvent::Control, 5), WsAction::Wait));
    assert!(matches!(next_action(WsEvent::Failed, 5), WsAction::Wait));
}

#[test]
fn subscription_url_carries_collections_and_compression() {
    assert_eq!(
        connect_url("jetstream1.us-east.bsky.network", true, None),
        "wss://jetstream1.us-east.bsky.network/subscribe?wantedCollections=app.bsky.graph.*&wantedCollections=app.bsky.feed.*&compress=true"
    );
    assert_eq!(
        connect_url("example.test", false, None),
        "wss://example.test/subscribe?wantedCollections=app.bsky.graph.*&wantedCollections=app.bsky.feed.*&compress=false"
    );
}

#[test]
fn reconnect_url_appends_the_cursor() {
    assert_eq!(
        connect_url("example.test", true, Some(1_704_067_198_000_000)),
        "wss://example.test/subscribe?wantedCollections=app.bsky.graph.*&wantedCollections=app.bsky.feed.*&compress=true&cursor=1704067198000000"
    );
}

#[test]
fn follow_mutation_becomes_one_statement() {
    let stmts = statements_for(&Mutation::AddFollow {
        did: "did:plc:src".to_owned(),
        subject: "did:plc:dst".to_owned(),
        rkey: "ccccccccccccc".to_owned(),
    });
    assert_eq!(stmts.len(), 1);
    assert_eq!(stmts[0].text, queries::ADD_FOLLOW);
    assert_eq!(stmts[0].params.len(), 3);
    assert_eq!(stmts[0].params[0].0, "did");
    match &stmts[0].params[0].1 {
        ParamValue::Str(s) => assert_eq!(s, "did:plc:src"),
        _ => panic!("expected a string parameter"),
    }
}

#[test]
fn reply_post_becomes_two_statements_in_order() {
    let stmts = statements_for(&Mutation::AddPost {
        did: "did:plc:abc".to_owned(),
        rkey: "aaaaaaaaaaaaa".to_owned(),
        created_at: 5,
        is_reply: true,
        is_image: false,
        parent_rkey: Some("bbbbbbbbbbbbb".to_owned()),
    });
    assert_eq!(stmts.len(), 2);
    assert_eq!(stmts[0].text, queries::ADD_REPLY);
    assert_eq!(stmts[1].text, queries::ADD_POST);
    match &stmts[1].params[2].1 {
        ParamValue::Int(v) => assert_eq!(*v, 5),
        _ => panic!("expected an integer parameter"),
    }
    match &stmts[1].params[3].1 {
        ParamValue::Bool(v) => assert!(*v),
        _ => panic!("expected a boolean parameter"),
    }
}

#[test]
fn removals_carry_the_identity_keys() {
    let stmts = statements_for(&Mutation::RmBlock {
        did: "did:plc:blocker".to_owned(),
        rkey: "ddddddddddddd".to_owned(),
    });
    assert_eq!(stmts.len(), 1);
    assert_eq!(stmts[0].text, queries::RM_BLOCK);
    assert_eq!(stmts[0].params[0].0, "did");
    assert_eq!(stmts[0].params[1].0, "rkey");
}
