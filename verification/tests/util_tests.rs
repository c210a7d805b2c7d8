use jetgraph::util::{get_post_uri, parse_rkey, pluralize};
use jetgraph::text::{str_eq, u64_dec};

#[test]
fn rkey_of_long_uri_is_last_13_chars() {
    let uri = "at://did:plc:xyz/app.bsky.feed.post/bbbbbbbbbbbbb";
    assert_eq!(parse_rkey(uri), "bbbbbbbbbbbbb");
}

#[test]
fn rkey_of_exactly_13_chars_is_whole() {
    assert_eq!(parse_rkey("aaaaaaaaaaaaa"), "aaaaaaaaaaaaa");
}

#[test]
fn rkey_of_short_uri_is_whole_and_does_not_panic() {
    assert_eq!(parse_rkey("short"), "short");
    assert_eq!(parse_rkey(""), "");
}

#[test]
fn rkey_ignores_all_but_the_tail() {
    assert_eq!(parse_rkey("at://a/b/3lbdbqqdxxc2w"), "3lbdbqqdxxc2w");
}

#[test]
fn post_uri_has_fixed_shape() {
    assert_eq!(
        get_post_uri("did:plc:abc".to_owned(), "aaaaaaaaaaaaa".to_owned()),
        "at://did:plc:abc/app.bsky.feed.post/aaaaaaaaaaaaa"
    );
}

#[test]
fn pluralize_suffix_rules() {
    assert_eq!(pluralize("post"), "posts");
    assert_eq!(pluralize("city"), "cities");
    assert_eq!(pluralize("boss"), "bosses");
    assert_eq!(pluralize("box"), "boxes");
    assert_eq!(pluralize("buzz"), "buzzes");
    assert_eq!(pluralize("potato"), "potatoes");
    assert_eq!(pluralize("boo"), "boos");
    assert_eq!(pluralize("haiku"), "haiki");
    assert_eq!(pluralize("o"), "oes");
}

#[test]
fn str_eq_compares_characters() {
    assert!(str_eq("abc", "abc"));
    assert!(!str_eq("abc", "abd"));
    assert!(!str_eq("abc", "ab"));
    assert!(str_eq("", ""));
}

#[test]
fn u64_dec_renders_decimal() {
    assert_eq!(u64_dec(0), "0");
    assert_eq!(u64_dec(7), "7");
    assert_eq!(u64_dec(1234567), "1234567");
    assert_eq!(u64_dec(u64::MAX), "18446744073709551615");
}
