use rraw::error::Error;
use rraw::fullname::{FullName, RedditType};

#[test]
fn parses_account_full_name() {
    let f = FullName::from_str("t2_abc123").unwrap();
    assert_eq!(f.reddit_type, RedditType::Account);
    assert_eq!(f.id, "abc123");
}

#[test]
fn round_trip_every_code() {
    for s in ["t1_a", "t2_abc123", "t3_x9", "t4_mmm", "t5_2qh1i", "t6_award"] {
        let f = FullName::from_str(s).unwrap();
        assert_eq!(f.to_string(), s);
    }
}

#[test]
fn type_codes() {
    assert_eq!(RedditType::Comment.get_id(), "t1");
    assert_eq!(RedditType::Account.get_id(), "t2");
    assert_eq!(RedditType::Link.get_id(), "t3");
    assert_eq!(RedditType::Message.get_id(), "t4");
    assert_eq!(RedditType::Subreddit.get_id(), "t5");
    assert_eq!(RedditType::Award.get_id(), "t6");
    assert_eq!(RedditType::from_str("t6").unwrap(), RedditType::Award);
}

#[test]
fn malformed_full_names_are_refused() {
    for s in ["t1", "t1_", "_abc", "t7_abc", "t1_a_b", "", "tt_abc", "t12_abc"] {
        assert!(matches!(FullName::from_str(s), Err(Error::Other(_))), "{}", s);
    }
}

#[test]
fn formats_type_and_id() {
    let f = FullName { reddit_type: RedditType::Link, id: "q1w2".to_string() };
    assert_eq!(f.to_string(), "t3_q1w2");
}
