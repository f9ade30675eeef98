use rraw::error::{Error, ErrorKind, HTTPError, InternalError, RedditError};
use rraw::options::{decimal, FeedOption, FriendType, TimePeriod, WhereMessage};

#[test]
fn feed_option_query() {
    let f = FeedOption {
        after: Some("t3_a".to_string()),
        before: None,
        count: Some(25),
        period: Some(TimePeriod::Week),
    };
    assert_eq!(f.url(), "&after=t3_a&count=25&t=week");
    let mut path = "/user/x/comments".to_string();
    f.extend(&mut path);
    assert_eq!(path, "/user/x/comments?&after=t3_a&count=25&t=week");
    let empty = FeedOption { after: None, before: None, count: None, period: None };
    assert_eq!(empty.url(), "");
    let all = FeedOption {
        after: Some("a".to_string()),
        before: Some("b".to_string()),
        count: Some(0),
        period: Some(TimePeriod::AllTime),
    };
    assert_eq!(all.url(), "&after=a&before=b&count=0&t=all");
}

#[test]
fn decimal_text() {
    assert_eq!(decimal(0), "0");
    assert_eq!(decimal(7), "7");
    assert_eq!(decimal(10), "10");
    assert_eq!(decimal(4294967295), "4294967295");
    assert_eq!(decimal(u64::MAX), "18446744073709551615");
}

#[test]
fn vocabularies() {
    assert_eq!(TimePeriod::Now.get_string(), "now");
    assert_eq!(TimePeriod::Today.get_string(), "day");
    assert_eq!(TimePeriod::Month.get_string(), "month");
    assert_eq!(TimePeriod::Year.get_string(), "year");
    assert_eq!(FriendType::Contributor.get_string(), "contributor");
    assert_eq!(FriendType::Moderator.get_string(), "moderator");
    assert_eq!(FriendType::Custom("wiki".to_string()).get_string(), "wiki");
    assert_eq!(WhereMessage::Inbox.get_string(), "inbox");
    assert_eq!(WhereMessage::Unread.get_string(), "unread");
    assert_eq!(WhereMessage::SENT.get_string(), "sent");
}

#[test]
fn error_kinds() {
    assert_eq!(Error::HTTPError(HTTPError::NotFound).kind(), ErrorKind::Http);
    assert_eq!(Error::InternalError(InternalError::ReqwestError("dns".to_string())).kind(), ErrorKind::Transport);
    assert_eq!(Error::InternalError(InternalError::JSONError("eof".to_string())).kind(), ErrorKind::Decode);
    assert_eq!(Error::InternalError(InternalError::Custom("x".to_string())).kind(), ErrorKind::Domain);
    assert_eq!(Error::RedditError(RedditError::InvalidDataType("t9".to_string())).kind(), ErrorKind::Decode);
    assert_eq!(Error::Other("bad".to_string()).kind(), ErrorKind::Domain);
    assert_eq!(Error::TokenExpired.kind(), ErrorKind::ExpiredCredential);
    assert_eq!(Error::from_status(404), Error::HTTPError(HTTPError::NotFound));
    assert_eq!(HTTPError::from_status(418), HTTPError::Other(418));
    assert_eq!(rraw::error::into_result(204), Ok(()));
    assert_eq!(rraw::error::check_status(301), Err(Error::HTTPError(HTTPError::Other(301))));
}
