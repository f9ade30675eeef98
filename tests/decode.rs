use rraw::error::{Error, ErrorKind, InternalError, RedditError};
use rraw::json::Json;
use rraw::responses::{decode_response, read_response, RedditDataType, RedditTypeResponse};

fn s(v: &str) -> Json {
    Json::Str(v.to_string())
}

fn obj(members: Vec<(&str, Json)>) -> Json {
    Json::Object(members.into_iter().map(|(k, v)| (k.to_string(), v)).collect())
}

fn tagged(kind: &str, data: Json) -> Json {
    obj(vec![("kind", s(kind)), ("data", data)])
}

#[test]
fn mixed_listing_keeps_order() {
    let comment = tagged("t1", obj(vec![("body", s("hello")), ("id", s("c1"))]));
    let link = tagged("t3", obj(vec![("title", s("a link")), ("id", s("l1"))]));
    let doc = tagged("Listing", obj(vec![("children", Json::Array(vec![comment, link]))]));
    let r = decode_response(doc).unwrap();
    assert_eq!(r.kind, RedditDataType::Listing);
    match r.data {
        RedditTypeResponse::Listing(l) => {
            assert_eq!(l.children.len(), 2);
            assert_eq!(l.children[0].kind, RedditDataType::Comment);
            assert_eq!(l.children[1].kind, RedditDataType::Link);
            match &l.children[0].data {
                RedditTypeResponse::Comment(Json::Object(m)) => assert_eq!(m[1].0, "id"),
                other => panic!("unexpected {:?}", other),
            }
            assert!(matches!(l.children[1].data, RedditTypeResponse::Link(_)));
            assert_eq!(l.after, None);
        }
        other => panic!("unexpected {:?}", other),
    }
}

#[test]
fn each_known_kind_decodes_to_its_variant() {
    let cases = [
        ("t1", RedditDataType::Comment),
        ("t2", RedditDataType::Account),
        ("t3", RedditDataType::Link),
        ("t4", RedditDataType::Message),
        ("t5", RedditDataType::Subreddit),
        ("t6", RedditDataType::Award),
    ];
    for (code, kind) in cases {
        let r = decode_response(tagged(code, obj(vec![]))).unwrap();
        assert_eq!(r.kind, kind);
        let matching = match (&r.data, kind) {
            (RedditTypeResponse::Comment(_), RedditDataType::Comment) => true,
            (RedditTypeResponse::Account(_), RedditDataType::Account) => true,
            (RedditTypeResponse::Link(_), RedditDataType::Link) => true,
            (RedditTypeResponse::Message(_), RedditDataType::Message) => true,
            (RedditTypeResponse::Subreddit(_), RedditDataType::Subreddit) => true,
            (RedditTypeResponse::Award, RedditDataType::Award) => true,
            _ => false,
        };
        assert!(matching, "{}", code);
    }
}

#[test]
fn award_needs_no_data() {
    let r = decode_response(obj(vec![("kind", s("t6"))])).unwrap();
    assert!(matches!(r.data, RedditTypeResponse::Award));
}

#[test]
fn unknown_kind_is_a_decode_error() {
    let e = decode_response(tagged("t9", obj(vec![]))).unwrap_err();
    assert_eq!(e, Error::RedditError(RedditError::InvalidDataType("t9".to_string())));
    assert_eq!(e.kind(), ErrorKind::Decode);
}

#[test]
fn missing_kind_is_a_decode_error() {
    let e = decode_response(obj(vec![("data", obj(vec![]))])).unwrap_err();
    assert_eq!(e, Error::InternalError(InternalError::MissingKind));
    let e = decode_response(obj(vec![("kind", Json::UInt(1))])).unwrap_err();
    assert_eq!(e, Error::InternalError(InternalError::MissingKind));
}

#[test]
fn record_data_must_be_present_and_an_object() {
    let e = decode_response(obj(vec![("kind", s("t1"))])).unwrap_err();
    assert_eq!(e, Error::InternalError(InternalError::MissingField("data".to_string())));
    let e = decode_response(tagged("t2", s("x"))).unwrap_err();
    assert_eq!(e, Error::InternalError(InternalError::InvalidType("data".to_string())));
}

#[test]
fn document_must_be_an_object() {
    let e = decode_response(Json::Array(vec![])).unwrap_err();
    assert_eq!(e, Error::InternalError(InternalError::NotAnObject));
}

#[test]
fn listing_members_are_checked() {
    let e = decode_response(tagged("Listing", obj(vec![]))).unwrap_err();
    assert_eq!(e, Error::InternalError(InternalError::MissingField("children".to_string())));
    let e = decode_response(tagged("Listing", obj(vec![("children", s("no"))]))).unwrap_err();
    assert_eq!(e, Error::InternalError(InternalError::InvalidType("children".to_string())));
    let bad_after = obj(vec![("children", Json::Array(vec![])), ("after", Json::UInt(3))]);
    let e = decode_response(tagged("Listing", bad_after)).unwrap_err();
    assert_eq!(e, Error::InternalError(InternalError::InvalidType("after".to_string())));
}

#[test]
fn listing_cursors_and_unknown_members() {
    let data = obj(vec![
        ("after", s("t3_next")),
        ("before", Json::Null),
        ("dist", Json::UInt(0)),
        ("children", Json::Array(vec![])),
    ]);
    let r = decode_response(tagged("Listing", data)).unwrap();
    match r.data {
        RedditTypeResponse::Listing(l) => {
            assert_eq!(l.after, Some("t3_next".to_string()));
            assert_eq!(l.before, None);
            assert_eq!(l.modhash, None);
            assert!(l.children.is_empty());
        }
        other => panic!("unexpected {:?}", other),
    }
}

#[test]
fn first_bad_child_is_reported() {
    let children = Json::Array(vec![
        tagged("t1", obj(vec![])),
        tagged("t8", obj(vec![])),
        tagged("t7", obj(vec![])),
    ]);
    let e = decode_response(tagged("Listing", obj(vec![("children", children)]))).unwrap_err();
    assert_eq!(e, Error::RedditError(RedditError::InvalidDataType("t8".to_string())));
}

#[test]
fn nested_listing_decodes() {
    let inner = tagged("Listing", obj(vec![("children", Json::Array(vec![tagged("t5", obj(vec![]))]))]));
    let outer = tagged("Listing", obj(vec![("children", Json::Array(vec![inner]))]));
    let r = decode_response(outer).unwrap();
    match r.data {
        RedditTypeResponse::Listing(l) => match &l.children[0].data {
            RedditTypeResponse::Listing(l2) => {
                assert_eq!(l2.children[0].kind, RedditDataType::Subreddit)
            }
            other => panic!("unexpected {:?}", other),
        },
        other => panic!("unexpected {:?}", other),
    }
}

#[test]
fn read_response_checks_status_first() {
    let e = read_response(404, tagged("t1", obj(vec![]))).unwrap_err();
    assert_eq!(e.kind(), ErrorKind::Http);
    assert!(read_response(200, tagged("t1", obj(vec![]))).is_ok());
}

#[test]
fn kind_text_round_trips() {
    for t in [
        RedditDataType::Listing,
        RedditDataType::Comment,
        RedditDataType::Account,
        RedditDataType::Link,
        RedditDataType::Message,
        RedditDataType::Subreddit,
        RedditDataType::Award,
    ] {
        assert_eq!(RedditDataType::from_str(t.get_string()).unwrap(), t);
    }
    assert_eq!(RedditDataType::Award.get_string(), "t6");
}
