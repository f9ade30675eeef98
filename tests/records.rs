use rraw::error::{Error, InternalError};
use rraw::json::Json;
use rraw::records::{Contributor, Friend, Moderator, PersonalInformation};

fn obj(members: Vec<(&str, Json)>) -> Json {
    Json::Object(members.into_iter().map(|(k, v)| (k.to_string(), v)).collect())
}

fn s(v: &str) -> Json {
    Json::Str(v.to_string())
}

#[test]
fn friend_answer() {
    let f = Friend::from_json(&obj(vec![("success", Json::Bool(true))])).unwrap();
    assert!(f.success);
    let e = Friend::from_json(&obj(vec![])).unwrap_err();
    assert_eq!(e, Error::InternalError(InternalError::MissingField("success".to_string())));
}

#[test]
fn moderator_record() {
    let doc = obj(vec![
        ("name", s("mod1")),
        ("author_flair_text", Json::Null),
        ("date", Json::UInt(1600000000)),
        ("mod_permissions", Json::Array(vec![s("all"), s("wiki")])),
        ("id", s("t2_x")),
    ]);
    let m = Moderator::from_json(&doc).unwrap();
    assert_eq!(m.name, "mod1");
    assert_eq!(m.author_flair_text, None);
    assert_eq!(m.author_flair_css_class, None);
    assert_eq!(m.date, 1600000000);
    assert_eq!(m.mod_permissions, vec!["all".to_string(), "wiki".to_string()]);
    let bad = obj(vec![
        ("name", s("mod1")),
        ("date", Json::UInt(1)),
        ("mod_permissions", Json::Array(vec![s("all"), Json::UInt(2)])),
    ]);
    let e = Moderator::from_json(&bad).unwrap_err();
    assert_eq!(e, Error::InternalError(InternalError::InvalidType("mod_permissions".to_string())));
}

#[test]
fn contributor_record() {
    let doc = obj(vec![("name", s("c")), ("rel_id", s("rb_1")), ("date", Json::UInt(5))]);
    let c = Contributor::from_json(&doc).unwrap();
    assert_eq!(c.name, "c");
    assert_eq!(c.id, None);
    assert_eq!(c.rel_id, Some("rb_1".to_string()));
    assert_eq!(c.date, 5);
    let e = Contributor::from_json(&obj(vec![("name", s("c")), ("date", Json::Int(-1))])).unwrap_err();
    assert_eq!(e, Error::InternalError(InternalError::InvalidType("date".to_string())));
    let e = Contributor::from_json(&Json::Bool(false)).unwrap_err();
    assert_eq!(e, Error::InternalError(InternalError::NotAnObject));
}

#[test]
fn personal_information_record() {
    let doc = obj(vec![
        ("pref_no_profanity", Json::Bool(true)),
        ("has_external_account", Json::Bool(false)),
        ("pref_geopopular", s("GLOBAL")),
        ("pref_show_trending", Json::Bool(true)),
        ("pref_show_presence", Json::Bool(false)),
        ("gold_expiration", Json::Null),
        ("has_gold_subscription", Json::Bool(false)),
        ("coins", Json::Int(-3)),
        ("has_paypal_subscription", Json::Bool(false)),
        ("has_subscribed_to_premium", Json::Bool(true)),
    ]);
    let p = PersonalInformation::from_json(&doc).unwrap();
    assert!(p.pref_no_profanity);
    assert_eq!(p.pref_geopopular, "GLOBAL");
    assert_eq!(p.gold_expiration, None);
    assert_eq!(p.coins, -3);
    assert!(p.has_subscribed_to_premium);
    let e = PersonalInformation::from_json(&obj(vec![("pref_no_profanity", Json::Bool(true))])).unwrap_err();
    assert_eq!(e, Error::InternalError(InternalError::MissingField("has_external_account".to_string())));
}

#[test]
fn large_unsigned_is_not_a_signed_integer() {
    let mut members = vec![
        ("pref_no_profanity", Json::Bool(true)),
        ("has_external_account", Json::Bool(false)),
        ("pref_geopopular", s("")),
        ("pref_show_trending", Json::Bool(true)),
        ("pref_show_presence", Json::Bool(false)),
        ("gold_expiration", Json::UInt(u64::MAX)),
    ];
    members.push(("coins", Json::UInt(1)));
    let e = PersonalInformation::from_json(&obj(members)).unwrap_err();
    assert_eq!(e, Error::InternalError(InternalError::InvalidType("gold_expiration".to_string())));
}
