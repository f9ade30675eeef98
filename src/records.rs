//! Records of the friend and moderation endpoints and the personal part of
//! an account, read from their `data` objects.
use vstd::prelude::*;

use crate::error::{Error, InternalError};
use crate::json::{
    bool_fault, bool_value, i64_fault, i64_of, is_str_list, member, opt_i64_fault, opt_i64_value,
    opt_str_fault, opt_str_value, read_bool, read_i64, read_opt_i64, read_opt_str, read_str,
    read_str_list, read_u64, str_fault, str_list_fault, str_value, u64_fault, u64_value, Fault,
    Json,
};
use crate::responses::{flaw_error, Flaw};

verus! {

/// The flaw of member `key` under `fault`, if any.
pub open spec fn field_flaw(fault: Option<Fault>, key: Seq<char>) -> Option<Flaw> {
    match fault {
        Some(f) => Some(Flaw::Field(f, key)),
        None => None,
    }
}

/// `first` when it is a flaw, else `then`.
pub open spec fn or_else(first: Option<Flaw>, then: Option<Flaw>) -> Option<Flaw> {
    if first is Some {
        first
    } else {
        then
    }
}

/// The answer of a friend or unfriend call.
#[derive(Debug)]
pub struct Friend {
    pub success: bool,
}

/// The first flaw of a friend answer.
pub open spec fn friend_flaw(doc: Json) -> Option<Flaw> {
    if !(doc is Object) {
        Some(Flaw::NotAnObject)
    } else {
        field_flaw(bool_fault(member(doc, "success"@)), "success"@)
    }
}

impl Friend {
    /// Reads a friend answer.
    pub fn from_json(doc: &Json) -> (r: Result<Friend, Error>)
        ensures
            friend_flaw(*doc) matches Some(f) ==> (r is Err && flaw_error(r->Err_0, f)),
            friend_flaw(*doc) is None ==> (r matches Ok(v) && v.success == bool_value(
                member(*doc, "success"@),
            )),
    {
        let fields = match doc {
            Json::Object(f) => f,
            _ => {
                return Err(Error::InternalError(InternalError::NotAnObject));
            },
        };
        match read_bool(fields, "success") {
            Ok(success) => Ok(Friend { success }),
            Err(e) => Err(e),
        }
    }
}

/// A moderator of a subreddit.
#[derive(Debug)]
pub struct Moderator {
    pub name: String,
    pub author_flair_text: Option<String>,
    pub author_flair_css_class: Option<String>,
    pub date: u64,
    pub mod_permissions: Vec<String>,
}

/// The first flaw of a moderator record, in field order.
pub open spec fn moderator_flaw(doc: Json) -> Option<Flaw> {
    if !(doc is Object) {
        Some(Flaw::NotAnObject)
    } else {
        or_else(
            field_flaw(str_fault(member(doc, "name"@)), "name"@),
            or_else(
            field_flaw(opt_str_fault(member(doc, "author_flair_text"@)), "author_flair_text"@),
            or_else(
            field_flaw(
                    opt_str_fault(member(doc, "author_flair_css_class"@)),
                    "author_flair_css_class"@,
                ),
            or_else(
            field_flaw(u64_fault(member(doc, "date"@)), "date"@),
            field_flaw(str_list_fault(member(doc, "mod_permissions"@)), "mod_permissions"@),
        ),
        ),
        ),
        )
    }
}

impl Moderator {
    /// Reads a moderator record; unknown members are ignored.
    pub fn from_json(doc: &Json) -> (r: Result<Moderator, Error>)
        ensures
            moderator_flaw(*doc) matches Some(f) ==> (r is Err && flaw_error(r->Err_0, f)),
            moderator_flaw(*doc) is None ==> (r matches Ok(m) && {
                &&& m.name == str_value(member(*doc, "name"@))
                &&& m.author_flair_text == opt_str_value(member(*doc, "author_flair_text"@))
                &&& m.author_flair_css_class == opt_str_value(
                    member(*doc, "author_flair_css_class"@),
                )
                &&& m.date == u64_value(member(*doc, "date"@))
                &&& is_str_list(member(*doc, "mod_permissions"@), m.mod_permissions@)
            }),
    {
        let fields = match doc {
            Json::Object(f) => f,
            _ => {
                return Err(Error::InternalError(InternalError::NotAnObject));
            },
        };
        let name = match read_str(fields, "name") {
            Ok(v) => v,
            Err(e) => {
                return Err(e);
            },
        };
        let author_flair_text = match read_opt_str(fields, "author_flair_text") {
            Ok(v) => v,
            Err(e) => {
                return Err(e);
            },
        };
        let author_flair_css_class = match read_opt_str(fields, "author_flair_css_class") {
            Ok(v) => v,
            Err(e) => {
                return Err(e);
            },
        };
        let date = match read_u64(fields, "date") {
            Ok(v) => v,
            Err(e) => {
                return Err(e);
            },
        };
        let mod_permissions = match read_str_list(fields, "mod_permissions") {
            Ok(v) => v,
            Err(e) => {
                return Err(e);
            },
        };
        Ok(Moderator { name, author_flair_text, author_flair_css_class, date, mod_permissions })
    }
}

/// An approved contributor of a subreddit.
#[derive(Debug)]
pub struct Contributor {
    pub name: String,
    pub id: Option<String>,
    pub rel_id: Option<String>,
    pub date: u64,
}

/// The first flaw of a contributor record, in field order.
pub open spec fn contributor_flaw(doc: Json) -> Option<Flaw> {
    if !(doc is Object) {
        Some(Flaw::NotAnObject)
    } else {
        or_else(
            field_flaw(str_fault(member(doc, "name"@)), "name"@),
            or_else(
            field_flaw(opt_str_fault(member(doc, "id"@)), "id"@),
            or_else(
            field_flaw(opt_str_fault(member(doc, "rel_id"@)), "rel_id"@),
            field_flaw(u64_fault(member(doc, "date"@)), "date"@),
        ),
        ),
        )
    }
}

impl Contributor {
    /// Reads a contributor record; unknown members are ignored.
    pub fn from_json(doc: &Json) -> (r: Result<Contributor, Error>)
        ensures
            contributor_flaw(*doc) matches Some(f) ==> (r is Err && flaw_error(r->Err_0, f)),
            contributor_flaw(*doc) is None ==> (r matches Ok(c) && {
                &&& c.name == str_value(member(*doc, "name"@))
                &&& c.id == opt_str_value(member(*doc, "id"@))
                &&& c.rel_id == opt_str_value(member(*doc, "rel_id"@))
                &&& c.date == u64_value(member(*doc, "date"@))
            }),
    {
        let fields = match doc {
            Json::Object(f) => f,
            _ => {
                return Err(Error::InternalError(InternalError::NotAnObject));
            },
        };
        let name = match read_str(fields, "name") {
            Ok(v) => v,
            Err(e) => {
                return Err(e);
            },
        };
        let id = match read_opt_str(fields, "id") {
            Ok(v) => v,
            Err(e) => {
                return Err(e);
            },
        };
        let rel_id = match read_opt_str(fields, "rel_id") {
            Ok(v) => v,
            Err(e) => {
                return Err(e);
            },
        };
        let date = match read_u64(fields, "date") {
            Ok(v) => v,
            Err(e) => {
                return Err(e);
            },
        };
        Ok(Contributor { name, id, rel_id, date })
    }
}

/// The personal settings that an account shows to its owner.
#[derive(Debug)]
pub struct PersonalInformation {
    pub pref_no_profanity: bool,
    pub has_external_account: bool,
    pub pref_geopopular: String,
    pub pref_show_trending: bool,
    pub pref_show_presence: bool,
    pub gold_expiration: Option<i64>,
    pub has_gold_subscription: bool,
    pub coins: i64,
    pub has_paypal_subscription: bool,
    pub has_subscribed_to_premium: bool,
}

/// The first flaw of the personal settings, in field order.
pub open spec fn personal_flaw(doc: Json) -> Option<Flaw> {
    if !(doc is Object) {
        Some(Flaw::NotAnObject)
    } else {
        or_else(
            field_flaw(bool_fault(member(doc, "pref_no_profanity"@)), "pref_no_profanity"@),
            or_else(
            field_flaw(bool_fault(member(doc, "has_external_account"@)), "has_external_account"@),
            or_else(
            field_flaw(str_fault(member(doc, "pref_geopopular"@)), "pref_geopopular"@),
            or_else(
            field_flaw(bool_fault(member(doc, "pref_show_trending"@)), "pref_show_trending"@),
            or_else(
            field_flaw(bool_fault(member(doc, "pref_show_presence"@)), "pref_show_presence"@),
            or_else(
            field_flaw(opt_i64_fault(member(doc, "gold_expiration"@)), "gold_expiration"@),
            or_else(
            field_flaw(bool_fault(member(doc, "has_gold_subscription"@)), "has_gold_subscription"@),
            or_else(
            field_flaw(i64_fault(member(doc, "coins"@)), "coins"@),
            or_else(
            field_flaw(bool_fault(member(doc, "has_paypal_subscription"@)), "has_paypal_subscription"@),
            field_flaw(bool_fault(member(doc, "has_subscribed_to_premium"@)), "has_subscribed_to_premium"@),
        ),
        ),
        ),
        ),
        ),
        ),
        ),
        ),
        )
    }
}

impl PersonalInformation {
    /// Reads the personal settings of an account.
    pub fn from_json(doc: &Json) -> (r: Result<PersonalInformation, Error>)
        ensures
            personal_flaw(*doc) matches Some(f) ==> (r is Err && flaw_error(r->Err_0, f)),
            personal_flaw(*doc) is None ==> (r matches Ok(p) && {
                &&& p.pref_no_profanity == bool_value(member(*doc, "pref_no_profanity"@))
                &&& p.has_external_account == bool_value(member(*doc, "has_external_account"@))
                &&& p.pref_geopopular == str_value(member(*doc, "pref_geopopular"@))
                &&& p.pref_show_trending == bool_value(member(*doc, "pref_show_trending"@))
                &&& p.pref_show_presence == bool_value(member(*doc, "pref_show_presence"@))
                &&& p.gold_expiration == opt_i64_value(member(*doc, "gold_expiration"@))
                &&& p.has_gold_subscription == bool_value(member(*doc, "has_gold_subscription"@))
                &&& p.coins == i64_of(member(*doc, "coins"@)->0)
                &&& p.has_paypal_subscription == bool_value(member(*doc, "has_paypal_subscription"@))
                &&& p.has_subscribed_to_premium == bool_value(member(*doc, "has_subscribed_to_premium"@))
            }),
    {
        let fields = match doc {
            Json::Object(f) => f,
            _ => {
                return Err(Error::InternalError(InternalError::NotAnObject));
            },
        };
        let pref_no_profanity = match read_bool(fields, "pref_no_profanity") {
            Ok(v) => v,
            Err(e) => {
                return Err(e);
            },
        };
        let has_external_account = match read_bool(fields, "has_external_account") {
            Ok(v) => v,
            Err(e) => {
                return Err(e);
            },
        };
        let pref_geopopular = match read_str(fields, "pref_geopopular") {
            Ok(v) => v,
            Err(e) => {
                return Err(e);
            },
        };
        let pref_show_trending = match read_bool(fields, "pref_show_trending") {
            Ok(v) => v,
            Err(e) => {
                return Err(e);
            },
        };
        let pref_show_presence = match read_bool(fields, "pref_show_presence") {
            Ok(v) => v,
            Err(e) => {
                return Err(e);
            },
        };
        let gold_expiration = match read_opt_i64(fields, "gold_expiration") {
            Ok(v) => v,
            Err(e) => {
                return Err(e);
            },
        };
        let has_gold_subscription = match read_bool(fields, "has_gold_subscription") {
            Ok(v) => v,
            Err(e) => {
                return Err(e);
            },
        };
        let coins = match read_i64(fields, "coins") {
            Ok(v) => v,
            Err(e) => {
                return Err(e);
            },
        };
        let has_paypal_subscription = match read_bool(fields, "has_paypal_subscription") {
            Ok(v) => v,
            Err(e) => {
                return Err(e);
            },
        };
        let has_subscribed_to_premium = match read_bool(fields, "has_subscribed_to_premium") {
            Ok(v) => v,
            Err(e) => {
                return Err(e);
            },
        };
        Ok(PersonalInformation { pref_no_profanity, has_external_account, pref_geopopular, pref_show_trending, pref_show_presence, gold_expiration, has_gold_subscription, coins, has_paypal_subscription, has_subscribed_to_premium })
    }
}

} // verus!
