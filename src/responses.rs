//! Tagged responses: `{kind, data}` envelopes whose `data` schema is chosen
//! by `kind` alone, and listings of them.
use vstd::prelude::*;

use crate::error::{check_status, http_error_of, is_success, kind_of, Error, ErrorKind, InternalError, RedditError};
use crate::json::{
    lookup, member, opt_str_fault, opt_str_value, position, read_opt_str, reports, Fault, Json,
};
use crate::text::same_text;

verus! {

/// The data types that a `kind` can name.
#[derive(Debug, Clone, Copy, PartialEq, Eq, Structural)]
pub enum RedditDataType {
    /// Kind `Listing`.
    Listing,
    /// Kind `t1`.
    Comment,
    /// Kind `t2`.
    Account,
    /// Kind `t3`.
    Link,
    /// Kind `t4`.
    Message,
    /// Kind `t5`.
    Subreddit,
    /// Kind `t6`.
    Award,
}

/// The kind text of each data type.
pub open spec fn data_type_text(t: RedditDataType) -> Seq<char> {
    match t {
        RedditDataType::Listing => "Listing"@,
        RedditDataType::Comment => "t1"@,
        RedditDataType::Account => "t2"@,
        RedditDataType::Link => "t3"@,
        RedditDataType::Message => "t4"@,
        RedditDataType::Subreddit => "t5"@,
        RedditDataType::Award => "t6"@,
    }
}

/// The data type that kind text `s` names, if any.
pub open spec fn data_type_of(s: Seq<char>) -> Option<RedditDataType> {
    if s == "t1"@ {
        Some(RedditDataType::Comment)
    } else if s == "t2"@ {
        Some(RedditDataType::Account)
    } else if s == "t3"@ {
        Some(RedditDataType::Link)
    } else if s == "t4"@ {
        Some(RedditDataType::Message)
    } else if s == "t5"@ {
        Some(RedditDataType::Subreddit)
    } else if s == "t6"@ {
        Some(RedditDataType::Award)
    } else if s == "Listing"@ {
        Some(RedditDataType::Listing)
    } else {
        None
    }
}

impl RedditDataType {
    /// The kind text of this data type.
    pub fn get_string(&self) -> (r: &'static str)
        ensures
            r@ == data_type_text(*self),
    {
        match self {
            RedditDataType::Listing => "Listing",
            RedditDataType::Comment => "t1",
            RedditDataType::Account => "t2",
            RedditDataType::Link => "t3",
            RedditDataType::Message => "t4",
            RedditDataType::Subreddit => "t5",
            RedditDataType::Award => "t6",
        }
    }

    /// The data type that `s` names; any other text is an invalid data type.
    pub fn from_str(s: &str) -> (r: Result<RedditDataType, RedditError>)
        ensures
            data_type_of(s@) matches Some(t) ==> r == Ok::<RedditDataType, RedditError>(t),
            data_type_of(s@) is None ==> (r matches Err(RedditError::InvalidDataType(k)) && k@ == s@),
    {
        if same_text(s, "t1") {
            Ok(RedditDataType::Comment)
        } else if same_text(s, "t2") {
            Ok(RedditDataType::Account)
        } else if same_text(s, "t3") {
            Ok(RedditDataType::Link)
        } else if same_text(s, "t4") {
            Ok(RedditDataType::Message)
        } else if same_text(s, "t5") {
            Ok(RedditDataType::Subreddit)
        } else if same_text(s, "t6") {
            Ok(RedditDataType::Award)
        } else if same_text(s, "Listing") {
            Ok(RedditDataType::Listing)
        } else {
            Err(RedditError::InvalidDataType(s.to_owned()))
        }
    }
}

/// A page of items with its cursors.
#[derive(Debug)]
pub struct Listing<T> {
    pub modhash: Option<String>,
    pub after: Option<String>,
    pub before: Option<String>,
    pub children: Vec<T>,
}

/// An envelope: the kind and the data decoded by it.
#[derive(Debug)]
pub struct GenericResponse<T> {
    pub kind: RedditDataType,
    pub data: T,
}

/// The payload of a tagged response, chosen by its kind. Record kinds keep
/// their `data` object for the caller's record type.
#[derive(Debug)]
pub enum RedditTypeResponse {
    Listing(Listing<GenericResponse<RedditTypeResponse>>),
    Comment(Json),
    Account(Json),
    Link(Json),
    Message(Json),
    Subreddit(Json),
    Award,
}

/// A tagged response of any kind.
pub type RedditResponse = GenericResponse<RedditTypeResponse>;

/// The kind that a payload variant stands for.
pub open spec fn kind_of_payload(p: RedditTypeResponse) -> RedditDataType {
    match p {
        RedditTypeResponse::Listing(_) => RedditDataType::Listing,
        RedditTypeResponse::Comment(_) => RedditDataType::Comment,
        RedditTypeResponse::Account(_) => RedditDataType::Account,
        RedditTypeResponse::Link(_) => RedditDataType::Link,
        RedditTypeResponse::Message(_) => RedditDataType::Message,
        RedditTypeResponse::Subreddit(_) => RedditDataType::Subreddit,
        RedditTypeResponse::Award => RedditDataType::Award,
    }
}

impl RedditTypeResponse {
    /// Wraps a payload in the envelope of its own kind.
    pub fn into_response(self) -> (r: RedditResponse)
        ensures
            r.kind == kind_of_payload(self),
            r.data == self,
    {
        let kind = match &self {
            RedditTypeResponse::Listing(_) => RedditDataType::Listing,
            RedditTypeResponse::Comment(_) => RedditDataType::Comment,
            RedditTypeResponse::Account(_) => RedditDataType::Account,
            RedditTypeResponse::Link(_) => RedditDataType::Link,
            RedditTypeResponse::Message(_) => RedditDataType::Message,
            RedditTypeResponse::Subreddit(_) => RedditDataType::Subreddit,
            RedditTypeResponse::Award => RedditDataType::Award,
        };
        GenericResponse { kind, data: self }
    }
}

/// What is wrong with a tagged document at its own level.
pub enum Flaw {
    NotAnObject,
    MissingKind,
    UnknownKind(Seq<char>),
    Field(Fault, Seq<char>),
}

/// `e` is the error that reports `flaw`.
pub open spec fn flaw_error(e: Error, flaw: Flaw) -> bool {
    match flaw {
        Flaw::NotAnObject => e == Error::InternalError(InternalError::NotAnObject),
        Flaw::MissingKind => e == Error::InternalError(InternalError::MissingKind),
        Flaw::UnknownKind(k) => e matches Error::RedditError(RedditError::InvalidDataType(name))
            && name@ == k,
        Flaw::Field(fault, key) => reports(e, fault, key),
    }
}

/// The `data` member of a document (null when absent).
pub open spec fn data_of(doc: Json) -> Json {
    match member(doc, "data"@) {
        Some(d) => d,
        None => Json::Null,
    }
}

/// The children array of a listing's data (empty when absent).
pub open spec fn children_of(d: Json) -> Seq<Json> {
    match member(d, "children"@) {
        Some(Json::Array(v)) => v@,
        _ => Seq::empty(),
    }
}

/// The first flaw among the members of a listing's data, in the order
/// children, modhash, after, before.
pub open spec fn listing_flaw(d: Json) -> Option<Flaw> {
    if !(d is Object) {
        Some(Flaw::Field(Fault::WrongType, "data"@))
    } else if member(d, "children"@) is None {
        Some(Flaw::Field(Fault::Missing, "children"@))
    } else if !(member(d, "children"@) matches Some(Json::Array(_))) {
        Some(Flaw::Field(Fault::WrongType, "children"@))
    } else if opt_str_fault(member(d, "modhash"@)) is Some {
        Some(Flaw::Field(opt_str_fault(member(d, "modhash"@))->0, "modhash"@))
    } else if opt_str_fault(member(d, "after"@)) is Some {
        Some(Flaw::Field(opt_str_fault(member(d, "after"@))->0, "after"@))
    } else if opt_str_fault(member(d, "before"@)) is Some {
        Some(Flaw::Field(opt_str_fault(member(d, "before"@))->0, "before"@))
    } else {
        None
    }
}

/// The kind that `doc` names, when it is an object with a known string kind.
pub open spec fn kind_named(doc: Json) -> Option<RedditDataType> {
    match member(doc, "kind"@) {
        Some(Json::Str(k)) => data_type_of(k@),
        _ => None,
    }
}

/// The first flaw of `doc` at its own level; the children of a listing are
/// not looked at.
pub open spec fn top_flaw(doc: Json) -> Option<Flaw> {
    if !(doc is Object) {
        Some(Flaw::NotAnObject)
    } else {
        match member(doc, "kind"@) {
            Some(Json::Str(k)) => match data_type_of(k@) {
                None => Some(Flaw::UnknownKind(k@)),
                Some(RedditDataType::Award) => None,
                Some(t) => if member(doc, "data"@) is None {
                    Some(Flaw::Field(Fault::Missing, "data"@))
                } else if t == RedditDataType::Listing {
                    listing_flaw(data_of(doc))
                } else if !(data_of(doc) is Object) {
                    Some(Flaw::Field(Fault::WrongType, "data"@))
                } else {
                    None
                },
            },
            _ => Some(Flaw::MissingKind),
        }
    }
}

/// The first member named `key` is one of the members.
pub proof fn lemma_lookup_index(fields: Seq<(String, Json)>, key: Seq<char>)
    requires
        lookup(fields, key) is Some,
    ensures
        exists|j: int| 0 <= j < fields.len() && fields[j].1 == lookup(fields, key)->0,
    decreases fields.len(),
{
    if fields[0].0@ != key {
        lemma_lookup_index(fields.drop_first(), key);
        let j = choose|j: int|
            0 <= j < fields.drop_first().len() && fields.drop_first()[j].1 == lookup(
                fields.drop_first(),
                key,
            )->0;
        assert(fields[j + 1] == fields.drop_first()[j]);
    }
}

/// A member of a document is smaller than the document.
pub proof fn lemma_member_smaller(doc: Json, key: Seq<char>)
    requires
        member(doc, key) is Some,
    ensures
        decreases_to!(doc => member(doc, key)->0),
{
    if let Json::Object(fields) = doc {
        lemma_lookup_index(fields@, key);
        let j = choose|j: int| 0 <= j < fields@.len() && fields@[j].1 == lookup(fields@, key)->0;
        assert(decreases_to!(doc => fields));
        assert(decreases_to!(fields => fields@));
        assert(decreases_to!(fields@ => fields@[j]));
        assert(decreases_to!(fields@[j] => fields@[j].1));
    }
}

/// Each child of a listing's data is smaller than the data.
pub proof fn lemma_children_smaller(d: Json, i: int)
    requires
        0 <= i < children_of(d).len(),
    ensures
        decreases_to!(d => children_of(d)[i]),
{
    if let Some(Json::Array(v)) = member(d, "children"@) {
        lemma_member_smaller(d, "children"@);
        let a = member(d, "children"@)->0;
        assert(decreases_to!(a => v));
        assert(decreases_to!(v => v@));
        assert(decreases_to!(v@ => v@[i]));
    }
}

/// Each child of a listing is smaller than the document that holds it.
pub proof fn lemma_child_smaller(doc: Json, i: int)
    requires
        0 <= i < children_of(data_of(doc)).len(),
    ensures
        decreases_to!(doc => children_of(data_of(doc))[i]),
{
    let d = data_of(doc);
    if member(doc, "data"@) is Some {
        lemma_member_smaller(doc, "data"@);
    }
    lemma_children_smaller(d, i);
}

/// Whether `doc` decodes: no flaw at its own level and, for a listing,
/// every child decodes.
pub open spec fn decode_ok(doc: Json) -> bool
    decreases doc,
{
    top_flaw(doc) is None && (kind_named(doc) == Some(RedditDataType::Listing) ==> forall|i: int|
        0 <= i < children_of(data_of(doc)).len() ==> {
            proof {
                lemma_child_smaller(doc, i);
            }
            decode_ok(#[trigger] children_of(data_of(doc))[i])
        })
}

/// `ch` has a child that does not decode, and `i` is the first such.
pub open spec fn is_first_failure(ch: Seq<Json>, i: int) -> bool {
    &&& 0 <= i < ch.len()
    &&& !decode_ok(ch[i])
    &&& forall|j: int| 0 <= j < i ==> decode_ok(#[trigger] ch[j])
}

/// `e` is the error that decoding `doc` reports: its own first flaw or,
/// for a listing, the error of its first child that does not decode.
pub open spec fn decode_err(doc: Json, e: Error) -> bool
    decreases doc,
{
    match top_flaw(doc) {
        Some(f) => flaw_error(e, f),
        None => {
            let ch = children_of(data_of(doc));
            if kind_named(doc) == Some(RedditDataType::Listing) && exists|i: int|
                is_first_failure(ch, i) {
                let i = choose|i: int| is_first_failure(ch, i);
                proof {
                    lemma_child_smaller(doc, i);
                }
                decode_err(ch[i], e)
            } else {
                false
            }
        },
    }
}

/// `r` is what `doc` decodes to: the kind it names, with its `data` object
/// for a record kind, nothing for an award, and for a listing its cursors
/// and each child decoded in order.
pub open spec fn decoded(doc: Json, r: RedditResponse) -> bool
    decreases doc,
{
    let d = data_of(doc);
    &&& kind_named(doc) == Some(r.kind)
    &&& kind_of_payload(r.data) == r.kind
    &&& match r.data {
        RedditTypeResponse::Listing(l) => {
            &&& l.modhash == opt_str_value(member(d, "modhash"@))
            &&& l.after == opt_str_value(member(d, "after"@))
            &&& l.before == opt_str_value(member(d, "before"@))
            &&& l.children@.len() == children_of(d).len()
            &&& member(doc, "data"@) is Some
            &&& forall|i: int|
                0 <= i < children_of(d).len() ==> {
                    proof {
                        lemma_child_smaller(doc, i);
                    }
                    decoded(#[trigger] children_of(d)[i], l.children@[i])
                }
        },
        RedditTypeResponse::Comment(p) => p == d,
        RedditTypeResponse::Account(p) => p == d,
        RedditTypeResponse::Link(p) => p == d,
        RedditTypeResponse::Message(p) => p == d,
        RedditTypeResponse::Subreddit(p) => p == d,
        RedditTypeResponse::Award => true,
    }
}

/// Decodes the data of a listing: its members, then each child in order.
fn decode_listing(d: Json) -> (r: Result<Listing<RedditResponse>, Error>)
    ensures
        listing_flaw(d) matches Some(f) ==> (r is Err && flaw_error(r->Err_0, f)),
        listing_flaw(d) is None && (forall|i: int|
            0 <= i < children_of(d).len() ==> decode_ok(#[trigger] children_of(d)[i])) ==> (
        r matches Ok(l) && {
            &&& l.modhash == opt_str_value(member(d, "modhash"@))
            &&& l.after == opt_str_value(member(d, "after"@))
            &&& l.before == opt_str_value(member(d, "before"@))
            &&& l.children@.len() == children_of(d).len()
            &&& forall|i: int|
                0 <= i < children_of(d).len() ==> decoded(
                    #[trigger] children_of(d)[i],
                    l.children@[i],
                )
        }),
        listing_flaw(d) is None && !(forall|i: int|
            0 <= i < children_of(d).len() ==> decode_ok(#[trigger] children_of(d)[i])) ==> (
        r is Err && exists|i: int|
            is_first_failure(children_of(d), i) && decode_err(children_of(d)[i], r->Err_0)),
    decreases d,
{
    let ghost ch = children_of(d);
    let mut fields = match d {
        Json::Object(f) => f,
        _ => {
            return Err(Error::invalid_type("data"));
        },
    };
    let k = match position(&fields, "children") {
        None => {
            return Err(Error::missing_field("children"));
        },
        Some(k) => k,
    };
    match &fields[k].1 {
        Json::Array(_) => {},
        _ => {
            return Err(Error::invalid_type("children"));
        },
    }
    let modhash = match read_opt_str(&fields, "modhash") {
        Ok(v) => v,
        Err(e) => {
            return Err(e);
        },
    };
    let after = match read_opt_str(&fields, "after") {
        Ok(v) => v,
        Err(e) => {
            return Err(e);
        },
    };
    let before = match read_opt_str(&fields, "before") {
        Ok(v) => v,
        Err(e) => {
            return Err(e);
        },
    };
    let mut items = match fields.remove(k).1 {
        Json::Array(v) => v,
        _ => {
            return Err(Error::invalid_type("children"));
        },
    };
    assert(items@ == ch);
    let mut children: Vec<RedditResponse> = Vec::new();
    let n = items.len();
    let mut i: usize = 0;
    assert(ch.subrange(0, n as int) == ch);
    while i < n
        invariant
            i <= n == ch.len(),
            items@ == ch.subrange(i as int, n as int),
            children@.len() == i,
            forall|j: int| 0 <= j < i ==> decode_ok(#[trigger] ch[j]),
            forall|j: int| 0 <= j < i ==> decoded(#[trigger] ch[j], children@[j]),
            ch == children_of(d),
            listing_flaw(d) is None,
        decreases n - i,
    {
        let child = items.remove(0);
        assert(child == ch[i as int]);
        assert(items@ =~= ch.subrange(i + 1, n as int));
        proof {
            lemma_children_smaller(d, i as int);
        }
        match decode_response(child) {
            Ok(c) => {
                children.push(c);
            },
            Err(e) => {
                assert(is_first_failure(ch, i as int));
                return Err(e);
            },
        }
        i = i + 1;
    }
    Ok(Listing { modhash, after, before, children })
}

/// Decodes a tagged response: reads `kind`, picks the schema it names, and
/// decodes `data` by that schema alone. A listing decodes each child the
/// same way and keeps their order.
pub fn decode_response(doc: Json) -> (r: Result<RedditResponse, Error>)
    ensures
        decode_ok(doc) ==> (r is Ok && decoded(doc, r->Ok_0)),
        !decode_ok(doc) ==> (r is Err && decode_err(doc, r->Err_0)),
    decreases doc,
{
    let mut fields = match doc {
        Json::Object(f) => f,
        _ => {
            return Err(Error::InternalError(InternalError::NotAnObject));
        },
    };
    let kind_text = match position(&fields, "kind") {
        Some(i) => match &fields[i].1 {
            Json::Str(s) => s.clone(),
            _ => {
                return Err(Error::InternalError(InternalError::MissingKind));
            },
        },
        None => {
            return Err(Error::InternalError(InternalError::MissingKind));
        },
    };
    let kind = match RedditDataType::from_str(kind_text.as_str()) {
        Ok(t) => t,
        Err(e) => {
            return Err(Error::RedditError(e));
        },
    };
    if let RedditDataType::Award = kind {
        return Ok(RedditTypeResponse::Award.into_response());
    }
    let data = match position(&fields, "data") {
        Some(j) => fields.remove(j).1,
        None => {
            return Err(Error::missing_field("data"));
        },
    };
    assert(data == data_of(doc));
    if let RedditDataType::Listing = kind {
        proof {
            lemma_member_smaller(doc, "data"@);
        }
        return match decode_listing(data) {
            Ok(l) => Ok(RedditTypeResponse::Listing(l).into_response()),
            Err(e) => Err(e),
        };
    }
    match data {
        Json::Object(_) => {},
        _ => {
            return Err(Error::invalid_type("data"));
        },
    }
    let payload = match kind {
        RedditDataType::Comment => RedditTypeResponse::Comment(data),
        RedditDataType::Account => RedditTypeResponse::Account(data),
        RedditDataType::Link => RedditTypeResponse::Link(data),
        RedditDataType::Message => RedditTypeResponse::Message(data),
        _ => RedditTypeResponse::Subreddit(data),
    };
    Ok(payload.into_response())
}

/// Reads a tagged response: a non-success status is an HTTP error,
/// otherwise the body is decoded by its kind.
pub fn read_response(status: u16, doc: Json) -> (r: Result<RedditResponse, Error>)
    ensures
        !is_success(status) ==> r == Err::<RedditResponse, Error>(
            Error::HTTPError(http_error_of(status)),
        ),
        is_success(status) && decode_ok(doc) ==> (r is Ok && decoded(doc, r->Ok_0)),
        is_success(status) && !decode_ok(doc) ==> (r is Err && decode_err(doc, r->Err_0)),
{
    match check_status(status) {
        Ok(()) => decode_response(doc),
        Err(e) => Err(e),
    }
}

/// A document of a known record kind whose `data` is an object, or of the
/// award kind, decodes, and only to a response of that kind.
pub proof fn lemma_known_kind_decodes(doc: Json, t: RedditDataType)
    requires
        doc is Object,
        kind_named(doc) == Some(t),
        t != RedditDataType::Listing,
        t != RedditDataType::Award ==> data_of(doc) is Object,
    ensures
        decode_ok(doc),
        forall|r: RedditResponse| decoded(doc, r) ==> r.kind == t && kind_of_payload(r.data) == t,
{
    reveal_strlit("t1");
    reveal_strlit("t2");
    reveal_strlit("t3");
    reveal_strlit("t4");
    reveal_strlit("t5");
    reveal_strlit("t6");
    reveal_strlit("Listing");
    assert(member(doc, "data"@) is Some ==> data_of(doc) == member(doc, "data"@)->0);
}

/// A document whose kind is a string that names no known type does not
/// decode, and the error is a decode error naming that kind.
pub proof fn lemma_unknown_kind_fails(doc: Json, k: String)
    requires
        doc is Object,
        member(doc, "kind"@) == Some(Json::Str(k)),
        data_type_of(k@) is None,
    ensures
        !decode_ok(doc),
        forall|e: Error| decode_err(doc, e) ==> kind_of(e) == ErrorKind::Decode && (
        e matches Error::RedditError(RedditError::InvalidDataType(name)) && name@ == k@),
{
}

/// A listing decodes to its children in input order, each child resolved
/// by its own kind.
pub proof fn lemma_listing_order(doc: Json, r: RedditResponse, i: int)
    requires
        kind_named(doc) == Some(RedditDataType::Listing),
        decoded(doc, r),
        0 <= i < children_of(data_of(doc)).len(),
    ensures
        r.data matches RedditTypeResponse::Listing(l) && {
            &&& l.children@.len() == children_of(data_of(doc)).len()
            &&& decoded(children_of(data_of(doc))[i], l.children@[i])
            &&& kind_named(children_of(data_of(doc))[i]) == Some(l.children@[i].kind)
        },
{
    if let RedditTypeResponse::Listing(l) = r.data {
        assert(decoded(children_of(data_of(doc))[i], l.children@[i]));
    }
}

} // verus!
