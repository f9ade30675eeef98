//! A parsed JSON document, as the decoders of this library read it.
use vstd::prelude::*;

use crate::error::{is_invalid_type, is_missing_field, Error};

verus! {

/// A JSON value. Object members keep the order in which they were read;
/// numbers that are not integers keep their decimal text.
#[derive(Debug)]
pub enum Json {
    Null,
    Bool(bool),
    /// A non-negative integer.
    UInt(u64),
    /// A negative integer.
    Int(i64),
    /// Any other number, as written.
    Decimal(String),
    Str(String),
    Array(Vec<Json>),
    Object(Vec<(String, Json)>),
}

/// The value of the first member named `key`, if any.
pub open spec fn lookup(fields: Seq<(String, Json)>, key: Seq<char>) -> Option<Json>
    decreases fields.len(),
{
    if fields.len() == 0 {
        None
    } else if fields[0].0@ == key {
        Some(fields[0].1)
    } else {
        lookup(fields.drop_first(), key)
    }
}

/// The value of member `key` of `doc`; `None` when `doc` is no object.
pub open spec fn member(doc: Json, key: Seq<char>) -> Option<Json> {
    match doc {
        Json::Object(fields) => lookup(fields@, key),
        _ => None,
    }
}

/// Where the first member named `key` stands, if any.
pub fn position(fields: &Vec<(String, Json)>, key: &str) -> (r: Option<usize>)
    ensures
        r is None <==> lookup(fields@, key@) is None,
        r is Some ==> r->0 < fields@.len() && lookup(fields@, key@) == Some(fields@[r->0 as int].1),
{
    let wanted = key.to_owned();
    let mut i: usize = 0;
    assert(fields@.subrange(0, fields@.len() as int) =~= fields@);
    while i < fields.len()
        invariant
            i <= fields@.len(),
            wanted@ == key@,
            lookup(fields@, key@) == lookup(fields@.subrange(i as int, fields@.len() as int), key@),
        decreases fields@.len() - i,
    {
        let ghost rest = fields@.subrange(i as int, fields@.len() as int);
        assert(rest.drop_first() =~= fields@.subrange(i + 1, fields@.len() as int));
        if fields[i].0 == wanted {
            return Some(i);
        }
        i = i + 1;
    }
    None
}

/// Why a member could not be read as the type that a schema wants.
#[derive(Debug, Clone, Copy, PartialEq, Eq, Structural)]
pub enum Fault {
    Missing,
    WrongType,
}

/// `e` is the error that reports `fault` on member `key`.
pub open spec fn reports(e: Error, fault: Fault, key: Seq<char>) -> bool {
    match fault {
        Fault::Missing => is_missing_field(e, key),
        Fault::WrongType => is_invalid_type(e, key),
    }
}

/// The fault, if any, of reading `v` as a required string.
pub open spec fn str_fault(v: Option<Json>) -> Option<Fault> {
    match v {
        None => Some(Fault::Missing),
        Some(Json::Str(_)) => None,
        Some(_) => Some(Fault::WrongType),
    }
}

/// The fault, if any, of reading `v` as a required unsigned integer.
pub open spec fn u64_fault(v: Option<Json>) -> Option<Fault> {
    match v {
        None => Some(Fault::Missing),
        Some(Json::UInt(_)) => None,
        Some(_) => Some(Fault::WrongType),
    }
}

/// The fault, if any, of reading `v` as an optional string (absent or null
/// stand for none).
pub open spec fn opt_str_fault(v: Option<Json>) -> Option<Fault> {
    match v {
        None => None,
        Some(Json::Null) => None,
        Some(Json::Str(_)) => None,
        Some(_) => Some(Fault::WrongType),
    }
}

/// The string that a string member holds.
pub open spec fn str_value(v: Option<Json>) -> String
    recommends
        v matches Some(Json::Str(_)),
{
    match v {
        Some(Json::Str(s)) => s,
        _ => arbitrary(),
    }
}

/// The value of an optional string member.
pub open spec fn opt_str_value(v: Option<Json>) -> Option<String> {
    match v {
        Some(Json::Str(s)) => Some(s),
        _ => None,
    }
}

/// The integer that an unsigned member holds.
pub open spec fn u64_value(v: Option<Json>) -> u64 {
    match v {
        Some(Json::UInt(n)) => n,
        _ => 0,
    }
}

/// Reads member `key` as a required string.
pub fn read_str(fields: &Vec<(String, Json)>, key: &str) -> (r: Result<String, Error>)
    ensures
        str_fault(lookup(fields@, key@)) is None ==> r == Ok::<String, Error>(
            str_value(lookup(fields@, key@)),
        ),
        str_fault(lookup(fields@, key@)) matches Some(f) ==> r is Err && reports(r->Err_0, f, key@),
{
    match position(fields, key) {
        None => Err(Error::missing_field(key)),
        Some(i) => match &fields[i].1 {
            Json::Str(s) => Ok(s.clone()),
            _ => Err(Error::invalid_type(key)),
        },
    }
}

/// Reads member `key` as a required unsigned integer.
pub fn read_u64(fields: &Vec<(String, Json)>, key: &str) -> (r: Result<u64, Error>)
    ensures
        u64_fault(lookup(fields@, key@)) is None ==> r == Ok::<u64, Error>(
            u64_value(lookup(fields@, key@)),
        ),
        u64_fault(lookup(fields@, key@)) matches Some(f) ==> r is Err && reports(r->Err_0, f, key@),
{
    match position(fields, key) {
        None => Err(Error::missing_field(key)),
        Some(i) => match &fields[i].1 {
            Json::UInt(n) => Ok(*n),
            _ => Err(Error::invalid_type(key)),
        },
    }
}

/// Reads member `key` as an optional string.
pub fn read_opt_str(fields: &Vec<(String, Json)>, key: &str) -> (r: Result<Option<String>, Error>)
    ensures
        opt_str_fault(lookup(fields@, key@)) is None ==> r == Ok::<Option<String>, Error>(
            opt_str_value(lookup(fields@, key@)),
        ),
        opt_str_fault(lookup(fields@, key@)) matches Some(f) ==> r is Err && reports(
            r->Err_0,
            f,
            key@,
        ),
{
    match position(fields, key) {
        None => Ok(None),
        Some(i) => match &fields[i].1 {
            Json::Null => Ok(None),
            Json::Str(s) => Ok(Some(s.clone())),
            _ => Err(Error::invalid_type(key)),
        },
    }
}

/// The fault, if any, of reading `v` as a required boolean.
pub open spec fn bool_fault(v: Option<Json>) -> Option<Fault> {
    match v {
        None => Some(Fault::Missing),
        Some(Json::Bool(_)) => None,
        Some(_) => Some(Fault::WrongType),
    }
}

/// The boolean that a boolean member holds.
pub open spec fn bool_value(v: Option<Json>) -> bool {
    match v {
        Some(Json::Bool(b)) => b,
        _ => false,
    }
}

/// Whether `j` is an integer that fits in `i64`.
pub open spec fn is_i64(j: Json) -> bool {
    match j {
        Json::UInt(n) => n <= i64::MAX,
        Json::Int(_) => true,
        _ => false,
    }
}

/// The integer that an `i64` value holds.
pub open spec fn i64_of(j: Json) -> i64 {
    match j {
        Json::UInt(n) => n as i64,
        Json::Int(i) => i,
        _ => 0,
    }
}

/// The fault, if any, of reading `v` as a required signed integer.
pub open spec fn i64_fault(v: Option<Json>) -> Option<Fault> {
    match v {
        None => Some(Fault::Missing),
        Some(j) => if is_i64(j) {
            None
        } else {
            Some(Fault::WrongType)
        },
    }
}

/// The fault, if any, of reading `v` as an optional signed integer.
pub open spec fn opt_i64_fault(v: Option<Json>) -> Option<Fault> {
    match v {
        None => None,
        Some(Json::Null) => None,
        Some(j) => if is_i64(j) {
            None
        } else {
            Some(Fault::WrongType)
        },
    }
}

/// The value of an optional signed integer member.
pub open spec fn opt_i64_value(v: Option<Json>) -> Option<i64> {
    match v {
        Some(j) => if is_i64(j) {
            Some(i64_of(j))
        } else {
            None
        },
        None => None,
    }
}

/// The fault, if any, of reading `v` as a required array of strings.
pub open spec fn str_list_fault(v: Option<Json>) -> Option<Fault> {
    match v {
        None => Some(Fault::Missing),
        Some(Json::Array(items)) => if forall|i: int|
            0 <= i < items@.len() ==> (#[trigger] items@[i]) is Str {
            None
        } else {
            Some(Fault::WrongType)
        },
        Some(_) => Some(Fault::WrongType),
    }
}

/// `out` holds, in order, the strings of the array member `v`.
pub open spec fn is_str_list(v: Option<Json>, out: Seq<String>) -> bool {
    match v {
        Some(Json::Array(items)) => out.len() == items@.len() && forall|i: int|
            0 <= i < out.len() ==> items@[i] == Json::Str(#[trigger] out[i]),
        _ => false,
    }
}

/// Reads member `key` as a required boolean.
pub fn read_bool(fields: &Vec<(String, Json)>, key: &str) -> (r: Result<bool, Error>)
    ensures
        bool_fault(lookup(fields@, key@)) is None ==> r == Ok::<bool, Error>(
            bool_value(lookup(fields@, key@)),
        ),
        bool_fault(lookup(fields@, key@)) matches Some(f) ==> r is Err && reports(r->Err_0, f, key@),
{
    match position(fields, key) {
        None => Err(Error::missing_field(key)),
        Some(i) => match &fields[i].1 {
            Json::Bool(b) => Ok(*b),
            _ => Err(Error::invalid_type(key)),
        },
    }
}

/// The signed integer that `j` holds, if it holds one that fits.
fn as_i64(j: &Json) -> (r: Option<i64>)
    ensures
        is_i64(*j) ==> r == Some(i64_of(*j)),
        !is_i64(*j) ==> r is None,
{
    match j {
        Json::UInt(n) => if *n <= i64::MAX as u64 {
            Some(*n as i64)
        } else {
            None
        },
        Json::Int(i) => Some(*i),
        _ => None,
    }
}

/// Reads member `key` as a required signed integer.
pub fn read_i64(fields: &Vec<(String, Json)>, key: &str) -> (r: Result<i64, Error>)
    ensures
        i64_fault(lookup(fields@, key@)) is None ==> r == Ok::<i64, Error>(
            i64_of(lookup(fields@, key@)->0),
        ),
        i64_fault(lookup(fields@, key@)) matches Some(f) ==> r is Err && reports(r->Err_0, f, key@),
{
    match position(fields, key) {
        None => Err(Error::missing_field(key)),
        Some(i) => match as_i64(&fields[i].1) {
            Some(v) => Ok(v),
            None => Err(Error::invalid_type(key)),
        },
    }
}

/// Reads member `key` as an optional signed integer.
pub fn read_opt_i64(fields: &Vec<(String, Json)>, key: &str) -> (r: Result<Option<i64>, Error>)
    ensures
        opt_i64_fault(lookup(fields@, key@)) is None ==> r == Ok::<Option<i64>, Error>(
            opt_i64_value(lookup(fields@, key@)),
        ),
        opt_i64_fault(lookup(fields@, key@)) matches Some(f) ==> r is Err && reports(
            r->Err_0,
            f,
            key@,
        ),
{
    match position(fields, key) {
        None => Ok(None),
        Some(i) => match &fields[i].1 {
            Json::Null => Ok(None),
            j => match as_i64(j) {
                Some(v) => Ok(Some(v)),
                None => Err(Error::invalid_type(key)),
            },
        },
    }
}

/// Reads member `key` as a required array of strings.
pub fn read_str_list(fields: &Vec<(String, Json)>, key: &str) -> (r: Result<Vec<String>, Error>)
    ensures
        str_list_fault(lookup(fields@, key@)) is None ==> (r matches Ok(out) && is_str_list(
            lookup(fields@, key@),
            out@,
        )),
        str_list_fault(lookup(fields@, key@)) matches Some(f) ==> r is Err && reports(
            r->Err_0,
            f,
            key@,
        ),
{
    let i = match position(fields, key) {
        None => {
            return Err(Error::missing_field(key));
        },
        Some(i) => i,
    };
    let items = match &fields[i].1 {
        Json::Array(items) => items,
        _ => {
            return Err(Error::invalid_type(key));
        },
    };
    let mut out: Vec<String> = Vec::new();
    let mut k: usize = 0;
    while k < items.len()
        invariant
            k <= items@.len(),
            out@.len() == k,
            forall|j: int| 0 <= j < k ==> items@[j] == Json::Str(#[trigger] out@[j]),
            lookup(fields@, key@) == Some(Json::Array(*items)),
        decreases items@.len() - k,
    {
        match &items[k] {
            Json::Str(s) => {
                out.push(s.clone());
            },
            _ => {
                let ghost v = lookup(fields@, key@)->0->Array_0;
                assert(v == *items);
                assert(!(v@[k as int] is Str));
                return Err(Error::invalid_type(key));
            },
        }
        k = k + 1;
    }
    let ghost v = lookup(fields@, key@)->0->Array_0;
    assert(v == *items);
    assert forall|j: int| 0 <= j < v@.len() implies (#[trigger] v@[j]) is Str by {
        assert(items@[j] == Json::Str(out@[j]));
    }
    Ok(out)
}

} // verus!
