//! Full names: the `{type}_{id}` references used throughout the API.
use vstd::prelude::*;
use vstd::string::*;

use crate::error::Error;
use crate::text::same_text;

verus! {

/// The entity types that a full name can refer to.
#[derive(Debug, Clone, Copy, PartialEq, Eq, Structural)]
pub enum RedditType {
    Comment,
    Account,
    Link,
    Message,
    Subreddit,
    Award,
}

/// The two-character code of each entity type.
pub open spec fn type_code(t: RedditType) -> Seq<char> {
    match t {
        RedditType::Comment => "t1"@,
        RedditType::Account => "t2"@,
        RedditType::Link => "t3"@,
        RedditType::Message => "t4"@,
        RedditType::Subreddit => "t5"@,
        RedditType::Award => "t6"@,
    }
}

/// The entity type whose code is `s`, if any.
pub open spec fn type_of_code(s: Seq<char>) -> Option<RedditType> {
    if s == "t1"@ {
        Some(RedditType::Comment)
    } else if s == "t2"@ {
        Some(RedditType::Account)
    } else if s == "t3"@ {
        Some(RedditType::Link)
    } else if s == "t4"@ {
        Some(RedditType::Message)
    } else if s == "t5"@ {
        Some(RedditType::Subreddit)
    } else if s == "t6"@ {
        Some(RedditType::Award)
    } else {
        None
    }
}

impl RedditType {
    /// The code of this type, `t1` to `t6`.
    pub fn get_id(&self) -> (r: String)
        ensures
            r@ == type_code(*self),
    {
        match self {
            RedditType::Comment => "t1".to_owned(),
            RedditType::Account => "t2".to_owned(),
            RedditType::Link => "t3".to_owned(),
            RedditType::Message => "t4".to_owned(),
            RedditType::Subreddit => "t5".to_owned(),
            RedditType::Award => "t6".to_owned(),
        }
    }

    /// The type whose code is `s`; any other text is refused.
    pub fn from_str(s: &str) -> (r: Result<RedditType, Error>)
        ensures
            type_of_code(s@) matches Some(t) ==> r == Ok::<RedditType, Error>(t),
            type_of_code(s@) is None ==> r matches Err(Error::Other(_)),
    {
        if same_text(s, "t1") {
            Ok(RedditType::Comment)
        } else if same_text(s, "t2") {
            Ok(RedditType::Account)
        } else if same_text(s, "t3") {
            Ok(RedditType::Link)
        } else if same_text(s, "t4") {
            Ok(RedditType::Message)
        } else if same_text(s, "t5") {
            Ok(RedditType::Subreddit)
        } else if same_text(s, "t6") {
            Ok(RedditType::Award)
        } else {
            Err(Error::Other("Invalid RedditType".to_owned()))
        }
    }
}

/// A reference to an entity: its type and its id.
#[derive(Debug)]
pub struct FullName {
    pub reddit_type: RedditType,
    pub id: String,
}

/// The text of the full name with type `t` and id `id`.
pub open spec fn full_name_text(t: RedditType, id: Seq<char>) -> Seq<char> {
    type_code(t) + "_"@ + id
}

/// `s` has exactly one `_`, splitting it into a known type code and a
/// non-empty id. Codes are two characters, so the `_` stands at index 2.
pub open spec fn is_full_name(s: Seq<char>) -> bool {
    &&& s.len() > 3
    &&& s[2] == '_'
    &&& type_of_code(s.subrange(0, 2)) is Some
    &&& forall|i: int| 3 <= i < s.len() ==> s[i] != '_'
}

/// The type that a well-formed full name names.
pub open spec fn parsed_type(s: Seq<char>) -> RedditType {
    type_of_code(s.subrange(0, 2))->0
}

/// The id of a well-formed full name.
pub open spec fn parsed_id(s: Seq<char>) -> Seq<char> {
    s.subrange(3, s.len() as int)
}

impl FullName {
    /// Parses `{type}_{id}`; anything else is a format error.
    pub fn from_str(s: &str) -> (r: Result<FullName, Error>)
        ensures
            is_full_name(s@) ==> (r matches Ok(f) && f.reddit_type == parsed_type(s@) && f.id@
                == parsed_id(s@)),
            !is_full_name(s@) ==> r matches Err(Error::Other(_)),
    {
        let n = s.unicode_len();
        if n <= 3 || s.get_char(2) != '_' {
            return Err(Error::Other("a full name is a type and an id joined by one '_'".to_owned()));
        }
        let mut i: usize = 3;
        while i < n
            invariant
                3 <= i <= n,
                n == s@.len(),
                forall|j: int| 3 <= j < i ==> s@[j] != '_',
            decreases n - i,
        {
            if s.get_char(i) == '_' {
                return Err(
                    Error::Other("a full name is a type and an id joined by one '_'".to_owned()),
                );
            }
            i = i + 1;
        }
        let reddit_type = match RedditType::from_str(s.substring_char(0, 2)) {
            Ok(t) => t,
            Err(e) => {
                return Err(e);
            },
        };
        Ok(FullName { reddit_type, id: s.substring_char(3, n).to_owned() })
    }

    /// The text `{type}_{id}`.
    pub fn to_string(&self) -> (r: String)
        ensures
            r@ == full_name_text(self.reddit_type, self.id@),
    {
        let mut r = self.reddit_type.get_id();
        r.append("_");
        r.append(self.id.as_str());
        r
    }
}

/// Formatting the parse of a well-formed full name gives back the text.
pub proof fn lemma_format_parse(s: Seq<char>)
    requires
        is_full_name(s),
    ensures
        full_name_text(parsed_type(s), parsed_id(s)) == s,
{
    let t = parsed_type(s);
    reveal_strlit("_");
    assert("_"@ =~= seq!['_']);
    assert(type_code(t) == s.subrange(0, 2));
    assert(full_name_text(t, parsed_id(s)) =~= s);
}

/// Parsing the text of a type and a non-empty id without `_` gives them back.
pub proof fn lemma_parse_format(t: RedditType, id: Seq<char>)
    requires
        id.len() > 0,
        forall|i: int| 0 <= i < id.len() ==> id[i] != '_',
    ensures
        is_full_name(full_name_text(t, id)),
        parsed_type(full_name_text(t, id)) == t,
        parsed_id(full_name_text(t, id)) == id,
{
    let s = full_name_text(t, id);
    reveal_strlit("t1");
    reveal_strlit("t2");
    reveal_strlit("t3");
    reveal_strlit("t4");
    reveal_strlit("t5");
    reveal_strlit("t6");
    reveal_strlit("_");
    assert(s.subrange(0, 2) =~= type_code(t));
    assert(type_of_code(type_code(t)) == Some(t)) by {
        assert("t1"@ =~= seq!['t', '1']);
        assert("t2"@ =~= seq!['t', '2']);
        assert("t3"@ =~= seq!['t', '3']);
        assert("t4"@ =~= seq!['t', '4']);
        assert("t5"@ =~= seq!['t', '5']);
        assert("t6"@ =~= seq!['t', '6']);
        match t {
            RedditType::Comment => {},
            RedditType::Account => {},
            RedditType::Link => {},
            RedditType::Message => {},
            RedditType::Subreddit => {},
            RedditType::Award => {},
        }
    }
    assert(parsed_id(s) =~= id);
    assert forall|i: int| 3 <= i < s.len() implies s[i] != '_' by {
        assert(s[i] == id[i - 3]);
    }
}

} // verus!
