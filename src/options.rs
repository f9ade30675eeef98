//! Options of listing requests and the small vocabularies of endpoints.
use vstd::prelude::*;
use vstd::string::*;

verus! {

/// The decimal digits, in order.
pub const DIGITS: &'static str = "0123456789";

/// The decimal text of `n`, without leading zeros.
pub open spec fn decimal_text(n: nat) -> Seq<char>
    decreases n,
{
    if n < 10 {
        seq![DIGITS@[n as int]]
    } else {
        decimal_text(n / 10) + seq![DIGITS@[(n % 10) as int]]
    }
}

/// The decimal text of `n`.
pub fn decimal(n: u64) -> (r: String)
    ensures
        r@ == decimal_text(n as nat),
    decreases n,
{
    proof {
        reveal_strlit("0123456789");
    }
    let d = (n % 10) as usize;
    let digit = DIGITS.substring_char(d, d + 1);
    assert(digit@ =~= seq![DIGITS@[d as int]]);
    if n < 10 {
        digit.to_owned()
    } else {
        let mut r = decimal(n / 10);
        r.append(digit);
        r
    }
}

/// The time window of a listing.
#[derive(Debug, Clone, Copy, PartialEq, Eq, Structural)]
pub enum TimePeriod {
    Now,
    Today,
    Week,
    Month,
    Year,
    AllTime,
}

/// The text of each time window.
pub open spec fn period_text(p: TimePeriod) -> Seq<char> {
    match p {
        TimePeriod::Now => "now"@,
        TimePeriod::Today => "day"@,
        TimePeriod::Week => "week"@,
        TimePeriod::Month => "month"@,
        TimePeriod::Year => "year"@,
        TimePeriod::AllTime => "all"@,
    }
}

impl TimePeriod {
    /// The text the API takes for this window.
    pub fn get_string(&self) -> (r: &'static str)
        ensures
            r@ == period_text(*self),
    {
        match self {
            TimePeriod::Now => "now",
            TimePeriod::Today => "day",
            TimePeriod::Week => "week",
            TimePeriod::Month => "month",
            TimePeriod::Year => "year",
            TimePeriod::AllTime => "all",
        }
    }
}

/// `prefix` and the value, or nothing when there is no value.
pub open spec fn part(prefix: Seq<char>, value: Option<Seq<char>>) -> Seq<char> {
    match value {
        Some(v) => prefix + v,
        None => Seq::empty(),
    }
}

/// Paging and filtering of a listing request.
#[derive(Debug)]
pub struct FeedOption {
    pub after: Option<String>,
    pub before: Option<String>,
    pub count: Option<u32>,
    pub period: Option<TimePeriod>,
}

impl FeedOption {
    /// The query text of these options, each set one as `&name=value`.
    pub open spec fn url_text(&self) -> Seq<char> {
        part(
            "&after="@,
            match self.after {
                Some(a) => Some(a@),
                None => None,
            },
        ) + part(
            "&before="@,
            match self.before {
                Some(b) => Some(b@),
                None => None,
            },
        ) + part(
            "&count="@,
            match self.count {
                Some(c) => Some(decimal_text(c as nat)),
                None => None,
            },
        ) + part(
            "&t="@,
            match self.period {
                Some(p) => Some(period_text(p)),
                None => None,
            },
        )
    }

    /// The query text that these options add to a request.
    pub fn url(&self) -> (r: String)
        ensures
            r@ == self.url_text(),
    {
        let mut url = String::new();
        if let Some(after) = &self.after {
            url.append("&after=");
            url.append(after.as_str());
        }
        if let Some(before) = &self.before {
            url.append("&before=");
            url.append(before.as_str());
        }
        if let Some(count) = self.count {
            url.append("&count=");
            url.append(decimal(count as u64).as_str());
        }
        if let Some(period) = &self.period {
            url.append("&t=");
            url.append(period.get_string());
        }
        assert(url@ =~= self.url_text());
        url
    }

    /// Appends `?` and the query text to `value`.
    pub fn extend(&self, value: &mut String)
        ensures
            final(value)@ == old(value)@ + "?"@ + self.url_text(),
    {
        value.append("?");
        value.append(self.url().as_str());
    }
}

/// The relation a user is given in a subreddit.
#[derive(Debug)]
pub enum FriendType {
    Contributor,
    Moderator,
    /// Any other relation the API names.
    Custom(String),
}

/// The text of each relation.
pub open spec fn friend_text(f: FriendType) -> Seq<char> {
    match f {
        FriendType::Contributor => "contributor"@,
        FriendType::Moderator => "moderator"@,
        FriendType::Custom(s) => s@,
    }
}

impl FriendType {
    /// The text the API takes for this relation.
    pub fn get_string(&self) -> (r: &str)
        ensures
            r@ == friend_text(*self),
    {
        match self {
            FriendType::Contributor => "contributor",
            FriendType::Moderator => "moderator",
            FriendType::Custom(s) => s.as_str(),
        }
    }
}

/// Which mailbox to read.
#[derive(Debug, Clone, Copy, PartialEq, Eq, Structural)]
pub enum WhereMessage {
    Inbox,
    Unread,
    SENT,
}

/// The text of each mailbox.
pub open spec fn mailbox_text(w: WhereMessage) -> Seq<char> {
    match w {
        WhereMessage::Inbox => "inbox"@,
        WhereMessage::Unread => "unread"@,
        WhereMessage::SENT => "sent"@,
    }
}

impl WhereMessage {
    /// The text the API takes for this mailbox.
    pub fn get_string(&self) -> (r: &'static str)
        ensures
            r@ == mailbox_text(*self),
    {
        match self {
            WhereMessage::Inbox => "inbox",
            WhereMessage::Unread => "unread",
            WhereMessage::SENT => "sent",
        }
    }
}

} // verus!
