//! The feed data model: users, tweets, and the envelope a page fetch
//! returns.

use vstd::prelude::*;

use crate::text::{four_digits, two_digits};

verus! {

/// A civil timestamp, already resolved to the local calendar.
#[derive(Debug, Clone, Copy, PartialEq, Eq, Structural)]
pub struct Timestamp {
    pub year: u16,
    pub month: u8,
    pub day: u8,
    pub hour: u8,
    pub minute: u8,
    pub second: u8,
}

impl Timestamp {
    /// Field ranges of a calendar timestamp.
    pub open spec fn wf(self) -> bool {
        &&& self.year < 10000
        &&& 1 <= self.month <= 12
        &&& 1 <= self.day <= 31
        &&& self.hour < 24
        &&& self.minute < 60
        &&& self.second < 60
    }

    pub fn new(year: u16, month: u8, day: u8, hour: u8, minute: u8, second: u8) -> (r: Self)
        requires
            year < 10000,
            1 <= month <= 12,
            1 <= day <= 31,
            hour < 24,
            minute < 60,
            second < 60,
        ensures
            r == (Timestamp { year, month, day, hour, minute, second }),
            r.wf(),
    {
        Self { year, month, day, hour, minute, second }
    }

    /// `"MM-DD HH:MM:SS"`.
    pub open spec fn short_chars(self) -> Seq<char> {
        two_digits(self.month as int) + seq!['-'] + two_digits(self.day as int) + seq![' ']
            + two_digits(self.hour as int) + seq![':'] + two_digits(self.minute as int)
            + seq![':'] + two_digits(self.second as int)
    }

    /// `"YYYY-MM-DD HH:MM:SS"`.
    pub open spec fn long_chars(self) -> Seq<char> {
        four_digits(self.year as int) + seq!['-'] + self.short_chars()
    }

    /// Appends this timestamp as `"MM-DD HH:MM:SS"`.
    pub fn push_short(&self, out: &mut Vec<char>)
        requires
            self.wf(),
        ensures
            final(out)@ == old(out)@ + self.short_chars(),
    {
        crate::text::push_two_digits(out, self.month);
        out.push('-');
        crate::text::push_two_digits(out, self.day);
        out.push(' ');
        crate::text::push_two_digits(out, self.hour);
        out.push(':');
        crate::text::push_two_digits(out, self.minute);
        out.push(':');
        crate::text::push_two_digits(out, self.second);
        proof {
            assert(out@ =~= old(out)@ + self.short_chars());
        }
    }

    /// Appends this timestamp as `"YYYY-MM-DD HH:MM:SS"`.
    pub fn push_long(&self, out: &mut Vec<char>)
        requires
            self.wf(),
        ensures
            final(out)@ == old(out)@ + self.long_chars(),
    {
        crate::text::push_four_digits(out, self.year);
        out.push('-');
        self.push_short(out);
        proof {
            assert(out@ =~= old(out)@ + self.long_chars());
        }
    }
}

/// A user: identifier, display name, and handle.
#[derive(Debug)]
pub struct User {
    pub id: String,
    pub name: String,
    pub username: String,
}

impl Clone for User {
    fn clone(&self) -> (r: Self)
        ensures
            r == *self,
    {
        User { id: self.id.clone(), name: self.name.clone(), username: self.username.clone() }
    }
}

/// A typed edge from one tweet to another (reply, quote, or retweet).
#[derive(Debug)]
pub struct TweetReference {
    pub reference_type: String,
    pub id: String,
}

/// Attachment keys carried by a tweet.
#[derive(Debug)]
pub struct Attachments {
    pub poll_ids: Option<Vec<String>>,
    pub media_keys: Option<Vec<String>>,
}

/// Engagement counters.
#[derive(Debug, Clone, Copy, PartialEq, Eq, Structural)]
pub struct PublicMetrics {
    pub retweet_count: i32,
    pub reply_count: i32,
    pub like_count: i32,
    pub quote_count: i32,
}

/// A tweet as stored by the feed core; immutable once fetched.
#[derive(Debug)]
pub struct Tweet {
    pub id: String,
    pub text: String,
    pub created_at: Timestamp,
    pub author_id: String,
    pub author_username: Option<String>,
    pub author_name: Option<String>,
    pub conversation_id: Option<String>,
    pub referenced_tweets: Option<Vec<TweetReference>>,
    pub attachments: Option<Attachments>,
    pub public_metrics: Option<PublicMetrics>,
}

impl Tweet {
    /// A tweet the core can render: its timestamp is a valid calendar time.
    pub open spec fn wf(self) -> bool {
        self.created_at.wf()
    }

    /// The denormalized author record, with missing name fields filled from
    /// `fill_unknown_with`.
    pub fn author(&self, fill_unknown_with: &str) -> (r: User)
        ensures
            r.id == self.author_id,
            r.name@ == (match self.author_name {
                Some(n) => n@,
                None => fill_unknown_with@,
            }),
            r.username@ == (match self.author_username {
                Some(n) => n@,
                None => fill_unknown_with@,
            }),
    {
        User {
            id: self.author_id.clone(),
            name: match &self.author_name {
                Some(n) => n.clone(),
                None => fill_unknown_with.to_owned(),
            },
            username: match &self.author_username {
                Some(n) => n.clone(),
                None => fill_unknown_with.to_owned(),
            },
        }
    }
}

/// The envelope a page fetch returns: the payload plus optional expansions
/// and paging metadata.
#[derive(Debug)]
pub struct Response<Data, Includes> {
    pub data: Data,
    pub includes: Option<Includes>,
    pub meta: Option<Meta>,
}

/// Paging metadata attached to a response.
#[derive(Debug)]
pub struct Meta {
    pub next_token: Option<String>,
    pub result_count: i64,
    pub newest_id: Option<String>,
    pub oldest_id: Option<String>,
}

} // verus!
