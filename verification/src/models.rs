//! Plain data exchanged with clients and read from the database.

use vstd::prelude::*;

verus! {

/// A moment in time as the database stores it: seconds since the Unix
/// epoch (read as UTC) and the sub-second part in nanoseconds.
#[derive(Clone, Copy, Debug, PartialEq, Eq, Structural)]
pub struct DateTime {
    pub secs: i64,
    pub nanos: u32,
}

/// `a` lies strictly before `b`.
pub open spec fn spec_before(a: DateTime, b: DateTime) -> bool {
    a.secs < b.secs || (a.secs == b.secs && a.nanos < b.nanos)
}

/// Time runs forward: of two moments, the one in a later second is the
/// later one, and within the same second the one with more nanoseconds is
/// the later one.
pub proof fn before_is_chronological(a: DateTime, b: DateTime)
    ensures
        a.secs < b.secs ==> spec_before(a, b),
        a.secs > b.secs ==> !spec_before(a, b),
        a.secs == b.secs ==> (spec_before(a, b) <==> a.nanos < b.nanos),
{
}

impl DateTime {
    /// Whether `self` lies strictly before `other`.
    pub fn before(&self, other: &DateTime) -> (r: bool)
        ensures
            r == spec_before(*self, *other),
            r == (self.secs < other.secs || (self.secs == other.secs && self.nanos < other.nanos)),
    {
        self.secs < other.secs || (self.secs == other.secs && self.nanos < other.nanos)
    }
}

/// A music genre that a profile can be tagged with.
#[derive(Clone, Debug, PartialEq)]
pub struct Genre {
    pub genre: String,
    pub genre_id: i32,
}

/// A request to tag (or untag) a user with a genre.
#[derive(Clone, Debug, PartialEq)]
pub struct UserGenre {
    pub user_id: String,
    pub genre_id: i32,
}

/// One genre of a user's profile.
#[derive(Clone, Debug, PartialEq)]
pub struct UserGenreList {
    pub genre: String,
    pub genre_id: i32,
}

/// A contact of a user, as listed in the address book.
#[derive(Clone, Debug, PartialEq)]
pub struct Contact {
    pub id: String,
    pub image_url: Option<String>,
    pub avatar_url: Option<String>,
    pub name: String,
    pub blocked: Option<i8>,
}

/// A batch of contact ids to block or remove.
#[derive(Clone, Debug, PartialEq)]
pub struct ContactList {
    pub contacts: Vec<String>,
}

/// A group in the short listing: its last message and when it was sent.
#[derive(Clone, Debug, PartialEq)]
pub struct Grouped {
    pub id: String,
    pub name: String,
    pub last_message: Option<String>,
    pub last_message_date: Option<String>,
}

/// A message posted in a group.
#[derive(Clone, Debug, PartialEq)]
pub struct Message {
    pub id: String,
    pub user_id: String,
    pub message: String,
    pub created_at: DateTime,
    pub created_time: Option<String>,
    pub created_date: Option<String>,
}

/// A message that a user asks to post in a group.
#[derive(Clone, Debug, PartialEq)]
pub struct NewMessage {
    pub group_id: String,
    pub message: String,
}

/// A request to open a group (or a one-to-one chat) with the listed users.
#[derive(Clone, Debug, PartialEq)]
pub struct NewGroup {
    pub name: String,
    pub users: Vec<String>,
}

/// The criteria of a discovery search; a profile matches any one of them.
#[derive(Clone, Debug, PartialEq)]
pub struct Search {
    pub account_type: Option<String>,
    pub location: Option<String>,
    pub name: Option<String>,
    pub genre: Option<String>,
}

/// The public part of a user's profile, as shown to the members of a group.
#[derive(Clone, Debug, PartialEq)]
pub struct ProfileData {
    pub id: String,
    pub name: String,
    pub email: String,
    pub account_type: String,
    pub location: String,
    pub embed_url: Option<String>,
    pub image_url: Option<String>,
    pub avatar_url: Option<String>,
    pub bio: Option<String>,
}

} // verus!
