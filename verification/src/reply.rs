//! The answer every endpoint gives: how it reads the session, which users
//! it lets through, and what it says after its operation.

use vstd::prelude::*;
use crate::password::{old_password_accepted, old_password_check};

verus! {

/// An HTTP answer.
#[derive(Clone, Debug, PartialEq)]
pub enum Reply<T> {
    /// Status 200 with this text as a JSON string.
    Text(&'static str),
    /// Status 200 with the data as JSON.
    Data(T),
    /// Status 200 with this body, declared as JSON.
    Json(String),
    /// Status 200 with this body as it is.
    Plain(&'static str),
    /// Status 200 with no body.
    Empty,
    /// Status 500 with no body.
    ServerError,
}

/// What reading the login token from the session gave.
#[derive(Clone, Debug, PartialEq)]
pub enum SessionRead {
    /// A token is stored.
    Token(String),
    /// No token is stored.
    Missing,
    /// The session could not be read.
    Unreadable,
}

/// The endpoints of the service.
#[derive(Clone, Copy, Debug, PartialEq, Eq, Structural)]
pub enum Endpoint {
    NewMessage,
    BlockContact,
    BlockContacts,
    NewContact,
    DeleteContact,
    DeleteContacts,
    LeaveGroup,
    GetContacts,
    GetGroups,
    GetGroup,
    CreateGroup,
    CreateChat,
    UnreadMessages,
    GetMessages,
    GetUsers,
    JoinGroup,
    ProfileIndex,
    ProfileUpdate,
    BioUpdate,
    AddGenre,
    DeleteGenre,
    GetUserGenres,
    AddShow,
    CancelUserShow,
    UpdateShow,
    AddEmbedUrl,
    DeleteEmbedUrl,
    AddImageUrl,
    DeleteImageUrl,
    AddAvatar,
    DeleteAvatar,
    UpdateUserPassword,
    DeleteAccount,
    SocialLink,
    GetProfile,
    GetGenres,
    GetSocial,
    GetGenresForProfile,
    GetShowsForProfile,
    DiscoverIndex,
    DiscoverSearch,
}

/// The endpoint answers only a logged-in user.
pub open spec fn needs_login(ep: Endpoint) -> bool {
    !matches!(ep,
        Endpoint::GetProfile
        | Endpoint::GetGenres
        | Endpoint::GetSocial
        | Endpoint::GetGenresForProfile
        | Endpoint::GetShowsForProfile
        | Endpoint::DiscoverIndex
        | Endpoint::DiscoverSearch
    )
}

/// What the endpoint says when the session's token names no user.
pub open spec fn spec_not_logged_in_text(ep: Endpoint) -> &'static str {
    match ep {
        Endpoint::BlockContact | Endpoint::BlockContacts | Endpoint::NewContact | Endpoint::DeleteContact
        | Endpoint::DeleteContacts | Endpoint::LeaveGroup | Endpoint::GetContacts | Endpoint::GetGroups
        | Endpoint::GetGroup | Endpoint::ProfileIndex => "not logged_in but have a cookie?",
        Endpoint::UnreadMessages => "",
        _ => "not logged_in",
    }
}

/// What the endpoint says when its operation succeeded: a fixed text, or
/// (`None`) the data the operation returned.
pub open spec fn spec_success_text(ep: Endpoint) -> Option<&'static str> {
    match ep {
        Endpoint::NewMessage => Some("Message added"),
        Endpoint::BlockContact => Some("Contact blocked"),
        Endpoint::BlockContacts => Some("Contacts blocked"),
        Endpoint::NewContact => Some("Contact added"),
        Endpoint::DeleteContact => Some("Contact removed"),
        Endpoint::DeleteContacts => Some("Contacts removed"),
        Endpoint::LeaveGroup => Some("Group removed"),
        Endpoint::JoinGroup => Some("Group joined"),
        Endpoint::ProfileUpdate => Some("Profile Updated"),
        Endpoint::BioUpdate => Some("BIO Updated"),
        Endpoint::AddGenre => Some("Genre Added"),
        Endpoint::DeleteGenre => Some("Genre Removed"),
        Endpoint::AddShow => Some("Show added"),
        Endpoint::CancelUserShow => Some("Show cancelled"),
        Endpoint::UpdateShow => Some("Show updated"),
        Endpoint::AddEmbedUrl => Some("Url embedded"),
        Endpoint::DeleteEmbedUrl => Some("Url unembedded"),
        Endpoint::AddImageUrl => Some("Image Url added"),
        Endpoint::DeleteImageUrl => Some("Image Url removed"),
        Endpoint::AddAvatar => Some("Url avatarded"),
        Endpoint::DeleteAvatar => Some("Url unavatarded"),
        Endpoint::UpdateUserPassword => Some("Password updated"),
        Endpoint::DeleteAccount => Some("Account Deleted"),
        Endpoint::SocialLink => Some("Social Link added"),
        _ => None,
    }
}

/// How the endpoint answers when its operation failed: a fixed text, a
/// server error, or (`None`) never, for an operation that cannot fail.
pub open spec fn spec_failure_reply<T>(ep: Endpoint) -> Option<Reply<T>> {
    match ep {
        Endpoint::BlockContacts | Endpoint::DeleteContacts | Endpoint::UnreadMessages | Endpoint::DiscoverIndex => None,
        Endpoint::NewMessage | Endpoint::CreateGroup | Endpoint::CreateChat | Endpoint::GetMessages
        | Endpoint::GetUsers | Endpoint::JoinGroup | Endpoint::ProfileUpdate | Endpoint::AddGenre
        | Endpoint::DeleteGenre => Some(Reply::ServerError),
        Endpoint::BioUpdate => Some(Reply::Text("something bad happened")),
        Endpoint::GetUserGenres | Endpoint::GetGenresForProfile => Some(Reply::Text("Unable to obtain genres")),
        Endpoint::AddShow => Some(Reply::Text("Unable to add show")),
        Endpoint::CancelUserShow => Some(Reply::Text("Unable to cancel show")),
        Endpoint::UpdateShow => Some(Reply::Text("Unable to updated show")),
        Endpoint::AddEmbedUrl => Some(Reply::Text("Unable to embed url")),
        Endpoint::DeleteEmbedUrl => Some(Reply::Text("Unable to unembed url")),
        Endpoint::AddImageUrl => Some(Reply::Text("Unable to add image url")),
        Endpoint::DeleteImageUrl => Some(Reply::Text("Unable to remove image url")),
        Endpoint::AddAvatar => Some(Reply::Text("Unable to avatar url")),
        Endpoint::DeleteAvatar => Some(Reply::Text("Unable to unavatar url")),
        Endpoint::UpdateUserPassword => Some(Reply::Text("Unable to update password")),
        Endpoint::DeleteAccount => Some(Reply::Text("Unable to delete account")),
        Endpoint::SocialLink => Some(Reply::Text("Unable to social link url")),
        Endpoint::GetGenres => Some(Reply::Text("No Genres found")),
        Endpoint::GetSocial | Endpoint::GetShowsForProfile | Endpoint::DiscoverSearch => Some(
            Reply::Text("Unable to obtain shows"),
        ),
        _ => Some(Reply::Text("Error")),
    }
}

/// The answer of the endpoint to the outcome of its operation.
pub open spec fn spec_outcome_reply<T>(ep: Endpoint, outcome: Result<T, ()>) -> Reply<T> {
    match outcome {
        Ok(v) => if ep == Endpoint::DiscoverIndex {
            Reply::Empty
        } else {
            match spec_success_text(ep) {
                Some(t) => Reply::Text(t),
                None => Reply::Data(v),
            }
        },
        Err(_) => spec_failure_reply::<T>(ep).unwrap(),
    }
}

/// The endpoints that read or create data answer a successful operation
/// with the data it returned, whatever that data is.
pub proof fn reading_endpoints_answer_their_data<T>(ep: Endpoint, v: T)
    requires
        matches!(ep,
            Endpoint::GetContacts
            | Endpoint::GetGroups
            | Endpoint::GetGroup
            | Endpoint::CreateGroup
            | Endpoint::CreateChat
            | Endpoint::UnreadMessages
            | Endpoint::GetMessages
            | Endpoint::GetUsers
            | Endpoint::ProfileIndex
            | Endpoint::GetUserGenres
            | Endpoint::GetProfile
            | Endpoint::GetGenres
            | Endpoint::GetSocial
            | Endpoint::GetGenresForProfile
            | Endpoint::GetShowsForProfile
            | Endpoint::DiscoverSearch
        ),
    ensures
        spec_outcome_reply(ep, Ok::<T, ()>(v)) == Reply::Data(v),
{
}

/// Only the discovery index answers a success with an empty body; every
/// other endpoint answers it with a text or with data.
pub proof fn only_the_index_answers_empty<T>(ep: Endpoint, v: T)
    ensures
        (spec_outcome_reply(ep, Ok::<T, ()>(v)) == Reply::<T>::Empty) <==> ep == Endpoint::DiscoverIndex,
        ep != Endpoint::DiscoverIndex ==> (spec_outcome_reply(ep, Ok::<T, ()>(v)) is Text || spec_outcome_reply(
            ep,
            Ok::<T, ()>(v),
        ) == Reply::Data(v)),
{
}

/// The text the endpoint answers when the session's token names no user.
pub fn not_logged_in_text(ep: Endpoint) -> (t: &'static str)
    ensures
        t == spec_not_logged_in_text(ep),
{
    match ep {
        Endpoint::BlockContact | Endpoint::BlockContacts | Endpoint::NewContact | Endpoint::DeleteContact
        | Endpoint::DeleteContacts | Endpoint::LeaveGroup | Endpoint::GetContacts | Endpoint::GetGroups
        | Endpoint::GetGroup | Endpoint::ProfileIndex => "not logged_in but have a cookie?",
        Endpoint::UnreadMessages => "",
        _ => "not logged_in",
    }
}

/// The text the endpoint answers when its operation succeeded, or `None`
/// when it answers with the operation's data.
pub fn success_text(ep: Endpoint) -> (t: Option<&'static str>)
    ensures
        t == spec_success_text(ep),
{
    match ep {
        Endpoint::NewMessage => Some("Message added"),
        Endpoint::BlockContact => Some("Contact blocked"),
        Endpoint::BlockContacts => Some("Contacts blocked"),
        Endpoint::NewContact => Some("Contact added"),
        Endpoint::DeleteContact => Some("Contact removed"),
        Endpoint::DeleteContacts => Some("Contacts removed"),
        Endpoint::LeaveGroup => Some("Group removed"),
        Endpoint::JoinGroup => Some("Group joined"),
        Endpoint::ProfileUpdate => Some("Profile Updated"),
        Endpoint::BioUpdate => Some("BIO Updated"),
        Endpoint::AddGenre => Some("Genre Added"),
        Endpoint::DeleteGenre => Some("Genre Removed"),
        Endpoint::AddShow => Some("Show added"),
        Endpoint::CancelUserShow => Some("Show cancelled"),
        Endpoint::UpdateShow => Some("Show updated"),
        Endpoint::AddEmbedUrl => Some("Url embedded"),
        Endpoint::DeleteEmbedUrl => Some("Url unembedded"),
        Endpoint::AddImageUrl => Some("Image Url added"),
        Endpoint::DeleteImageUrl => Some("Image Url removed"),
        Endpoint::AddAvatar => Some("Url avatarded"),
        Endpoint::DeleteAvatar => Some("Url unavatarded"),
        Endpoint::UpdateUserPassword => Some("Password updated"),
        Endpoint::DeleteAccount => Some("Account Deleted"),
        Endpoint::SocialLink => Some("Social Link added"),
        _ => None,
    }
}

/// How the endpoint answers when its operation failed; `None` for an
/// endpoint whose operation cannot fail.
pub fn failure_reply<T>(ep: Endpoint) -> (r: Option<Reply<T>>)
    ensures
        r == spec_failure_reply::<T>(ep),
{
    match ep {
        Endpoint::BlockContacts | Endpoint::DeleteContacts | Endpoint::UnreadMessages | Endpoint::DiscoverIndex => None,
        Endpoint::NewMessage | Endpoint::CreateGroup | Endpoint::CreateChat | Endpoint::GetMessages
        | Endpoint::GetUsers | Endpoint::JoinGroup | Endpoint::ProfileUpdate | Endpoint::AddGenre
        | Endpoint::DeleteGenre => Some(Reply::ServerError),
        Endpoint::BioUpdate => Some(Reply::Text("something bad happened")),
        Endpoint::GetUserGenres | Endpoint::GetGenresForProfile => Some(Reply::Text("Unable to obtain genres")),
        Endpoint::AddShow => Some(Reply::Text("Unable to add show")),
        Endpoint::CancelUserShow => Some(Reply::Text("Unable to cancel show")),
        Endpoint::UpdateShow => Some(Reply::Text("Unable to updated show")),
        Endpoint::AddEmbedUrl => Some(Reply::Text("Unable to embed url")),
        Endpoint::DeleteEmbedUrl => Some(Reply::Text("Unable to unembed url")),
        Endpoint::AddImageUrl => Some(Reply::Text("Unable to add image url")),
        Endpoint::DeleteImageUrl => Some(Reply::Text("Unable to remove image url")),
        Endpoint::AddAvatar => Some(Reply::Text("Unable to avatar url")),
        Endpoint::DeleteAvatar => Some(Reply::Text("Unable to unavatar url")),
        Endpoint::UpdateUserPassword => Some(Reply::Text("Unable to update password")),
        Endpoint::DeleteAccount => Some(Reply::Text("Unable to delete account")),
        Endpoint::SocialLink => Some(Reply::Text("Unable to social link url")),
        Endpoint::GetGenres => Some(Reply::Text("No Genres found")),
        Endpoint::GetSocial | Endpoint::GetShowsForProfile | Endpoint::DiscoverSearch => Some(
            Reply::Text("Unable to obtain shows"),
        ),
        _ => Some(Reply::Text("Error")),
    }
}

/// The login token read from the session, or the answer that ends the
/// request: `No Session` when no token is stored, `Error` when the session
/// cannot be read. Every endpoint that needs a login reads it this way.
pub fn session_token<T>(read: SessionRead) -> (r: Result<String, Reply<T>>)
    ensures
        match read {
            SessionRead::Token(t) => r == Ok::<String, Reply<T>>(t),
            SessionRead::Missing => r == Err::<String, Reply<T>>(Reply::Text("No Session")),
            SessionRead::Unreadable => r == Err::<String, Reply<T>>(Reply::Text("Error")),
        },
{
    match read {
        SessionRead::Token(t) => Ok(t),
        SessionRead::Missing => Err(Reply::Text("No Session")),
        SessionRead::Unreadable => Err(Reply::Text("Error")),
    }
}

/// The user the session's token names, or the endpoint's answer when it
/// names none: only a logged-in user reaches the endpoint's operation.
pub fn logged_in_user<T>(ep: Endpoint, user: Option<String>) -> (r: Result<String, Reply<T>>)
    requires
        needs_login(ep),
    ensures
        match user {
            Some(u) => r == Ok::<String, Reply<T>>(u),
            None => r == Err::<String, Reply<T>>(Reply::Text(spec_not_logged_in_text(ep))),
        },
{
    match user {
        Some(u) => Ok(u),
        None => Err(Reply::Text(not_logged_in_text(ep))),
    }
}

/// The answer of the endpoint once its operation has run.
pub fn outcome_reply<T>(ep: Endpoint, outcome: Result<T, ()>) -> (r: Reply<T>)
    requires
        outcome is Ok || spec_failure_reply::<T>(ep) is Some,
    ensures
        r == spec_outcome_reply(ep, outcome),
{
    match outcome {
        Ok(v) => {
            if ep == Endpoint::DiscoverIndex {
                Reply::Empty
            } else {
                match success_text(ep) {
                    Some(t) => Reply::Text(t),
                    None => Reply::Data(v),
                }
            }
        },
        Err(_) => failure_reply::<T>(ep).unwrap(),
    }
}

/// The answer to a user who posts in a group they are not a member of;
/// `None` lets a member through.
pub fn membership_reply<T>(member: bool) -> (r: Option<Reply<T>>)
    ensures
        r == if member { None } else { Some(Reply::<T>::Text("You cannot access this group")) },
{
    if member {
        None
    } else {
        Some(Reply::Text("You cannot access this group"))
    }
}

/// The answer to a chat opened with more than one other user; `None` lets
/// a chat with at most one other user through.
pub fn chat_size_reply<T>(invitees: usize) -> (r: Option<Reply<T>>)
    ensures
        r == if invitees > 1 { Some(Reply::<T>::Text("Only one user allowed in chat with you")) } else { None },
{
    if invitees > 1 {
        Some(Reply::Text("Only one user allowed in chat with you"))
    } else {
        None
    }
}

/// Before a password change: the answer when the user's record could not
/// be read (`stored_hash` is `None`) or the old password does not pass the
/// check against the stored hash; `None` lets the change go ahead.
pub fn password_change_reply<T>(stored_hash: Option<&str>, old_password: &str) -> (r: Option<Reply<T>>)
    ensures
        match stored_hash {
            None => r == Some(Reply::<T>::Text("Unable to select user record from token")),
            Some(h) => {
                ||| r is None && old_password_check(old_password@, h@, true)
                ||| r == Some(Reply::<T>::Text("Old Password does not match")) && old_password_check(
                    old_password@,
                    h@,
                    false,
                )
            },
        },
{
    match stored_hash {
        None => Some(Reply::Text("Unable to select user record from token")),
        Some(h) => {
            if old_password_accepted(old_password, h) {
                None
            } else {
                Some(Reply::Text("Old Password does not match"))
            }
        },
    }
}

/// The number of unread messages of a user over their groups: the sum read
/// from the database, or 0 when it could not be read.
pub fn unread_total(sum: Option<Option<i64>>) -> (n: i64)
    requires
        sum matches Some(s) ==> s is Some,
    ensures
        n == match sum {
            Some(s) => s.unwrap(),
            None => 0,
        },
{
    match sum {
        Some(s) => s.unwrap(),
        None => 0,
    }
}

} // verus!
