//! Opening an account: refusing a known e-mail address, hashing the
//! password, and answering with a session token.

use vstd::prelude::*;
use crate::password::{registration_hash, stored_hash_of};
use crate::reply::Reply;

verus! {

/// The body that refuses an e-mail address already in use.
pub open spec fn spec_user_exists_body() -> Seq<char> {
    "{\"error\" : \"User already exists!\"}"@
}

/// The body that hands a new user their session token and id, both
/// written as they are.
pub open spec fn spec_session_body(token: Seq<char>, id: Seq<char>) -> Seq<char> {
    "{\"token\" : \""@ + token + "\", \"id\" : \""@ + id + "\"}"@
}

/// The JSON body refusing an e-mail address already in use.
pub fn user_exists_body() -> (body: String)
    ensures
        body@ == spec_user_exists_body(),
{
    String::from_str("{\"error\" : \"User already exists!\"}")
}

/// The JSON body handing a new user their session token and id.
pub fn session_body(token: &str, id: &str) -> (body: String)
    ensures
        body@ == spec_session_body(token@, id@),
{
    let mut body = String::from_str("{\"token\" : \"");
    body.append(token);
    body.append("\", \"id\" : \"");
    body.append(id);
    body.append("\"}");
    body
}

/// The first step of a registration, once it is known whether an account
/// already uses the e-mail address: a known address is refused; otherwise
/// the password hash to store for the new account.
pub fn registration_start<T>(exists: bool, password: &str) -> (r: Result<String, Reply<T>>)
    ensures
        exists ==> (r matches Err(Reply::Json(b)) && b@ == spec_user_exists_body()),
        !exists ==> (r matches Ok(h) && stored_hash_of(password@, h@)),
{
    if exists {
        Err(Reply::Json(user_exists_body()))
    } else {
        Ok(registration_hash(password))
    }
}

/// After the new account was written: a failed write is a server error;
/// `None` goes on to reading the account back.
pub fn registration_saved<T>(saved: bool) -> (r: Option<Reply<T>>)
    ensures
        r == if saved { None } else { Some(Reply::<T>::ServerError) },
{
    if saved {
        None
    } else {
        Some(Reply::ServerError)
    }
}

/// After reading the new account back: its id, or the answer when it could
/// not be read.
pub fn registered_id<T>(id: Option<String>) -> (r: Result<String, Reply<T>>)
    ensures
        match id {
            Some(i) => r == Ok::<String, Reply<T>>(i),
            None => r == Err::<String, Reply<T>>(Reply::Text("User registered but unable to get from database.")),
        },
{
    match id {
        Some(i) => Ok(i),
        None => Err(Reply::Text("User registered but unable to get from database.")),
    }
}

/// The answer that ends a registration, given the session token created
/// for the new account (if one could be) and the account's id.
pub fn registration_reply<T>(token: Option<&str>, id: &str) -> (r: Reply<T>)
    ensures
        match token {
            Some(t) => r matches Reply::Json(b) && b@ == spec_session_body(t@, id@),
            None => r == Reply::<T>::Plain("Unable to create session token"),
        },
{
    match token {
        Some(t) => Reply::Json(session_body(t, id)),
        None => Reply::Plain("Unable to create session token"),
    }
}

} // verus!
