use lokoda_backend::register::{
    registered_id, registration_reply, registration_saved, registration_start, session_body,
    user_exists_body,
};
use lokoda_backend::reply::{
    chat_size_reply, logged_in_user, membership_reply, outcome_reply, password_change_reply,
    session_token, unread_total, Endpoint, Reply, SessionRead,
};

#[test]
fn a_session_without_token_is_answered_no_session() {
    let r: Result<String, Reply<()>> = session_token(SessionRead::Missing);
    assert_eq!(r, Err(Reply::Text("No Session")));
    let r: Result<String, Reply<()>> = session_token(SessionRead::Unreadable);
    assert_eq!(r, Err(Reply::Text("Error")));
    let r: Result<String, Reply<()>> = session_token(SessionRead::Token("tok".to_string()));
    assert_eq!(r, Ok("tok".to_string()));
}

#[test]
fn an_unknown_token_gets_the_endpoint_text() {
    let r: Result<String, Reply<()>> = logged_in_user(Endpoint::NewContact, None);
    assert_eq!(r, Err(Reply::Text("not logged_in but have a cookie?")));
    let r: Result<String, Reply<()>> = logged_in_user(Endpoint::ProfileUpdate, None);
    assert_eq!(r, Err(Reply::Text("not logged_in")));
    let r: Result<String, Reply<i64>> = logged_in_user(Endpoint::UnreadMessages, None);
    assert_eq!(r, Err(Reply::Text("")));
    let r: Result<String, Reply<()>> = logged_in_user(Endpoint::AddShow, Some("u1".to_string()));
    assert_eq!(r, Ok("u1".to_string()));
}

#[test]
fn acknowledged_operations_answer_their_texts() {
    assert_eq!(outcome_reply(Endpoint::NewContact, Ok(())), Reply::Text("Contact added"));
    assert_eq!(outcome_reply(Endpoint::NewContact, Err(())), Reply::<()>::Text("Error"));
    assert_eq!(outcome_reply(Endpoint::NewMessage, Ok(())), Reply::Text("Message added"));
    assert_eq!(outcome_reply(Endpoint::NewMessage, Err(())), Reply::<()>::ServerError);
    assert_eq!(outcome_reply(Endpoint::BioUpdate, Err(())), Reply::<()>::Text("something bad happened"));
    assert_eq!(outcome_reply(Endpoint::UpdateShow, Err(())), Reply::<()>::Text("Unable to updated show"));
    assert_eq!(outcome_reply(Endpoint::BlockContacts, Ok(())), Reply::Text("Contacts blocked"));
    assert_eq!(outcome_reply(Endpoint::DeleteContacts, Ok(())), Reply::Text("Contacts removed"));
    assert_eq!(outcome_reply(Endpoint::DeleteAvatar, Ok(())), Reply::Text("Url unavatarded"));
}

#[test]
fn reading_operations_answer_their_data() {
    assert_eq!(outcome_reply(Endpoint::GetContacts, Ok(vec![1, 2])), Reply::Data(vec![1, 2]));
    assert_eq!(outcome_reply(Endpoint::GetContacts, Err::<Vec<i32>, ()>(())), Reply::Text("Error"));
    assert_eq!(outcome_reply(Endpoint::GetGenres, Err::<Vec<i32>, ()>(())), Reply::Text("No Genres found"));
    assert_eq!(outcome_reply(Endpoint::UnreadMessages, Ok(7i64)), Reply::Data(7));
    assert_eq!(outcome_reply(Endpoint::DiscoverIndex, Ok(())), Reply::Empty);
    assert_eq!(
        outcome_reply(Endpoint::DiscoverSearch, Err::<Vec<i32>, ()>(())),
        Reply::Text("Unable to obtain shows")
    );
    assert_eq!(outcome_reply(Endpoint::CreateChat, Err::<u8, ()>(())), Reply::ServerError);
}

#[test]
fn only_members_may_post() {
    assert_eq!(membership_reply::<()>(true), None);
    assert_eq!(membership_reply::<()>(false), Some(Reply::Text("You cannot access this group")));
}

#[test]
fn a_chat_takes_at_most_one_other_user() {
    assert_eq!(chat_size_reply::<()>(0), None);
    assert_eq!(chat_size_reply::<()>(1), None);
    assert_eq!(chat_size_reply::<()>(2), Some(Reply::Text("Only one user allowed in chat with you")));
}

#[test]
fn unread_count_falls_back_to_zero() {
    assert_eq!(unread_total(None), 0);
    assert_eq!(unread_total(Some(Some(12))), 12);
}

#[test]
fn registration_bodies_are_exact() {
    assert_eq!(user_exists_body(), "{\"error\" : \"User already exists!\"}");
    assert_eq!(session_body("T0K", "id-1"), "{\"token\" : \"T0K\", \"id\" : \"id-1\"}");
}

#[test]
fn a_known_address_is_refused() {
    let r: Result<String, Reply<()>> = registration_start(true, "pw");
    assert_eq!(r, Err(Reply::Json("{\"error\" : \"User already exists!\"}".to_string())));
}

#[test]
fn later_registration_steps() {
    assert_eq!(registration_saved::<()>(true), None);
    assert_eq!(registration_saved::<()>(false), Some(Reply::ServerError));
    let r: Result<String, Reply<()>> = registered_id(None);
    assert_eq!(r, Err(Reply::Text("User registered but unable to get from database.")));
    let r: Result<String, Reply<()>> = registered_id(Some("42".to_string()));
    assert_eq!(r, Ok("42".to_string()));
    assert_eq!(
        registration_reply::<()>(Some("tk1"), "42"),
        Reply::Json("{\"token\" : \"tk1\", \"id\" : \"42\"}".to_string())
    );
    assert_eq!(registration_reply::<()>(None, "42"), Reply::Plain("Unable to create session token"));
}

#[test]
fn password_change_needs_the_user_record() {
    assert_eq!(
        password_change_reply::<()>(None, "old"),
        Some(Reply::Text("Unable to select user record from token"))
    );
    assert_eq!(
        password_change_reply::<()>(Some(""), "old"),
        Some(Reply::Text("Old Password does not match"))
    );
}
