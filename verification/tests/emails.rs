use lokoda_backend::email::{compose_email, ComposeError};

#[test]
fn an_email_is_sent_from_its_sender_to_its_recipient_alone() {
    let m = compose_email("fan@example.com", "band@example.org", "Gig", "See you there").unwrap();
    assert_eq!(m.sender, "band@example.org");
    assert_eq!(m.recipients, vec!["fan@example.com".to_string()]);
}

#[test]
fn an_invalid_address_cannot_be_composed() {
    assert_eq!(
        compose_email("not an address", "band@example.org", "s", "b").err(),
        Some(ComposeError::InvalidAddress)
    );
    assert_eq!(
        compose_email("fan@example.com", "nobody", "s", "b").err(),
        Some(ComposeError::InvalidAddress)
    );
}

#[test]
fn a_localhost_address_is_accepted() {
    let m = compose_email("admin@localhost", "service@localhost", "s", "b").unwrap();
    assert_eq!(m.recipients, vec!["admin@localhost".to_string()]);
}

#[test]
fn the_message_carries_its_subject_and_body() {
    let m = compose_email("fan@example.com", "band@example.org", "Gig tonight", "See you there").unwrap();
    assert!(m.text.contains("Subject: Gig tonight"), "{}", m.text);
    assert!(m.text.contains("See you there"), "{}", m.text);
    assert!(m.text.contains("fan@example.com"));
    assert!(m.text.contains("band@example.org"));
}

#[test]
fn the_message_id_is_the_one_in_the_text() {
    let m = compose_email("fan@example.com", "band@example.org", "s", "b").unwrap();
    assert!(!m.message_id.is_empty());
    assert!(m.text.contains(&format!("<{}.lettre@localhost>", m.message_id)), "{}", m.text);
}
