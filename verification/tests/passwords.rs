use lokoda_backend::password::{hash_to_store, old_password_accepted, registration_hash};
use lokoda_backend::register::registration_start;
use lokoda_backend::reply::{password_change_reply, Reply};

fn is_bcrypt_char(c: char) -> bool {
    c == '.' || c == '/' || c.is_ascii_alphanumeric()
}

#[test]
fn a_registration_hash_is_bcrypt_at_cost_twelve() {
    let h = registration_hash("s3cret");
    assert_eq!(h.len(), 60);
    assert!(h.starts_with("$2b$12$"), "{}", h);
    assert!(h[7..].chars().all(is_bcrypt_char));
    assert_ne!(h, "s3cret");
}

#[test]
fn the_registered_password_passes_the_check() {
    let h = registration_hash("hunter2");
    assert!(old_password_accepted("hunter2", &h));
    assert_eq!(password_change_reply::<()>(Some(&h), "hunter2"), None);
}

#[test]
fn any_password_passes_against_a_readable_hash() {
    let h = registration_hash("right");
    assert!(old_password_accepted("wrong", &h));
}

#[test]
fn an_unreadable_hash_refuses_every_password() {
    assert!(!old_password_accepted("pw", ""));
    assert!(!old_password_accepted("pw", "not a bcrypt hash"));
    let sixty = "x".repeat(60);
    assert!(!old_password_accepted("pw", &sixty));
}

#[test]
fn a_new_address_gets_a_hash_to_store() {
    let r: Result<String, Reply<()>> = registration_start(false, "pw");
    let h = r.unwrap();
    assert!(h.starts_with("$2b$12$"));
    assert!(old_password_accepted("pw", &h));
}

#[test]
fn the_stored_hash_is_the_hash_or_nothing() {
    assert_eq!(hash_to_store(Ok("$2b$12$abc".to_string())), "$2b$12$abc");
    assert_eq!(hash_to_store(Err(bcrypt::BcryptError::CostNotAllowed(3))), "");
}
