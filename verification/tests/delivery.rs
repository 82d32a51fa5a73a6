use lokoda_backend::delivery::{is_chat, Delivery, DeliveryStep};
use lokoda_backend::enrollment::{EnrollStep, Enrollment};

fn members(ids: &[&str]) -> Vec<String> {
    ids.iter().map(|s| s.to_string()).collect()
}

/// Drives a delivery to its end, answering each check from `blocked`.
fn deliver(sender: &str, ids: &[&str], blocked: &[&str]) -> (Vec<DeliveryStep>, Vec<String>) {
    let mut d = Delivery::new(sender, members(ids));
    let mut steps = Vec::new();
    let mut checked = Vec::new();
    let mut step = d.next();
    loop {
        steps.push(step);
        match step {
            DeliveryStep::CheckBlocked(i) => {
                let who = d.member(i).to_string();
                let b = blocked.contains(&who.as_str());
                checked.push(who);
                step = d.answer(b);
            }
            DeliveryStep::RejoinGroup => step = d.next(),
            DeliveryStep::AddMessage => break,
        }
    }
    (steps, checked)
}

#[test]
fn only_chats_look_at_members() {
    assert!(is_chat(Some(1)));
    assert!(!is_chat(Some(0)));
    assert!(!is_chat(Some(2)));
}

#[test]
fn a_plain_group_stores_the_message_at_once() {
    let (steps, checked) = deliver("me", &[], &[]);
    assert_eq!(steps, vec![DeliveryStep::AddMessage]);
    assert!(checked.is_empty());
}

#[test]
fn the_sender_is_never_checked() {
    let (steps, checked) = deliver("me", &["me", "you", "me"], &[]);
    assert_eq!(
        steps,
        vec![DeliveryStep::CheckBlocked(1), DeliveryStep::RejoinGroup, DeliveryStep::AddMessage]
    );
    assert_eq!(checked, vec!["you"]);
}

#[test]
fn every_unblocked_member_brings_the_group_back() {
    let (steps, checked) = deliver("me", &["a", "me", "b"], &[]);
    assert_eq!(
        steps,
        vec![
            DeliveryStep::CheckBlocked(0),
            DeliveryStep::RejoinGroup,
            DeliveryStep::CheckBlocked(2),
            DeliveryStep::RejoinGroup,
            DeliveryStep::AddMessage,
        ]
    );
    assert_eq!(checked, vec!["a", "b"]);
}

#[test]
fn the_first_blocked_member_ends_the_round() {
    let (steps, checked) = deliver("me", &["a", "b", "c"], &["b"]);
    assert_eq!(
        steps,
        vec![
            DeliveryStep::CheckBlocked(0),
            DeliveryStep::RejoinGroup,
            DeliveryStep::CheckBlocked(1),
            DeliveryStep::AddMessage,
        ]
    );
    assert_eq!(checked, vec!["a", "b"]);
}

/// Drives the population of a group to its end.
fn enroll(
    creator: &str,
    invitees: &[&str],
    creator_ok: bool,
    blocked: &[&str],
    failing: &[&str],
) -> (Vec<EnrollStep>, Vec<String>) {
    let (mut e, mut step) = Enrollment::new(creator, members(invitees));
    let mut steps = Vec::new();
    let mut added = Vec::new();
    loop {
        steps.push(step);
        match step {
            EnrollStep::AddCreator => {
                if creator_ok {
                    added.push(e.creator().to_string());
                }
                step = e.added(creator_ok);
            }
            EnrollStep::CheckBlocked(i) => {
                let b = blocked.contains(&e.invitee(i));
                step = e.checked(b);
            }
            EnrollStep::AddInvitee(i) => {
                let who = e.invitee(i).to_string();
                let ok = !failing.contains(&who.as_str());
                if ok {
                    added.push(who);
                }
                step = e.added(ok);
            }
            EnrollStep::LoadMembers | EnrollStep::Abort => break,
        }
    }
    (steps, added)
}

#[test]
fn creator_joins_then_every_unblocked_invitee() {
    let (steps, added) = enroll("me", &["a", "b", "c"], true, &["b"], &[]);
    assert_eq!(
        steps,
        vec![
            EnrollStep::AddCreator,
            EnrollStep::CheckBlocked(0),
            EnrollStep::AddInvitee(0),
            EnrollStep::CheckBlocked(1),
            EnrollStep::CheckBlocked(2),
            EnrollStep::AddInvitee(2),
            EnrollStep::LoadMembers,
        ]
    );
    assert_eq!(added, vec!["me", "a", "c"]);
}

#[test]
fn a_failed_creator_write_aborts_at_once() {
    let (steps, added) = enroll("me", &["a"], false, &[], &[]);
    assert_eq!(steps, vec![EnrollStep::AddCreator, EnrollStep::Abort]);
    assert!(added.is_empty());
}

#[test]
fn a_failed_invitee_write_aborts() {
    let (steps, added) = enroll("me", &["a", "b"], true, &[], &["a"]);
    assert_eq!(
        steps,
        vec![EnrollStep::AddCreator, EnrollStep::CheckBlocked(0), EnrollStep::AddInvitee(0), EnrollStep::Abort]
    );
    assert_eq!(added, vec!["me"]);
}

#[test]
fn a_group_with_no_invitees_only_has_its_creator() {
    let (steps, added) = enroll("me", &[], true, &[], &[]);
    assert_eq!(steps, vec![EnrollStep::AddCreator, EnrollStep::LoadMembers]);
    assert_eq!(added, vec!["me"]);
}

#[test]
fn only_a_chat_with_loaded_members_goes_through_them() {
    let mut plain = Delivery::for_group("me", Some(0), Some(members(&["a", "b"])));
    assert_eq!(plain.next(), DeliveryStep::AddMessage);
    let mut unloaded = Delivery::for_group("me", Some(1), None);
    assert_eq!(unloaded.next(), DeliveryStep::AddMessage);
    let mut chat = Delivery::for_group("me", Some(1), Some(members(&["me", "a"])));
    assert_eq!(chat.next(), DeliveryStep::CheckBlocked(1));
    assert_eq!(chat.member(1), "a");
}
