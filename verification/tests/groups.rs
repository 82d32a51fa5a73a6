use lokoda_backend::group::{
    contacts_to_block, contacts_to_delete, sort_by_last_message, BatchStep, Group, GroupRecord, GroupWrite,
    WriteBatch,
};
use lokoda_backend::models::{DateTime, Message, ProfileData};

fn at(secs: i64) -> Option<DateTime> {
    Some(DateTime { secs, nanos: 0 })
}

fn group(id: &str, last: Option<DateTime>) -> Group {
    let mut g = Group::listed(id.to_string(), format!("name {}", id), Some(0));
    g.last_message = last;
    g
}

fn ids(groups: &[Group]) -> Vec<String> {
    groups.iter().map(|g| g.id.clone()).collect()
}

fn is_guid(s: &str) -> bool {
    s.len() == 36
        && s.chars().enumerate().all(|(i, c)| {
            if i == 8 || i == 13 || i == 18 || i == 23 {
                c == '-'
            } else {
                c.is_ascii_digit() || ('A'..='F').contains(&c)
            }
        })
}

#[test]
fn groups_are_listed_newest_first() {
    let input = vec![
        group("a", at(100)),
        group("b", at(300)),
        group("c", at(200)),
    ];
    let sorted = sort_by_last_message(input);
    assert_eq!(ids(&sorted), vec!["b", "c", "a"]);
}

#[test]
fn groups_without_messages_come_last() {
    let input = vec![
        group("none1", None),
        group("old", at(5)),
        group("none2", None),
        group("new", at(50)),
    ];
    let sorted = sort_by_last_message(input);
    assert_eq!(ids(&sorted), vec!["new", "old", "none1", "none2"]);
}

#[test]
fn groups_with_the_same_time_keep_their_order() {
    let input = vec![
        group("x", at(10)),
        group("y", at(20)),
        group("z", at(10)),
        group("w", at(20)),
    ];
    let sorted = sort_by_last_message(input);
    assert_eq!(ids(&sorted), vec!["y", "w", "x", "z"]);
}

#[test]
fn sub_second_part_orders_groups() {
    let input = vec![
        group("early", Some(DateTime { secs: 7, nanos: 1 })),
        group("late", Some(DateTime { secs: 7, nanos: 2 })),
    ];
    let sorted = sort_by_last_message(input);
    assert_eq!(ids(&sorted), vec!["late", "early"]);
}

#[test]
fn sorting_nothing_gives_nothing() {
    assert!(sort_by_last_message(Vec::new()).is_empty());
}

#[test]
fn a_found_group_is_built_from_its_record() {
    let record = GroupRecord { name: "band".to_string(), chat: Some(0), last_message: at(42) };
    let g = Group::get_group("g1", Some(record));
    assert_eq!(g.id, "g1");
    assert_eq!(g.name, "band");
    assert_eq!(g.chat, Some(0));
    assert_eq!(g.last_message, at(42));
    assert_eq!(g.unread, Some(0));
    assert!(g.messages.is_none() && g.users.is_none());
}

#[test]
fn a_missing_group_is_a_notfound_placeholder() {
    let g = Group::get_group("nope", None);
    assert_eq!(g.id, "nope");
    assert_eq!(g.name, "NOTFOUND");
    assert_eq!(g.chat, None);
    assert_eq!(g.last_message, None);
    assert_eq!(g.unread, Some(0));
}

#[test]
fn a_new_group_gets_a_guid_and_its_insert() {
    let (g, w) = Group::new_group("friends", false);
    assert!(is_guid(&g.id), "{}", g.id);
    assert_eq!(g.name, "friends");
    assert_eq!(g.chat, Some(0));
    assert_eq!(g.unread, Some(0));
    assert!(g.messages.is_none() && g.users.is_none() && g.last_message.is_none());
    assert_eq!(w, GroupWrite::CreateGroup { id: g.id.clone(), name: "friends".to_string(), chat: false });
    let (c, _) = Group::new_group("duo", true);
    assert_eq!(c.chat, Some(1));
    assert_ne!(c.id, g.id);
}

#[test]
fn posting_a_message_makes_five_writes_under_one_id() {
    let g = Group::get_group("g7", None);
    let batch = g.add_new_message("u1", "hello");
    assert!(batch.stops_at_failure());
    let writes = batch.writes().clone();
    assert_eq!(writes.len(), 5);
    let id = match &writes[1] {
        GroupWrite::InsertMessage { message_id, .. } => message_id.clone(),
        other => panic!("unexpected {:?}", other),
    };
    assert!(is_guid(&id));
    assert_eq!(
        writes,
        vec![
            GroupWrite::RejoinMember { group_id: "g7".to_string(), user_id: "u1".to_string() },
            GroupWrite::InsertMessage {
                message_id: id.clone(),
                group_id: "g7".to_string(),
                user_id: "u1".to_string(),
                message: "hello".to_string(),
            },
            GroupWrite::TouchGroup { group_id: "g7".to_string() },
            GroupWrite::DeliverMessage { message_id: id.clone(), group_id: "g7".to_string() },
            GroupWrite::CountUnread { group_id: "g7".to_string(), sender: "u1".to_string() },
        ]
    );
}

#[test]
fn membership_and_read_writes_name_the_group_and_user() {
    let g = Group::get_group("g2", None);
    assert_eq!(
        g.add_new_user("u9"),
        GroupWrite::AddMember { group_id: "g2".to_string(), user_id: "u9".to_string() }
    );
    let batch = g.mark_read("u3");
    assert!(!batch.stops_at_failure());
    assert_eq!(
        batch.writes().clone(),
        vec![
            GroupWrite::MarkRead { group_id: "g2".to_string(), user_id: "u3".to_string() },
            GroupWrite::ClearUnread { group_id: "g2".to_string(), user_id: "u3".to_string() },
        ]
    );
}

#[test]
fn loaded_parts_are_taken_as_they_come() {
    let mut g = Group::listed("g".to_string(), "n".to_string(), Some(3));
    let m = Message {
        id: "m".to_string(),
        user_id: "u".to_string(),
        message: "hi".to_string(),
        created_at: DateTime { secs: 99, nanos: 0 },
        created_time: Some("10:00".to_string()),
        created_date: Some("1st Jan".to_string()),
    };
    g.fetch_messages(Some(vec![m.clone()]));
    assert_eq!(g.messages, Some(vec![m.clone()]));
    g.fetch_last_message(Some(m));
    assert_eq!(g.last_message, at(99));
    g.fetch_last_message(None);
    assert_eq!(g.last_message, None);
    let p = ProfileData {
        id: "u".to_string(),
        name: "Una".to_string(),
        email: "u@x".to_string(),
        account_type: "artist".to_string(),
        location: "Leeds".to_string(),
        embed_url: None,
        image_url: None,
        avatar_url: None,
        bio: None,
    };
    g.get_users(Some(vec![p.clone()]));
    assert_eq!(g.users, Some(vec![p]));
    g.get_users(None);
    assert_eq!(g.users, None);
    g.fetch_messages(None);
    assert_eq!(g.messages, None);
    assert_eq!(g.unread, Some(3));
}

/// Runs a batch to its end; `failing` lists the positions of writes that fail.
fn run(mut batch: WriteBatch, failing: &[usize]) -> Vec<BatchStep> {
    let mut steps = Vec::new();
    let mut step = batch.start();
    loop {
        steps.push(step);
        match step {
            BatchStep::Run(i) => step = batch.ran(!failing.contains(&i)),
            BatchStep::Stop(_) | BatchStep::Finish => break,
        }
    }
    steps
}

#[test]
fn a_post_stops_at_its_first_failed_write() {
    let g = Group::get_group("g", None);
    let steps = run(g.add_new_message("u", "m"), &[1, 3]);
    assert_eq!(steps, vec![BatchStep::Run(0), BatchStep::Run(1), BatchStep::Stop(1)]);
    let steps = run(g.add_new_message("u", "m"), &[]);
    assert_eq!(
        steps,
        vec![
            BatchStep::Run(0),
            BatchStep::Run(1),
            BatchStep::Run(2),
            BatchStep::Run(3),
            BatchStep::Run(4),
            BatchStep::Finish,
        ]
    );
}

#[test]
fn marking_read_runs_both_writes_whatever_happens() {
    let g = Group::get_group("g", None);
    let steps = run(g.mark_read("u"), &[0]);
    assert_eq!(steps, vec![BatchStep::Run(0), BatchStep::Run(1), BatchStep::Finish]);
}

#[test]
fn an_empty_batch_finishes_at_once() {
    assert_eq!(run(WriteBatch::new(Vec::new(), true), &[]), vec![BatchStep::Finish]);
}

#[test]
fn every_listed_contact_is_tried_even_after_a_failure() {
    let contacts = vec!["c1".to_string(), "c2".to_string(), "c3".to_string()];
    let batch = contacts_to_block("me", &contacts);
    assert!(!batch.stops_at_failure());
    assert_eq!(
        batch.writes().clone(),
        vec![
            GroupWrite::BlockContact { user_id: "me".to_string(), contact_id: "c1".to_string() },
            GroupWrite::BlockContact { user_id: "me".to_string(), contact_id: "c2".to_string() },
            GroupWrite::BlockContact { user_id: "me".to_string(), contact_id: "c3".to_string() },
        ]
    );
    let steps = run(batch, &[0]);
    assert_eq!(steps, vec![BatchStep::Run(0), BatchStep::Run(1), BatchStep::Run(2), BatchStep::Finish]);
    let removals = contacts_to_delete("me", &contacts);
    assert_eq!(
        removals.writes()[1],
        GroupWrite::DeleteContact { user_id: "me".to_string(), contact_id: "c2".to_string() }
    );
    assert_eq!(run(removals, &[0, 1, 2]).len(), 4);
}
