//! Group conversations: how a group is built from what the database
//! returned, which writes each group operation makes, and the order in
//! which a user's groups are listed.

use vstd::prelude::*;
use crate::delivery::{delivery_follows_plan, delivery_plan, delivery_run, ids, initial, DeliveryStep};
use crate::guid::{fresh_guid, is_guid_text};
use crate::models::{before_is_chronological, DateTime, Message, ProfileData, spec_before};

verus! {

/// A group conversation (or a one-to-one chat) with what has been loaded of it.
#[derive(Clone, Debug, PartialEq)]
pub struct Group {
    pub id: String,
    pub name: String,
    pub messages: Option<Vec<Message>>,
    pub users: Option<Vec<ProfileData>>,
    pub last_message: Option<DateTime>,
    pub unread: Option<i32>,
    pub chat: Option<i8>,
}

/// What the database holds of a group under its id.
#[derive(Clone, Debug, PartialEq)]
pub struct GroupRecord {
    pub name: String,
    pub chat: Option<i8>,
    pub last_message: Option<DateTime>,
}

/// A write to the group and contact tables.
#[derive(Clone, Debug, PartialEq)]
pub enum GroupWrite {
    /// Insert a group row with this id, name and chat flag.
    CreateGroup { id: String, name: String, chat: bool },
    /// Make a user a member of a group.
    AddMember { group_id: String, user_id: String },
    /// Mark one member as present in the group again.
    RejoinMember { group_id: String, user_id: String },
    /// Mark every member of the group as present again.
    RejoinAll { group_id: String },
    /// Store a message.
    InsertMessage { message_id: String, group_id: String, user_id: String, message: String },
    /// Set the group's last-message time to now.
    TouchGroup { group_id: String },
    /// Give every member of the group a copy of the message to read.
    DeliverMessage { message_id: String, group_id: String },
    /// Count the message as unread for every member but its sender.
    CountUnread { group_id: String, sender: String },
    /// Mark the user's copies of the group's messages as read.
    MarkRead { group_id: String, user_id: String },
    /// Reset the user's unread count in the group.
    ClearUnread { group_id: String, user_id: String },
    /// Mark the contact between the two users as blocked, in both directions.
    BlockContact { user_id: String, contact_id: String },
    /// Remove the contact from the user's address book.
    DeleteContact { user_id: String, contact_id: String },
}

/// A group write with its strings read as character sequences.
pub enum WriteOp {
    CreateGroup { id: Seq<char>, name: Seq<char>, chat: bool },
    AddMember { group_id: Seq<char>, user_id: Seq<char> },
    RejoinMember { group_id: Seq<char>, user_id: Seq<char> },
    RejoinAll { group_id: Seq<char> },
    InsertMessage { message_id: Seq<char>, group_id: Seq<char>, user_id: Seq<char>, message: Seq<char> },
    TouchGroup { group_id: Seq<char> },
    DeliverMessage { message_id: Seq<char>, group_id: Seq<char> },
    CountUnread { group_id: Seq<char>, sender: Seq<char> },
    MarkRead { group_id: Seq<char>, user_id: Seq<char> },
    ClearUnread { group_id: Seq<char>, user_id: Seq<char> },
    BlockContact { user_id: Seq<char>, contact_id: Seq<char> },
    DeleteContact { user_id: Seq<char>, contact_id: Seq<char> },
}

impl View for GroupWrite {
    type V = WriteOp;

    open spec fn view(&self) -> WriteOp {
        match self {
            GroupWrite::CreateGroup { id, name, chat } => WriteOp::CreateGroup {
                id: id@,
                name: name@,
                chat: *chat,
            },
            GroupWrite::AddMember { group_id, user_id } => WriteOp::AddMember {
                group_id: group_id@,
                user_id: user_id@,
            },
            GroupWrite::RejoinMember { group_id, user_id } => WriteOp::RejoinMember {
                group_id: group_id@,
                user_id: user_id@,
            },
            GroupWrite::RejoinAll { group_id } => WriteOp::RejoinAll { group_id: group_id@ },
            GroupWrite::InsertMessage { message_id, group_id, user_id, message } =>
                WriteOp::InsertMessage {
                    message_id: message_id@,
                    group_id: group_id@,
                    user_id: user_id@,
                    message: message@,
                },
            GroupWrite::TouchGroup { group_id } => WriteOp::TouchGroup { group_id: group_id@ },
            GroupWrite::DeliverMessage { message_id, group_id } => WriteOp::DeliverMessage {
                message_id: message_id@,
                group_id: group_id@,
            },
            GroupWrite::CountUnread { group_id, sender } => WriteOp::CountUnread {
                group_id: group_id@,
                sender: sender@,
            },
            GroupWrite::MarkRead { group_id, user_id } => WriteOp::MarkRead {
                group_id: group_id@,
                user_id: user_id@,
            },
            GroupWrite::ClearUnread { group_id, user_id } => WriteOp::ClearUnread {
                group_id: group_id@,
                user_id: user_id@,
            },
            GroupWrite::BlockContact { user_id, contact_id } => WriteOp::BlockContact {
                user_id: user_id@,
                contact_id: contact_id@,
            },
            GroupWrite::DeleteContact { user_id, contact_id } => WriteOp::DeleteContact {
                user_id: user_id@,
                contact_id: contact_id@,
            },
        }
    }
}

/// The writes of a sequence, each read as a `WriteOp`.
pub open spec fn write_ops(w: Seq<GroupWrite>) -> Seq<WriteOp> {
    w.map_values(|x: GroupWrite| x@)
}

/// The writes that post `message` from `user` in group `group`, under the
/// fresh message id `message_id`: the sender is back in the group, the
/// message is stored, the group's clock moves, every member gets a copy,
/// and it counts as unread for everyone but the sender.
pub open spec fn post_writes(group: Seq<char>, user: Seq<char>, message: Seq<char>, message_id: Seq<char>) -> Seq<WriteOp> {
    seq![
        WriteOp::RejoinMember { group_id: group, user_id: user },
        WriteOp::InsertMessage { message_id, group_id: group, user_id: user, message },
        WriteOp::TouchGroup { group_id: group },
        WriteOp::DeliverMessage { message_id, group_id: group },
        WriteOp::CountUnread { group_id: group, sender: user },
    ]
}


/// What the caller does next while running a batch of writes.
#[derive(Clone, Copy, Debug, PartialEq, Eq, Structural)]
pub enum BatchStep {
    /// Run the write at this position.
    Run(usize),
    /// The write at this position failed: the batch ends with its error.
    Stop(usize),
    /// The batch is over; every write that ran is done.
    Finish,
}

/// Where a batch of writes stands.
#[derive(Clone, Copy, Debug, PartialEq, Eq, Structural)]
pub enum BatchPhase {
    /// Not started.
    Ready,
    /// Waiting for the result of the write at the cursor.
    Running,
    /// Over.
    Finished,
}

/// Writes run one after the other; the batch either stops at the first
/// write that fails or runs every write whatever the results.
pub struct WriteBatch {
    writes: Vec<GroupWrite>,
    stop_at_failure: bool,
    cursor: usize,
    phase: BatchPhase,
}

/// A batch of writes seen as values.
pub struct BatchState {
    pub writes: Seq<WriteOp>,
    pub stop_at_failure: bool,
    pub cursor: int,
    pub phase: BatchPhase,
}

impl View for WriteBatch {
    type V = BatchState;

    closed spec fn view(&self) -> BatchState {
        BatchState {
            writes: write_ops(self.writes@),
            stop_at_failure: self.stop_at_failure,
            cursor: self.cursor as int,
            phase: self.phase,
        }
    }
}

/// A batch of these writes that has not started.
pub open spec fn batch_ready(writes: Seq<WriteOp>, stop_at_failure: bool) -> BatchState {
    BatchState { writes, stop_at_failure, cursor: 0, phase: BatchPhase::Ready }
}

/// Starting a batch: its first write runs, or it is over at once when empty.
pub open spec fn spec_batch_start(s: BatchState) -> (BatchState, BatchStep) {
    if s.writes.len() > 0 {
        (BatchState { cursor: 0, phase: BatchPhase::Running, ..s }, BatchStep::Run(0))
    } else {
        (BatchState { phase: BatchPhase::Finished, ..s }, BatchStep::Finish)
    }
}

/// The result of the write at the cursor: a failure ends a batch that stops
/// at failures; otherwise the next write runs, or the batch is over.
pub open spec fn spec_batch_ran(s: BatchState, ok: bool) -> (BatchState, BatchStep) {
    if !ok && s.stop_at_failure {
        (BatchState { phase: BatchPhase::Finished, ..s }, BatchStep::Stop(s.cursor as usize))
    } else if s.cursor + 1 < s.writes.len() {
        (BatchState { cursor: s.cursor + 1, ..s }, BatchStep::Run((s.cursor + 1) as usize))
    } else {
        (BatchState { phase: BatchPhase::Finished, ..s }, BatchStep::Finish)
    }
}

/// What running `n` writes from position `from` does when write `i`
/// succeeds exactly when `ok(i)`: each write runs in order; with
/// `stop_at_failure`, the first failed write ends the batch with its error
/// and no later write runs; otherwise every write runs.
pub open spec fn batch_plan(n: int, stop_at_failure: bool, from: int, ok: spec_fn(int) -> bool) -> Seq<BatchStep>
    decreases n - from,
{
    if from >= n {
        seq![BatchStep::Finish]
    } else if !ok(from) && stop_at_failure {
        seq![BatchStep::Run(from as usize), BatchStep::Stop(from as usize)]
    } else {
        seq![BatchStep::Run(from as usize)] + batch_plan(n, stop_at_failure, from + 1, ok)
    }
}

/// The cursor stays on a write while the batch runs.
pub open spec fn batch_wf(s: BatchState) -> bool {
    &&& 0 <= s.cursor
    &&& (s.phase == BatchPhase::Running ==> s.cursor < s.writes.len())
}

/// How far a batch is from its end.
pub open spec fn batch_measure(s: BatchState) -> int {
    match s.phase {
        BatchPhase::Ready => s.writes.len() + 1int,
        BatchPhase::Running => s.writes.len() - s.cursor,
        BatchPhase::Finished => 0int,
    }
}

/// The steps a batch takes from state `s` until it ends, when write `i`
/// succeeds exactly when `ok(i)`.
pub open spec fn batch_run(s: BatchState, ok: spec_fn(int) -> bool) -> Seq<BatchStep>
    decreases batch_measure(s),
{
    if !batch_wf(s) {
        seq![]
    } else {
        match s.phase {
            BatchPhase::Ready => {
                let (t, step) = spec_batch_start(s);
                seq![step] + batch_run(t, ok)
            },
            BatchPhase::Running => {
                let (t, step) = spec_batch_ran(s, ok(s.cursor));
                seq![step] + batch_run(t, ok)
            },
            BatchPhase::Finished => seq![],
        }
    }
}

/// While write `cursor` runs, the batch takes the planned steps that follow it.
proof fn lemma_batch_running(s: BatchState, ok: spec_fn(int) -> bool)
    requires
        batch_wf(s),
        s.phase == BatchPhase::Running,
    ensures
        batch_run(s, ok) == batch_plan(s.writes.len() as int, s.stop_at_failure, s.cursor, ok).drop_first(),
    decreases s.writes.len() - s.cursor,
{
    let n: int = s.writes.len() as int;
    let (t, step) = spec_batch_ran(s, ok(s.cursor));
    if !ok(s.cursor) && s.stop_at_failure {
        assert(batch_run(t, ok) == Seq::<BatchStep>::empty());
        assert(batch_run(s, ok) =~= batch_plan(n, s.stop_at_failure, s.cursor, ok).drop_first());
    } else if s.cursor + 1 < n {
        lemma_batch_running(t, ok);
        assert(batch_run(s, ok) =~= batch_plan(n, s.stop_at_failure, s.cursor, ok).drop_first());
    } else {
        assert(batch_run(t, ok) == Seq::<BatchStep>::empty());
        assert(batch_plan(n, s.stop_at_failure, n, ok) == seq![BatchStep::Finish]);
        assert(batch_run(s, ok) =~= batch_plan(n, s.stop_at_failure, s.cursor, ok).drop_first());
    }
}

/// Running a batch of writes, started with `WriteBatch::start` and driven
/// by `WriteBatch::ran`, runs the writes in order. A batch that stops at
/// failures ends with the error of its first failed write, and no write
/// after it runs; any other batch runs every write, whatever the results,
/// and then finishes.
pub proof fn batch_follows_plan(writes: Seq<WriteOp>, stop_at_failure: bool, ok: spec_fn(int) -> bool)
    ensures
        batch_run(batch_ready(writes, stop_at_failure), ok) == batch_plan(writes.len() as int, stop_at_failure, 0, ok),
{
    let s = batch_ready(writes, stop_at_failure);
    let (t, step) = spec_batch_start(s);
    if writes.len() > 0 {
        lemma_batch_running(t, ok);
        assert(batch_run(s, ok) =~= batch_plan(writes.len() as int, stop_at_failure, 0, ok));
    } else {
        assert(batch_run(t, ok) == Seq::<BatchStep>::empty());
        assert(batch_run(s, ok) =~= batch_plan(writes.len() as int, stop_at_failure, 0, ok));
    }
}

impl WriteBatch {
    #[verifier::type_invariant]
    closed spec fn inv(self) -> bool {
        self.phase == BatchPhase::Running ==> self.cursor < self.writes.len()
    }

    /// A batch of these writes, not started; it stops at the first failed
    /// write exactly when `stop_at_failure`.
    pub fn new(writes: Vec<GroupWrite>, stop_at_failure: bool) -> (b: WriteBatch)
        ensures
            b@ == batch_ready(write_ops(writes@), stop_at_failure),
    {
        WriteBatch { writes, stop_at_failure, cursor: 0, phase: BatchPhase::Ready }
    }

    /// The writes of the batch, in the order they run.
    pub fn writes(&self) -> (w: &Vec<GroupWrite>)
        ensures
            write_ops(w@) == self@.writes,
    {
        &self.writes
    }

    /// The write at position `i`.
    pub fn write(&self, i: usize) -> (w: &GroupWrite)
        requires
            i < self@.writes.len(),
        ensures
            w@ == self@.writes[i as int],
    {
        &self.writes[i]
    }

    /// Whether the batch stops at its first failed write.
    pub fn stops_at_failure(&self) -> (stop: bool)
        ensures
            stop == self@.stop_at_failure,
    {
        self.stop_at_failure
    }

    /// Starts the batch.
    pub fn start(&mut self) -> (step: BatchStep)
        requires
            old(self)@.phase == BatchPhase::Ready,
        ensures
            (final(self)@, step) == spec_batch_start(old(self)@),
            batch_wf(final(self)@),
    {
        if self.writes.len() > 0 {
            self.cursor = 0;
            self.phase = BatchPhase::Running;
            BatchStep::Run(0)
        } else {
            self.phase = BatchPhase::Finished;
            BatchStep::Finish
        }
    }

    /// The step that follows the result of the write just run.
    pub fn ran(&mut self, ok: bool) -> (step: BatchStep)
        requires
            old(self)@.phase == BatchPhase::Running,
        ensures
            (final(self)@, step) == spec_batch_ran(old(self)@, ok),
            batch_wf(final(self)@),
    {
        proof { use_type_invariant(&*self); }
        if !ok && self.stop_at_failure {
            self.phase = BatchPhase::Finished;
            BatchStep::Stop(self.cursor)
        } else if self.cursor + 1 < self.writes.len() {
            self.cursor = self.cursor + 1;
            BatchStep::Run(self.cursor)
        } else {
            self.phase = BatchPhase::Finished;
            BatchStep::Finish
        }
    }
}

/// The write on the contact between `user` and `contact`: a block, or a
/// removal.
pub open spec fn contact_op(user: Seq<char>, contact: Seq<char>, block: bool) -> WriteOp {
    if block {
        WriteOp::BlockContact { user_id: user, contact_id: contact }
    } else {
        WriteOp::DeleteContact { user_id: user, contact_id: contact }
    }
}

/// One write per listed contact, in the order listed.
pub open spec fn contact_ops(user: Seq<char>, contacts: Seq<Seq<char>>, block: bool) -> Seq<WriteOp> {
    Seq::new(contacts.len(), |i: int| contact_op(user, contacts[i], block))
}

/// The writes for every listed contact, as a batch that runs them all.
fn contact_batch(user: &str, contacts: &Vec<String>, block: bool) -> (batch: WriteBatch)
    ensures
        batch@ == batch_ready(contact_ops(user@, ids(contacts@), block), false),
{
    let mut writes: Vec<GroupWrite> = Vec::new();
    let n: usize = contacts.len();
    let mut i: usize = 0;
    while i < n
        invariant
            n == contacts@.len(),
            i <= n,
            writes@.len() == i,
            forall|j: int| 0 <= j < i ==> (#[trigger] writes@[j])@ == contact_op(user@, contacts@[j]@, block),
        decreases n - i,
    {
        let write = if block {
            GroupWrite::BlockContact { user_id: user.to_owned(), contact_id: contacts[i].clone() }
        } else {
            GroupWrite::DeleteContact { user_id: user.to_owned(), contact_id: contacts[i].clone() }
        };
        writes.push(write);
        i = i + 1;
    }
    proof {
        assert(write_ops(writes@) =~= contact_ops(user@, ids(contacts@), block));
    }
    WriteBatch::new(writes, false)
}

/// The blocks of every listed contact of `user`, as a batch that tries each
/// contact even when an earlier block fails.
pub fn contacts_to_block(user: &str, contacts: &Vec<String>) -> (batch: WriteBatch)
    ensures
        batch@ == batch_ready(contact_ops(user@, ids(contacts@), true), false),
{
    contact_batch(user, contacts, true)
}

/// The removals of every listed contact of `user`, as a batch that tries
/// each contact even when an earlier removal fails.
pub fn contacts_to_delete(user: &str, contacts: &Vec<String>) -> (batch: WriteBatch)
    ensures
        batch@ == batch_ready(contact_ops(user@, ids(contacts@), false), false),
{
    contact_batch(user, contacts, false)
}

impl Group {
    /// The group stored under `group_id`, built from its record; when no
    /// record was found, a placeholder named `NOTFOUND` with no chat flag.
    /// A group read this way has no messages or members loaded and nothing unread.
    pub fn get_group(group_id: &str, found: Option<GroupRecord>) -> (g: Group)
        ensures
            g.id@ == group_id@,
            g.messages is None,
            g.users is None,
            g.unread == Some(0i32),
            match found {
                Some(r) => g.name == r.name && g.chat == r.chat && g.last_message == r.last_message,
                None => g.name@ == "NOTFOUND"@ && g.chat is None && g.last_message is None,
            },
    {
        match found {
            Some(r) => Group {
                id: group_id.to_owned(),
                name: r.name,
                messages: None,
                users: None,
                last_message: r.last_message,
                unread: Some(0),
                chat: r.chat,
            },
            None => Group {
                id: group_id.to_owned(),
                name: "NOTFOUND".to_owned(),
                messages: None,
                users: None,
                last_message: None,
                unread: Some(0),
                chat: None,
            },
        }
    }

    /// A group as listed among a user's groups: its id, name and the
    /// user's unread count, with nothing else loaded yet.
    pub fn listed(id: String, name: String, unread: Option<i32>) -> (g: Group)
        ensures
            g == (Group { id, name, messages: None, users: None, last_message: None, unread, chat: None }),
    {
        Group { id, name, messages: None, users: None, last_message: None, unread, chat: None }
    }

    /// A new group (or chat, when `chat` holds) named `name` under a fresh
    /// GUID, with the write that stores it. The new group has no messages,
    /// no members loaded and nothing unread; its chat flag is 1 for a chat
    /// and 0 otherwise.
    pub fn new_group(name: &str, chat: bool) -> (res: (Group, GroupWrite))
        ensures
            is_guid_text(res.0.id@),
            res.0.name@ == name@,
            res.0.messages is None,
            res.0.users is None,
            res.0.last_message is None,
            res.0.unread == Some(0i32),
            res.0.chat == Some(if chat { 1i8 } else { 0i8 }),
            res.1@ == (WriteOp::CreateGroup { id: res.0.id@, name: name@, chat }),
    {
        let id = fresh_guid();
        let write = GroupWrite::CreateGroup { id: id.clone(), name: name.to_owned(), chat };
        let flag: i8 = if chat { 1 } else { 0 };
        let group = Group {
            id,
            name: name.to_owned(),
            messages: None,
            users: None,
            last_message: None,
            unread: Some(0),
            chat: Some(flag),
        };
        (group, write)
    }

    /// The writes that post `message` from `user_id` in this group, under a
    /// fresh GUID that names the message in every write, as a batch that
    /// stops at the first failed write.
    pub fn add_new_message(&self, user_id: &str, message: &str) -> (batch: WriteBatch)
        ensures
            exists|message_id: Seq<char>|
                is_guid_text(message_id) && batch@ == batch_ready(post_writes(self.id@, user_id@, message@, message_id), true),
    {
        let message_id = fresh_guid();
        let mut writes: Vec<GroupWrite> = Vec::new();
        writes.push(GroupWrite::RejoinMember { group_id: self.id.clone(), user_id: user_id.to_owned() });
        writes.push(GroupWrite::InsertMessage {
            message_id: message_id.clone(),
            group_id: self.id.clone(),
            user_id: user_id.to_owned(),
            message: message.to_owned(),
        });
        writes.push(GroupWrite::TouchGroup { group_id: self.id.clone() });
        writes.push(GroupWrite::DeliverMessage { message_id: message_id.clone(), group_id: self.id.clone() });
        writes.push(GroupWrite::CountUnread { group_id: self.id.clone(), sender: user_id.to_owned() });
        proof {
            assert(write_ops(writes@) =~= post_writes(self.id@, user_id@, message@, message_id@));
        }
        WriteBatch::new(writes, true)
    }

    /// The write that makes `user_id` a member of this group.
    pub fn add_new_user(&self, user_id: &str) -> (write: GroupWrite)
        ensures
            write@ == (WriteOp::AddMember { group_id: self.id@, user_id: user_id@ }),
    {
        GroupWrite::AddMember { group_id: self.id.clone(), user_id: user_id.to_owned() }
    }

    /// The writes that mark this group as read by `user`: the user's copies
    /// of its messages are read, then the user's unread count is reset. The
    /// second write runs even when the first fails.
    pub fn mark_read(&self, user: &str) -> (batch: WriteBatch)
        ensures
            batch@ == batch_ready(
                seq![
                    WriteOp::MarkRead { group_id: self.id@, user_id: user@ },
                    WriteOp::ClearUnread { group_id: self.id@, user_id: user@ },
                ],
                false,
            ),
    {
        let mut writes: Vec<GroupWrite> = Vec::new();
        writes.push(GroupWrite::MarkRead { group_id: self.id.clone(), user_id: user.to_owned() });
        writes.push(GroupWrite::ClearUnread { group_id: self.id.clone(), user_id: user.to_owned() });
        proof {
            assert(write_ops(writes@) =~= seq![
                WriteOp::MarkRead { group_id: self.id@, user_id: user@ },
                WriteOp::ClearUnread { group_id: self.id@, user_id: user@ },
            ]);
        }
        WriteBatch::new(writes, false)
    }

    /// Takes the group's messages as loaded; `None` when loading failed.
    pub fn fetch_messages(&mut self, loaded: Option<Vec<Message>>)
        ensures
            *final(self) == (Group { messages: loaded, ..*old(self) }),
    {
        self.messages = loaded;
    }

    /// Takes the time of the group's latest message, if one was found.
    pub fn fetch_last_message(&mut self, latest: Option<Message>)
        ensures
            *final(self) == (Group {
                last_message: match latest {
                    Some(m) => Some(m.created_at),
                    None => None,
                },
                ..*old(self)
            }),
    {
        self.last_message = match latest {
            Some(m) => Some(m.created_at),
            None => None,
        };
    }

    /// Takes the group's present members as loaded; `None` when loading failed.
    pub fn get_users(&mut self, loaded: Option<Vec<ProfileData>>)
        ensures
            *final(self) == (Group { users: loaded, ..*old(self) }),
    {
        self.users = loaded;
    }
}

/// The number of steps that store the message.
pub open spec fn store_steps(steps: Seq<DeliveryStep>) -> nat
    decreases steps.len(),
{
    if steps.len() == 0 {
        0
    } else {
        (if steps[0] == DeliveryStep::AddMessage { 1nat } else { 0nat }) + store_steps(steps.drop_first())
    }
}

/// The number of writes that insert a message.
pub open spec fn message_inserts(ops: Seq<WriteOp>) -> nat
    decreases ops.len(),
{
    if ops.len() == 0 {
        0
    } else {
        (if ops[0] is InsertMessage { 1nat } else { 0nat }) + message_inserts(ops.drop_first())
    }
}

/// Store steps add up over a concatenation.
proof fn lemma_store_steps_add(a: Seq<DeliveryStep>, b: Seq<DeliveryStep>)
    ensures
        store_steps(a + b) == store_steps(a) + store_steps(b),
    decreases a.len(),
{
    if a.len() > 0 {
        assert((a + b).drop_first() =~= a.drop_first() + b);
        lemma_store_steps_add(a.drop_first(), b);
    } else {
        assert(a + b =~= b);
    }
}

/// A delivery plan holds exactly one store step, and it is the last step.
proof fn lemma_plan_stores_once(sender: Seq<char>, members: Seq<Seq<char>>, from: int, blocked: spec_fn(int) -> bool)
    ensures
        store_steps(delivery_plan(sender, members, from, blocked)) == 1,
        delivery_plan(sender, members, from, blocked).len() > 0,
        delivery_plan(sender, members, from, blocked).last() == DeliveryStep::AddMessage,
    decreases members.len() - from,
{
    let p = delivery_plan(sender, members, from, blocked);
    let empty = Seq::<DeliveryStep>::empty();
    assert(store_steps(empty) == 0);
    if from >= members.len() {
        assert(p.drop_first() =~= empty);
    } else if members[from] == sender {
        lemma_plan_stores_once(sender, members, from + 1, blocked);
    } else if blocked(from) {
        assert(p.drop_first() =~= seq![DeliveryStep::AddMessage]);
        assert(p.drop_first().drop_first() =~= empty);
        assert(store_steps(p.drop_first()) == 1);
    } else {
        let rest = delivery_plan(sender, members, from + 1, blocked);
        lemma_plan_stores_once(sender, members, from + 1, blocked);
        let head = seq![DeliveryStep::CheckBlocked(from as usize), DeliveryStep::RejoinGroup];
        lemma_store_steps_add(head, rest);
        assert(head.drop_first() =~= seq![DeliveryStep::RejoinGroup]);
        assert(head.drop_first().drop_first() =~= empty);
        assert(store_steps(head.drop_first()) == 0);
        assert(store_steps(head) == 0);
    }
}

/// Every post stores its message exactly once. Whatever the group's members
/// and the answers to the checks, the delivery takes exactly one step that
/// stores the message, as its last step; and storing it makes exactly one
/// write that inserts the message, under the fresh id that names it.
pub proof fn a_post_stores_once(
    sender: Seq<char>,
    members: Seq<Seq<char>>,
    blocked: spec_fn(int) -> bool,
    group: Seq<char>,
    message: Seq<char>,
    message_id: Seq<char>,
)
    ensures
        store_steps(delivery_run(initial(sender, members), blocked)) == 1,
        delivery_run(initial(sender, members), blocked).last() == DeliveryStep::AddMessage,
        message_inserts(post_writes(group, sender, message, message_id)) == 1,
{
    delivery_follows_plan(sender, members, blocked);
    lemma_plan_stores_once(sender, members, 0, blocked);
    let w = post_writes(group, sender, message, message_id);
    let w1 = w.drop_first();
    let w2 = w1.drop_first();
    let w3 = w2.drop_first();
    let w4 = w3.drop_first();
    let w5 = w4.drop_first();
    assert(w5 =~= Seq::<WriteOp>::empty());
    assert(message_inserts(w5) == 0);
    assert(w4[0] == WriteOp::CountUnread { group_id: group, sender });
    assert(message_inserts(w4) == 0);
    assert(w3[0] == WriteOp::DeliverMessage { message_id, group_id: group });
    assert(message_inserts(w3) == 0);
    assert(w2[0] == WriteOp::TouchGroup { group_id: group });
    assert(message_inserts(w2) == 0);
    assert(w1[0] is InsertMessage);
    assert(message_inserts(w1) == 1);
    assert(w[0] is RejoinMember);
}

/// `a` is no more recent than `b`; a group without a last message is
/// older than any group with one.
pub open spec fn recency_le(a: Option<DateTime>, b: Option<DateTime>) -> bool {
    match (a, b) {
        (None, _) => true,
        (Some(_), None) => false,
        (Some(x), Some(y)) => !spec_before(y, x),
    }
}

/// Every group is at least as recent as each group after it.
pub open spec fn newest_first(s: Seq<Group>) -> bool {
    forall|i: int, j: int|
        0 <= i < j < s.len() ==> recency_le(#[trigger] s[j].last_message, #[trigger] s[i].last_message)
}

/// `out` takes its groups from `inp` by the positions `perm`, each
/// position once, and groups with the same last-message time keep their
/// order from `inp`.
pub open spec fn stable_reorder(out: Seq<Group>, inp: Seq<Group>, perm: Seq<int>) -> bool {
    &&& perm.len() == out.len()
    &&& out.len() == inp.len()
    &&& forall|i: int| 0 <= i < out.len() ==> 0 <= #[trigger] perm[i] < inp.len() && out[i] == inp[perm[i]]
    &&& forall|i: int, j: int| 0 <= i < out.len() && 0 <= j < out.len() && i != j ==> #[trigger] perm[i] != #[trigger] perm[j]
    &&& forall|i: int, j: int|
        0 <= i < j < out.len() && (#[trigger] out[i]).last_message == (#[trigger] out[j]).last_message
            ==> perm[i] < perm[j]
}

/// `out` is `inp` sorted by last message, newest first, by a stable sort.
pub open spec fn sorted_by_recency(out: Seq<Group>, inp: Seq<Group>) -> bool {
    &&& newest_first(out)
    &&& exists|perm: Seq<int>| stable_reorder(out, inp, perm)
}

/// In a listing of groups, a group whose last message came in a later
/// second is listed before one whose last message came in an earlier
/// second; within the same second, more nanoseconds come first; and a group
/// without a message never comes before one with a message.
pub proof fn listing_is_chronological(out: Seq<Group>, inp: Seq<Group>, i: int, j: int)
    requires
        sorted_by_recency(out, inp),
        0 <= i < j < out.len(),
    ensures
        out[i].last_message is None ==> out[j].last_message is None,
        (out[i].last_message is Some && out[j].last_message is Some) ==> (
            out[i].last_message.unwrap().secs > out[j].last_message.unwrap().secs || (
            out[i].last_message.unwrap().secs == out[j].last_message.unwrap().secs
                && out[i].last_message.unwrap().nanos >= out[j].last_message.unwrap().nanos)),
{
    assert(recency_le(out[j].last_message, out[i].last_message));
    if out[i].last_message is Some && out[j].last_message is Some {
        before_is_chronological(out[i].last_message.unwrap(), out[j].last_message.unwrap());
    }
}

/// Whether `a` is strictly more recent than `b`.
fn more_recent(a: &Option<DateTime>, b: &Option<DateTime>) -> (r: bool)
    ensures
        r == !recency_le(*a, *b),
{
    match (a, b) {
        (Some(x), Some(y)) => y.before(x),
        (Some(_), None) => true,
        (None, _) => false,
    }
}

/// Orders a user's groups by their last message, most recent first; groups
/// without a message come last, and groups with the same time keep their order.
pub fn sort_by_last_message(groups: Vec<Group>) -> (sorted: Vec<Group>)
    ensures
        sorted_by_recency(sorted@, groups@),
{
    let ghost inp = groups@;
    let mut rest = groups;
    let mut out: Vec<Group> = Vec::new();
    let ghost mut perm: Seq<int> = Seq::empty();
    let ghost mut k: int = 0;
    while rest.len() > 0
        invariant
            0 <= k <= inp.len(),
            rest@ == inp.subrange(k, inp.len() as int),
            out@.len() == k,
            perm.len() == k,
            newest_first(out@),
            forall|i: int| 0 <= i < k ==> 0 <= #[trigger] perm[i] < k && out@[i] == inp[perm[i]],
            forall|i: int, j: int| 0 <= i < k && 0 <= j < k && i != j ==> #[trigger] perm[i] != #[trigger] perm[j],
            forall|i: int, j: int|
                0 <= i < j < k && (#[trigger] out@[i]).last_message == (#[trigger] out@[j]).last_message
                    ==> perm[i] < perm[j],
        decreases rest.len(),
    {
        let g = rest.remove(0);
        assert(g == inp[k]);
        let mut p: usize = 0;
        while p < out.len() && !more_recent(&g.last_message, &out[p].last_message)
            invariant
                p <= out@.len(),
                newest_first(out@),
                forall|j: int| 0 <= j < p ==> recency_le(g.last_message, #[trigger] out@[j].last_message),
            decreases out@.len() - p,
        {
            p = p + 1;
        }
        proof {
            // Every group from position p on is strictly older than g.
            assert forall|j: int| p <= j < out@.len() implies !recency_le(g.last_message, #[trigger] out@[j].last_message) by {
                assert(recency_le(out@[j].last_message, out@[p as int].last_message));
            }
        }
        let ghost old_out = out@;
        let ghost old_perm = perm;
        out.insert(p, g);
        proof {
            old_out.insert_ensures(p as int, g);
            old_perm.insert_ensures(p as int, k);
            perm = old_perm.insert(p as int, k);
            assert forall|i: int, j: int| 0 <= i < j < out@.len() implies recency_le(
                #[trigger] out@[j].last_message,
                #[trigger] out@[i].last_message,
            ) by {
                if j < p {
                } else if j == p {
                } else if i < p {
                    assert(out@[j] == old_out[j - 1]);
                } else if i == p {
                    assert(out@[j] == old_out[j - 1]);
                } else {
                    assert(out@[j] == old_out[j - 1]);
                    assert(out@[i] == old_out[i - 1]);
                }
            }
            assert forall|i: int| 0 <= i < k + 1 implies 0 <= #[trigger] perm[i] < k + 1 && out@[i] == inp[perm[i]] by {
                if i < p {
                } else if i == p {
                } else {
                    assert(perm[i] == old_perm[i - 1]);
                    assert(out@[i] == old_out[i - 1]);
                }
            }
            assert forall|i: int, j: int| 0 <= i < k + 1 && 0 <= j < k + 1 && i != j implies #[trigger] perm[i] != #[trigger] perm[j] by {
                let oi: int = if i < p { i } else { i - 1 };
                let oj: int = if j < p { j } else { j - 1 };
                if i != p && j != p {
                    assert(perm[i] == old_perm[oi]);
                    assert(perm[j] == old_perm[oj]);
                } else if i == p {
                    assert(perm[j] == old_perm[oj]);
                } else {
                    assert(perm[i] == old_perm[oi]);
                }
            }
            assert forall|i: int, j: int|
                0 <= i < j < k + 1 && (#[trigger] out@[i]).last_message == (#[trigger] out@[j]).last_message
                    implies perm[i] < perm[j] by {
                if j < p {
                } else if j == p {
                } else if i < p {
                    assert(out@[j] == old_out[j - 1]);
                    assert(perm[j] == old_perm[j - 1]);
                } else if i == p {
                    assert(out@[j] == old_out[j - 1]);
                } else {
                    assert(out@[j] == old_out[j - 1]);
                    assert(out@[i] == old_out[i - 1]);
                    assert(perm[j] == old_perm[j - 1]);
                    assert(perm[i] == old_perm[i - 1]);
                }
            }
            k = k + 1;
        }
    }
    proof {
        assert(stable_reorder(out@, inp, perm));
    }
    out
}

} // verus!
