//! Delivering a new message: in a one-to-one chat the other members are
//! checked in turn before the message is stored.

use vstd::prelude::*;

verus! {

/// Whether posting in a group with this chat flag first goes through the
/// group's members: only chats (flag 1) do.
pub fn is_chat(chat: Option<i8>) -> (r: bool)
    requires
        chat is Some,
    ensures
        r == (chat == Some(1i8)),
{
    match chat {
        Some(flag) => flag == 1,
        None => false,
    }
}

/// What the caller does next while delivering a message.
#[derive(Clone, Copy, Debug, PartialEq, Eq, Structural)]
pub enum DeliveryStep {
    /// Ask whether the sender has blocked the member at this position.
    CheckBlocked(usize),
    /// Mark every member of the group as present again.
    RejoinGroup,
    /// Store the message; delivery is over.
    AddMessage,
}

/// Where a delivery stands.
#[derive(Clone, Copy, Debug, PartialEq, Eq, Structural)]
pub enum DeliveryPhase {
    /// Looking for the next member to check.
    Scanning,
    /// Waiting for the answer about the member just before the cursor.
    Awaiting,
    /// The message has been handed over to be stored.
    Finished,
}

/// The delivery of one message from `sender` to a group with `members`.
pub struct Delivery {
    sender: String,
    members: Vec<String>,
    cursor: usize,
    phase: DeliveryPhase,
}

/// A delivery seen as values: the sender, the member ids, the position
/// from which members remain to be checked, and the phase.
pub struct DeliveryState {
    pub sender: Seq<char>,
    pub members: Seq<Seq<char>>,
    pub cursor: int,
    pub phase: DeliveryPhase,
}

/// The ids of `v`, each read as a character sequence.
pub open spec fn ids(v: Seq<String>) -> Seq<Seq<char>> {
    v.map_values(|s: String| s@)
}

impl View for Delivery {
    type V = DeliveryState;

    closed spec fn view(&self) -> DeliveryState {
        DeliveryState {
            sender: self.sender@,
            members: ids(self.members@),
            cursor: self.cursor as int,
            phase: self.phase,
        }
    }
}

/// The first position at or after `from` whose member is not the sender,
/// or the number of members when there is none.
pub open spec fn first_other(members: Seq<Seq<char>>, sender: Seq<char>, from: int) -> int
    decreases members.len() - from,
{
    if from >= members.len() {
        members.len() as int
    } else if members[from] != sender {
        from
    } else {
        first_other(members, sender, from + 1)
    }
}

/// The start of a delivery.
pub open spec fn initial(sender: Seq<char>, members: Seq<Seq<char>>) -> DeliveryState {
    DeliveryState { sender, members, cursor: 0, phase: DeliveryPhase::Scanning }
}

/// Looking for the next member to check: the first member from the cursor
/// on who is not the sender is checked; with none left, the message is stored.
pub open spec fn spec_next(s: DeliveryState) -> (DeliveryState, DeliveryStep) {
    let i: int = first_other(s.members, s.sender, s.cursor);
    if i < s.members.len() {
        (DeliveryState { cursor: i + 1, phase: DeliveryPhase::Awaiting, ..s }, DeliveryStep::CheckBlocked(i as usize))
    } else {
        (DeliveryState { phase: DeliveryPhase::Finished, ..s }, DeliveryStep::AddMessage)
    }
}

/// The answer about the member being checked: a blocked member ends the
/// delivery by storing the message; otherwise the group is brought back
/// and the scan goes on.
pub open spec fn spec_answer(s: DeliveryState, blocked: bool) -> (DeliveryState, DeliveryStep) {
    if blocked {
        (DeliveryState { phase: DeliveryPhase::Finished, ..s }, DeliveryStep::AddMessage)
    } else {
        (DeliveryState { phase: DeliveryPhase::Scanning, ..s }, DeliveryStep::RejoinGroup)
    }
}

/// The cursor never passes the end of the member list.
pub open spec fn delivery_wf(s: DeliveryState) -> bool {
    0 <= s.cursor <= s.members.len()
}


/// What delivering a message from `sender` does, member by member from
/// position `from`, when `blocked(i)` answers the check of member `i`: the
/// sender is skipped, every other member is checked in order, the group is
/// brought back after each member who is not blocked, the first blocked
/// member ends the round, and the message is stored once, last.
pub open spec fn delivery_plan(
    sender: Seq<char>,
    members: Seq<Seq<char>>,
    from: int,
    blocked: spec_fn(int) -> bool,
) -> Seq<DeliveryStep>
    decreases members.len() - from,
{
    if from >= members.len() {
        seq![DeliveryStep::AddMessage]
    } else if members[from] == sender {
        delivery_plan(sender, members, from + 1, blocked)
    } else if blocked(from) {
        seq![DeliveryStep::CheckBlocked(from as usize), DeliveryStep::AddMessage]
    } else {
        seq![DeliveryStep::CheckBlocked(from as usize), DeliveryStep::RejoinGroup] + delivery_plan(
            sender,
            members,
            from + 1,
            blocked,
        )
    }
}

/// How far a delivery is from its end.
pub open spec fn delivery_measure(s: DeliveryState) -> int {
    3 * (s.members.len() - s.cursor) + match s.phase {
        DeliveryPhase::Awaiting => 2int,
        DeliveryPhase::Scanning => 1int,
        DeliveryPhase::Finished => 0int,
    }
}

/// The steps a delivery takes from state `s` until it ends, when each
/// check of member `i` is answered by `blocked(i)`.
pub open spec fn delivery_run(s: DeliveryState, blocked: spec_fn(int) -> bool) -> Seq<DeliveryStep>
    decreases delivery_measure(s),
{
    if !delivery_wf(s) || (s.phase == DeliveryPhase::Awaiting && s.cursor == 0) {
        seq![]
    } else {
        match s.phase {
            DeliveryPhase::Finished => seq![],
            DeliveryPhase::Scanning => {
                let (t, step) = spec_next(s);
                proof { lemma_first_other_bounds(s.members, s.sender, s.cursor); }
                seq![step] + delivery_run(t, blocked)
            },
            DeliveryPhase::Awaiting => {
                let (t, step) = spec_answer(s, blocked(s.cursor - 1));
                seq![step] + delivery_run(t, blocked)
            },
        }
    }
}

/// The position found by `first_other` lies between `from` and the end,
/// and every member skipped on the way is the sender.
pub proof fn lemma_first_other_bounds(members: Seq<Seq<char>>, sender: Seq<char>, from: int)
    requires
        0 <= from <= members.len(),
    ensures
        from <= first_other(members, sender, from) <= members.len(),
        forall|j: int| from <= j < first_other(members, sender, from) ==> members[j] == sender,
        first_other(members, sender, from) < members.len() ==> members[first_other(members, sender, from)] != sender,
    decreases members.len() - from,
{
    if from < members.len() && members[from] == sender {
        lemma_first_other_bounds(members, sender, from + 1);
    }
}

/// Skipping the sender's own entries does not change the plan.
proof fn lemma_plan_skips_sender(
    sender: Seq<char>,
    members: Seq<Seq<char>>,
    from: int,
    blocked: spec_fn(int) -> bool,
)
    requires
        0 <= from <= members.len(),
    ensures
        delivery_plan(sender, members, from, blocked) == delivery_plan(
            sender,
            members,
            first_other(members, sender, from),
            blocked,
        ),
    decreases members.len() - from,
{
    if from < members.len() && members[from] == sender {
        lemma_plan_skips_sender(sender, members, from + 1, blocked);
    }
}

/// From any scanning state, the delivery takes exactly the planned steps.
proof fn lemma_run_from_scanning(s: DeliveryState, blocked: spec_fn(int) -> bool)
    requires
        delivery_wf(s),
        s.phase == DeliveryPhase::Scanning,
    ensures
        delivery_run(s, blocked) == delivery_plan(s.sender, s.members, s.cursor, blocked),
    decreases s.members.len() - s.cursor,
{
    lemma_first_other_bounds(s.members, s.sender, s.cursor);
    lemma_plan_skips_sender(s.sender, s.members, s.cursor, blocked);
    let i: int = first_other(s.members, s.sender, s.cursor);
    let (t, step) = spec_next(s);
    if i < s.members.len() {
        let (u, step2) = spec_answer(t, blocked(i));
        assert(delivery_run(t, blocked) == seq![step2] + delivery_run(u, blocked));
        if blocked(i) {
            assert(delivery_run(u, blocked) == Seq::<DeliveryStep>::empty());
            assert(delivery_run(s, blocked) =~= delivery_plan(s.sender, s.members, i, blocked));
        } else {
            lemma_run_from_scanning(u, blocked);
            assert(delivery_run(s, blocked) =~= delivery_plan(s.sender, s.members, i, blocked));
        }
    } else {
        assert(delivery_run(t, blocked) == Seq::<DeliveryStep>::empty());
        assert(delivery_run(s, blocked) =~= delivery_plan(s.sender, s.members, i, blocked));
    }
}

/// Delivering a message, started with `Delivery::new` and driven by
/// `Delivery::next` and `Delivery::answer`, checks every member other than
/// the sender in order, brings the group back after each member who is not
/// blocked, stops at the first blocked member, and stores the message
/// exactly once, as its last step, whatever the answers are.
pub proof fn delivery_follows_plan(sender: Seq<char>, members: Seq<Seq<char>>, blocked: spec_fn(int) -> bool)
    ensures
        delivery_run(initial(sender, members), blocked) == delivery_plan(sender, members, 0, blocked),
{
    lemma_run_from_scanning(initial(sender, members), blocked);
}

/// Posting in a group that is not a chat, or in a chat whose members could
/// not be loaded, stores the message at once: no member is checked and the
/// group is not brought back.
pub proof fn unchecked_post_stores_at_once(sender: Seq<char>, blocked: spec_fn(int) -> bool)
    ensures
        delivery_run(initial(sender, Seq::empty()), blocked) == seq![DeliveryStep::AddMessage],
{
    delivery_follows_plan(sender, Seq::empty(), blocked);
}

impl Delivery {
    #[verifier::type_invariant]
    closed spec fn inv(self) -> bool {
        self.cursor <= self.members.len()
    }

    /// Starts delivering a message from `sender` to a group with these
    /// member ids (empty when the members are not looked at).
    pub fn new(sender: &str, members: Vec<String>) -> (d: Delivery)
        ensures
            d@ == initial(sender@, ids(members@)),
    {
        Delivery { sender: sender.to_owned(), members, cursor: 0, phase: DeliveryPhase::Scanning }
    }

    /// Starts delivering a message from `sender` to a group with this chat
    /// flag: a chat (flag 1) goes through its members, when they could be
    /// loaded; any other group goes through no one.
    pub fn for_group(sender: &str, chat: Option<i8>, members: Option<Vec<String>>) -> (d: Delivery)
        requires
            chat is Some,
        ensures
            d@ == initial(
                sender@,
                if chat == Some(1i8) && members is Some { ids(members.unwrap()@) } else { Seq::empty() },
            ),
    {
        let chosen: Vec<String> = if is_chat(chat) {
            match members {
                Some(m) => m,
                None => Vec::new(),
            }
        } else {
            Vec::new()
        };
        proof {
            if !(chat == Some(1i8) && members is Some) {
                assert(ids(chosen@) =~= Seq::<Seq<char>>::empty());
            }
        }
        Delivery::new(sender, chosen)
    }

    /// The id of the member at position `i`.
    pub fn member(&self, i: usize) -> (id: &str)
        requires
            i < self@.members.len(),
        ensures
            id@ == self@.members[i as int],
    {
        self.members[i].as_str()
    }

    /// The next step while scanning for a member to check.
    pub fn next(&mut self) -> (step: DeliveryStep)
        requires
            old(self)@.phase == DeliveryPhase::Scanning,
        ensures
            (final(self)@, step) == spec_next(old(self)@),
            delivery_wf(final(self)@),
    {
        proof { use_type_invariant(&*self); }
        let ghost s = self@;
        let n: usize = self.members.len();
        let mut i: usize = self.cursor;
        while i < n && self.members[i] == self.sender
            invariant
                self@ == s,
                n == s.members.len(),
                s.cursor <= i <= n,
                first_other(s.members, s.sender, s.cursor) == first_other(s.members, s.sender, i as int),
            decreases n - i,
        {
            proof {
                assert(self.members@[i as int]@ == s.members[i as int]);
            }
            i = i + 1;
        }
        proof {
            if i < n {
                assert(self.members@[i as int]@ == s.members[i as int]);
            }
        }
        if i < n {
            self.cursor = i + 1;
            self.phase = DeliveryPhase::Awaiting;
            DeliveryStep::CheckBlocked(i)
        } else {
            self.phase = DeliveryPhase::Finished;
            DeliveryStep::AddMessage
        }
    }

    /// The step that follows the answer to a check: whether the sender has
    /// blocked the member checked last.
    pub fn answer(&mut self, blocked: bool) -> (step: DeliveryStep)
        requires
            old(self)@.phase == DeliveryPhase::Awaiting,
        ensures
            (final(self)@, step) == spec_answer(old(self)@, blocked),
            delivery_wf(final(self)@),
    {
        proof { use_type_invariant(&*self); }
        if blocked {
            self.phase = DeliveryPhase::Finished;
            DeliveryStep::AddMessage
        } else {
            self.phase = DeliveryPhase::Scanning;
            DeliveryStep::RejoinGroup
        }
    }
}

} // verus!
