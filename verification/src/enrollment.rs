//! Populating a new group: its creator joins first, then each invited user
//! who has not blocked the creator; the first failed write aborts.

use vstd::prelude::*;
use crate::delivery::ids;

verus! {

/// What the caller does next while populating a group.
#[derive(Clone, Copy, Debug, PartialEq, Eq, Structural)]
pub enum EnrollStep {
    /// Make the creator a member.
    AddCreator,
    /// Ask whether the invited user at this position has blocked the creator.
    CheckBlocked(usize),
    /// Make the invited user at this position a member.
    AddInvitee(usize),
    /// Every invitation is handled: load the present members and return the group.
    LoadMembers,
    /// A membership write failed: return its error.
    Abort,
}

/// Where the population of a group stands.
#[derive(Clone, Copy, Debug, PartialEq, Eq, Structural)]
pub enum EnrollPhase {
    /// Waiting for the result of a membership write: the creator's while
    /// the cursor is 0, otherwise that of the invitee before the cursor.
    AwaitAdd,
    /// Waiting for the answer about the invitee before the cursor.
    AwaitCheck,
    /// All invitations handled.
    Done,
    /// Stopped by a failed write.
    Failed,
}

/// The population of a group by `creator` with `invitees`.
pub struct Enrollment {
    creator: String,
    invitees: Vec<String>,
    cursor: usize,
    phase: EnrollPhase,
}

/// A population seen as values.
pub struct EnrollState {
    pub creator: Seq<char>,
    pub invitees: Seq<Seq<char>>,
    pub cursor: int,
    pub phase: EnrollPhase,
}

impl View for Enrollment {
    type V = EnrollState;

    closed spec fn view(&self) -> EnrollState {
        EnrollState {
            creator: self.creator@,
            invitees: ids(self.invitees@),
            cursor: self.cursor as int,
            phase: self.phase,
        }
    }
}

/// The cursor never passes the end of the invitation list.
pub open spec fn enroll_wf(s: EnrollState) -> bool {
    0 <= s.cursor <= s.invitees.len()
}

/// Moving on to the next invitee, or to loading the members when none is left.
pub open spec fn spec_scan(s: EnrollState) -> (EnrollState, EnrollStep) {
    if s.cursor < s.invitees.len() {
        (EnrollState { cursor: s.cursor + 1, phase: EnrollPhase::AwaitCheck, ..s }, EnrollStep::CheckBlocked(s.cursor as usize))
    } else {
        (EnrollState { phase: EnrollPhase::Done, ..s }, EnrollStep::LoadMembers)
    }
}

/// The result of a membership write: a failure aborts, a success moves on.
pub open spec fn spec_added(s: EnrollState, ok: bool) -> (EnrollState, EnrollStep) {
    if ok {
        spec_scan(s)
    } else {
        (EnrollState { phase: EnrollPhase::Failed, ..s }, EnrollStep::Abort)
    }
}

/// The answer about an invitee: one who blocked the creator is skipped,
/// any other is added.
pub open spec fn spec_checked(s: EnrollState, blocked: bool) -> (EnrollState, EnrollStep) {
    if blocked {
        spec_scan(s)
    } else {
        (EnrollState { phase: EnrollPhase::AwaitAdd, ..s }, EnrollStep::AddInvitee((s.cursor - 1) as usize))
    }
}

/// What populating a group does from invitee `from` on, with `n` invitees,
/// when `blocked(i)` answers the check of invitee `i` and `added(i)` tells
/// whether adding invitee `i` succeeded.
pub open spec fn enroll_plan(n: int, from: int, blocked: spec_fn(int) -> bool, added: spec_fn(int) -> bool) -> Seq<EnrollStep>
    decreases n - from,
{
    if from >= n {
        seq![EnrollStep::LoadMembers]
    } else if blocked(from) {
        seq![EnrollStep::CheckBlocked(from as usize)] + enroll_plan(n, from + 1, blocked, added)
    } else if added(from) {
        seq![EnrollStep::CheckBlocked(from as usize), EnrollStep::AddInvitee(from as usize)] + enroll_plan(
            n,
            from + 1,
            blocked,
            added,
        )
    } else {
        seq![EnrollStep::CheckBlocked(from as usize), EnrollStep::AddInvitee(from as usize), EnrollStep::Abort]
    }
}

/// How far a population is from its end.
pub open spec fn enroll_measure(s: EnrollState) -> int {
    3 * (s.invitees.len() - s.cursor) + match s.phase {
        EnrollPhase::AwaitCheck => 2int,
        EnrollPhase::AwaitAdd => 1int,
        _ => 0int,
    }
}

/// The steps a population takes from state `s` until it ends, when adding
/// the creator gives `creator_added`, checking invitee `i` gives
/// `blocked(i)` and adding invitee `i` gives `added(i)`.
pub open spec fn enroll_run(
    s: EnrollState,
    creator_added: bool,
    blocked: spec_fn(int) -> bool,
    added: spec_fn(int) -> bool,
) -> Seq<EnrollStep>
    decreases enroll_measure(s),
{
    if !enroll_wf(s) || (s.phase == EnrollPhase::AwaitCheck && s.cursor == 0) {
        seq![]
    } else {
        match s.phase {
            EnrollPhase::AwaitAdd => {
                let ok = if s.cursor == 0 { creator_added } else { added(s.cursor - 1) };
                let (t, step) = spec_added(s, ok);
                seq![step] + enroll_run(t, creator_added, blocked, added)
            },
            EnrollPhase::AwaitCheck => {
                let (t, step) = spec_checked(s, blocked(s.cursor - 1));
                seq![step] + enroll_run(t, creator_added, blocked, added)
            },
            _ => seq![],
        }
    }
}

/// The start of a population: the creator is being added.
pub open spec fn enroll_initial(creator: Seq<char>, invitees: Seq<Seq<char>>) -> EnrollState {
    EnrollState { creator, invitees, cursor: 0, phase: EnrollPhase::AwaitAdd }
}

/// After a successful membership write, the population takes the planned
/// steps from the cursor on.
proof fn lemma_run_after_add(
    s: EnrollState,
    creator_added: bool,
    blocked: spec_fn(int) -> bool,
    added: spec_fn(int) -> bool,
)
    requires
        enroll_wf(s),
        s.phase == EnrollPhase::AwaitAdd,
        if s.cursor == 0 { creator_added } else { added(s.cursor - 1) },
    ensures
        enroll_run(s, creator_added, blocked, added) == enroll_plan(s.invitees.len() as int, s.cursor, blocked, added),
    decreases s.invitees.len() - s.cursor, 0int,
{
    let n: int = s.invitees.len() as int;
    let (t, step) = spec_added(s, true);
    if s.cursor < n {
        lemma_run_after_check(t, creator_added, blocked, added);
        assert(enroll_run(s, creator_added, blocked, added) =~= enroll_plan(n, s.cursor, blocked, added));
    } else {
        assert(enroll_run(t, creator_added, blocked, added) == Seq::<EnrollStep>::empty());
        assert(enroll_run(s, creator_added, blocked, added) =~= enroll_plan(n, s.cursor, blocked, added));
    }
}

/// From a state waiting on the answer about invitee `cursor - 1`, the
/// population takes the rest of the planned steps for that invitee on.
proof fn lemma_run_after_check(
    s: EnrollState,
    creator_added: bool,
    blocked: spec_fn(int) -> bool,
    added: spec_fn(int) -> bool,
)
    requires
        enroll_wf(s),
        s.phase == EnrollPhase::AwaitCheck,
        s.cursor >= 1,
    ensures
        enroll_run(s, creator_added, blocked, added) == enroll_plan(
            s.invitees.len() as int,
            s.cursor - 1,
            blocked,
            added,
        ).drop_first(),
    decreases s.invitees.len() - s.cursor, 1int,
{
    let n: int = s.invitees.len() as int;
    let c: int = s.cursor - 1;
    let b = blocked(c);
    let (t, step) = spec_checked(s, b);
    if b {
        // The invitee is skipped: the scan moves on to the next one.
        if s.cursor < n {
            lemma_run_after_check(t, creator_added, blocked, added);
            assert(enroll_run(s, creator_added, blocked, added) =~= enroll_plan(n, c, blocked, added).drop_first());
        } else {
            assert(enroll_run(t, creator_added, blocked, added) == Seq::<EnrollStep>::empty());
            assert(enroll_plan(n, n, blocked, added) == seq![EnrollStep::LoadMembers]);
            assert(enroll_run(s, creator_added, blocked, added) =~= enroll_plan(n, c, blocked, added).drop_first());
        }
    } else {
        let ok = added(c);
        if ok {
            lemma_run_after_add(t, creator_added, blocked, added);
            assert(enroll_run(s, creator_added, blocked, added) =~= enroll_plan(n, c, blocked, added).drop_first());
        } else {
            let (u, step2) = spec_added(t, ok);
            assert(enroll_run(u, creator_added, blocked, added) == Seq::<EnrollStep>::empty());
            assert(enroll_run(t, creator_added, blocked, added) =~= seq![EnrollStep::Abort]);
            assert(enroll_run(s, creator_added, blocked, added) =~= enroll_plan(n, c, blocked, added).drop_first());
        }
    }
}

/// Populating a group, started with `Enrollment::new` (whose first step
/// adds the creator) and driven by `Enrollment::added` and
/// `Enrollment::checked`, aborts at once when adding the creator fails.
/// Otherwise it checks every invitee in order, adds exactly those who
/// have not blocked the creator, aborts at the first failed addition, and
/// ends by loading the members when all went through.
pub proof fn enrollment_follows_plan(
    creator: Seq<char>,
    invitees: Seq<Seq<char>>,
    creator_added: bool,
    blocked: spec_fn(int) -> bool,
    added: spec_fn(int) -> bool,
)
    ensures
        enroll_run(enroll_initial(creator, invitees), creator_added, blocked, added) == if creator_added {
            enroll_plan(invitees.len() as int, 0, blocked, added)
        } else {
            seq![EnrollStep::Abort]
        },
{
    let s = enroll_initial(creator, invitees);
    if creator_added {
        lemma_run_after_add(s, creator_added, blocked, added);
    } else {
        let (t, step) = spec_added(s, false);
        assert(enroll_run(t, creator_added, blocked, added) == Seq::<EnrollStep>::empty());
    }
}

impl Enrollment {
    #[verifier::type_invariant]
    closed spec fn inv(self) -> bool {
        self.cursor <= self.invitees.len()
    }

    /// Starts populating a group created by `creator` with these invited
    /// user ids; the first step is to add the creator.
    pub fn new(creator: &str, invitees: Vec<String>) -> (res: (Enrollment, EnrollStep))
        ensures
            res.0@ == enroll_initial(creator@, ids(invitees@)),
            res.1 == EnrollStep::AddCreator,
    {
        (Enrollment { creator: creator.to_owned(), invitees, cursor: 0, phase: EnrollPhase::AwaitAdd }, EnrollStep::AddCreator)
    }

    /// The id of the invited user at position `i`.
    pub fn invitee(&self, i: usize) -> (id: &str)
        requires
            i < self@.invitees.len(),
        ensures
            id@ == self@.invitees[i as int],
    {
        self.invitees[i].as_str()
    }

    /// The creator's id.
    pub fn creator(&self) -> (id: &str)
        ensures
            id@ == self@.creator,
    {
        self.creator.as_str()
    }

    fn scan(&mut self) -> (step: EnrollStep)
        requires
            enroll_wf(old(self)@),
        ensures
            (final(self)@, step) == spec_scan(old(self)@),
            enroll_wf(final(self)@),
    {
        if self.cursor < self.invitees.len() {
            let i: usize = self.cursor;
            self.cursor = i + 1;
            self.phase = EnrollPhase::AwaitCheck;
            EnrollStep::CheckBlocked(i)
        } else {
            self.phase = EnrollPhase::Done;
            EnrollStep::LoadMembers
        }
    }

    /// The step that follows the result of a membership write.
    pub fn added(&mut self, ok: bool) -> (step: EnrollStep)
        requires
            old(self)@.phase == EnrollPhase::AwaitAdd,
        ensures
            (final(self)@, step) == spec_added(old(self)@, ok),
            enroll_wf(final(self)@),
    {
        proof { use_type_invariant(&*self); }
        if ok {
            self.scan()
        } else {
            self.phase = EnrollPhase::Failed;
            EnrollStep::Abort
        }
    }

    /// The step that follows the answer to a check: whether the invitee
    /// checked last has blocked the creator.
    pub fn checked(&mut self, blocked: bool) -> (step: EnrollStep)
        requires
            old(self)@.phase == EnrollPhase::AwaitCheck,
            old(self)@.cursor >= 1,
        ensures
            (final(self)@, step) == spec_checked(old(self)@, blocked),
            enroll_wf(final(self)@),
    {
        proof { use_type_invariant(&*self); }
        if blocked {
            self.scan()
        } else {
            self.phase = EnrollPhase::AwaitAdd;
            EnrollStep::AddInvitee(self.cursor - 1)
        }
    }
}

} // verus!
