//! Writing a flag set back to the configuration store, one operation at a time.
//!
//! An [`ApplySession`] decides which store operation comes next; the caller
//! performs it and reports its [`OpOutcome`]. The session writes each folder's
//! policy in folder order, keeps the companion key in step with the companion
//! folder, stops at the first denied policy write and collects other failures.
//!
//! [`StoreModel`] describes the part of the store that the session touches, and
//! [`run`] what a whole session does to it; the proof functions at the end state
//! what holds of every such run.
use vstd::prelude::*;

use crate::flags::{shows_spec, FlagSet};
use crate::folders::{COMPANION_ITEM, FOLDER_COUNT, HIDE_TEXT, SHOW_TEXT};

verus! {

/// One store operation that the caller performs for the session.
#[derive(Clone, Copy, PartialEq, Eq, Structural, Debug)]
pub enum StoreOp {
    /// Write the policy value of folder `item` (`Show` when `shown`, else
    /// `Hide`), creating the folder's policy path when it is absent.
    SetPolicy { item: usize, shown: bool },
    /// Create the companion path; an existing one counts as done.
    CreateCompanion,
    /// Delete the companion path; an absent one counts as done.
    DeleteCompanion,
}

/// How a store operation went.
#[derive(Clone, Copy, PartialEq, Eq, Structural, Debug)]
pub enum OpOutcome {
    Done,
    PermissionDenied,
    Failed,
}

/// Which part of a folder's update failed.
#[derive(Clone, Copy, PartialEq, Eq, Structural, Debug)]
pub enum FailedStep {
    /// Writing the folder's policy value.
    Policy,
    /// Creating or deleting the companion path.
    Companion,
}

/// A folder whose update failed, and where.
#[derive(Clone, Copy, PartialEq, Eq, Structural, Debug)]
pub struct ItemFailure {
    pub item: usize,
    pub step: FailedStep,
}

/// Why an apply did not fully succeed.
#[derive(PartialEq, Eq, Debug)]
pub enum ApplyError {
    /// The policy write of folder `item` was denied; no later folder was touched.
    PermissionDenied { item: usize },
    /// Every folder was processed, and these updates failed.
    Partial { failures: Vec<ItemFailure> },
}

/// What the session does next for the folder at its position.
#[derive(Clone, Copy, PartialEq, Eq, Structural, Debug)]
pub enum Stage {
    /// Write the folder's policy value.
    Policy,
    /// Update the companion path (the policy write has succeeded).
    Companion,
}

/// The stored text for a flag.
pub open spec fn policy_text_spec(shown: bool) -> Seq<char> {
    if shown {
        SHOW_TEXT@
    } else {
        HIDE_TEXT@
    }
}

/// The stored text for a flag.
pub fn policy_text(shown: bool) -> (r: String)
    ensures
        r@ == policy_text_spec(shown),
{
    if shown {
        SHOW_TEXT.to_owned()
    } else {
        HIDE_TEXT.to_owned()
    }
}

/// Reading back a written policy value gives the flag it was written for.
pub proof fn lemma_policy_text_shows(shown: bool)
    ensures
        shows_spec(Some(policy_text_spec(shown))) == shown,
{
    reveal_strlit("Show");
    reveal_strlit("Hide");
    assert(SHOW_TEXT@[0] == 'S');
    assert(HIDE_TEXT@[0] == 'H');
}

/// The managed part of the store: the policy value of each folder (`None`
/// when it is absent or not readable as text) and whether the companion path
/// exists.
pub struct StoreModel {
    pub policy: Seq<Option<Seq<char>>>,
    pub companion: bool,
}

/// The store after `op` ended with `outcome`: a completed operation takes
/// effect, and a failed one leaves the store as it was.
pub open spec fn perform(s: StoreModel, op: StoreOp, outcome: OpOutcome) -> StoreModel {
    if outcome != OpOutcome::Done {
        s
    } else {
        match op {
            StoreOp::SetPolicy { item, shown } => StoreModel {
                policy: s.policy.update(item as int, Some(policy_text_spec(shown))),
                companion: s.companion,
            },
            StoreOp::CreateCompanion => StoreModel { policy: s.policy, companion: true },
            StoreOp::DeleteCompanion => StoreModel { policy: s.policy, companion: false },
        }
    }
}

/// Abstract state of an apply session.
pub struct ApplyState {
    /// The flag set being written.
    pub flags: Seq<bool>,
    /// The folder being processed; `FOLDER_COUNT` once all are.
    pub pos: usize,
    pub stage: Stage,
    /// Failed updates so far, in order.
    pub failures: Seq<ItemFailure>,
    /// The folder whose policy write was denied, which ends the session.
    pub denied: Option<usize>,
}

pub open spec fn start_spec(flags: Seq<bool>) -> ApplyState {
    ApplyState { flags, pos: 0, stage: Stage::Policy, failures: Seq::empty(), denied: None }
}

pub open spec fn state_wf(st: ApplyState) -> bool {
    &&& st.flags.len() == FOLDER_COUNT
    &&& st.pos <= FOLDER_COUNT
    &&& st.stage == Stage::Companion ==> st.pos == COMPANION_ITEM
    &&& st.denied matches Some(k) ==> k == st.pos && st.stage == Stage::Policy && k < FOLDER_COUNT
}

pub open spec fn finished(st: ApplyState) -> bool {
    st.denied is Some || st.pos >= FOLDER_COUNT
}

/// The operation that an unfinished session asks for.
pub open spec fn op_spec(st: ApplyState) -> StoreOp {
    if st.stage == Stage::Policy {
        StoreOp::SetPolicy { item: st.pos, shown: st.flags[st.pos as int] }
    } else if st.flags[st.pos as int] {
        StoreOp::CreateCompanion
    } else {
        StoreOp::DeleteCompanion
    }
}

pub open spec fn next_op_spec(st: ApplyState) -> Option<StoreOp> {
    if finished(st) {
        None
    } else {
        Some(op_spec(st))
    }
}

/// The session after the operation it asked for ended with `o`.
pub open spec fn step_spec(st: ApplyState, o: OpOutcome) -> ApplyState {
    let next = (st.pos + 1) as usize;
    if st.stage == Stage::Policy {
        if o == OpOutcome::Done {
            if st.pos == COMPANION_ITEM {
                ApplyState { stage: Stage::Companion, ..st }
            } else {
                ApplyState { pos: next, ..st }
            }
        } else if o == OpOutcome::PermissionDenied {
            ApplyState { denied: Some(st.pos), ..st }
        } else {
            ApplyState {
                pos: next,
                failures: st.failures.push(ItemFailure { item: st.pos, step: FailedStep::Policy }),
                ..st
            }
        }
    } else if o == OpOutcome::Done {
        ApplyState { pos: next, stage: Stage::Policy, ..st }
    } else {
        ApplyState {
            pos: next,
            stage: Stage::Policy,
            failures: st.failures.push(ItemFailure { item: st.pos, step: FailedStep::Companion }),
            ..st
        }
    }
}

/// A whole session that starts in `st` on store `s`, where the operations it
/// asks for end with `outcomes` in turn: the final session and store.
pub open spec fn run(st: ApplyState, s: StoreModel, outcomes: Seq<OpOutcome>) -> (ApplyState, StoreModel)
    decreases outcomes.len(),
{
    if finished(st) || outcomes.len() == 0 {
        (st, s)
    } else {
        run(step_spec(st, outcomes[0]), perform(s, op_spec(st), outcomes[0]), outcomes.drop_first())
    }
}

/// The session ended with every update done.
pub open spec fn succeeded(st: ApplyState) -> bool {
    st.denied is None && st.failures.len() == 0
}

/// The managed store as a successful apply of `flags` leaves it.
pub open spec fn applied(flags: Seq<bool>) -> StoreModel {
    StoreModel {
        policy: Seq::new(FOLDER_COUNT as nat, |i: int| Some(policy_text_spec(flags[i]))),
        companion: flags[COMPANION_ITEM as int],
    }
}

/// The session's result, as the caller sees it.
pub open spec fn reports(r: Result<(), ApplyError>, st: ApplyState) -> bool {
    match r {
        Ok(()) => succeeded(st),
        Err(ApplyError::PermissionDenied { item }) => st.denied == Some(item),
        Err(ApplyError::Partial { failures }) => st.denied is None && failures@ == st.failures
            && st.failures.len() > 0,
    }
}

/// Step-by-step writer of one flag set.
pub struct ApplySession {
    flags: Vec<bool>,
    pos: usize,
    stage: Stage,
    failures: Vec<ItemFailure>,
    denied: Option<usize>,
}

impl View for ApplySession {
    type V = ApplyState;

    closed spec fn view(&self) -> ApplyState {
        ApplyState {
            flags: self.flags@,
            pos: self.pos,
            stage: self.stage,
            failures: self.failures@,
            denied: self.denied,
        }
    }
}

impl ApplySession {
    /// A session that will write `flags`.
    pub fn start(flags: &FlagSet) -> (r: ApplySession)
        ensures
            r@ == start_spec(flags@),
            state_wf(r@),
    {
        ApplySession { flags: flags.to_vec(), pos: 0, stage: Stage::Policy, failures: Vec::new(), denied: None }
    }

    /// The operation to perform next, or `None` once the session is over.
    pub fn next_op(&self) -> (r: Option<StoreOp>)
        requires
            state_wf(self@),
        ensures
            r == next_op_spec(self@),
    {
        if self.denied.is_some() || self.pos >= FOLDER_COUNT {
            None
        } else if self.stage == Stage::Policy {
            Some(StoreOp::SetPolicy { item: self.pos, shown: self.flags[self.pos] })
        } else if self.flags[self.pos] {
            Some(StoreOp::CreateCompanion)
        } else {
            Some(StoreOp::DeleteCompanion)
        }
    }

    /// Records how the operation from `next_op` went.
    pub fn record(&mut self, outcome: OpOutcome)
        requires
            state_wf(old(self)@),
            !finished(old(self)@),
        ensures
            final(self)@ == step_spec(old(self)@, outcome),
            state_wf(final(self)@),
    {
        if self.stage == Stage::Policy {
            if outcome == OpOutcome::Done {
                if self.pos == COMPANION_ITEM {
                    self.stage = Stage::Companion;
                } else {
                    self.pos = self.pos + 1;
                }
            } else if outcome == OpOutcome::PermissionDenied {
                self.denied = Some(self.pos);
            } else {
                self.failures.push(ItemFailure { item: self.pos, step: FailedStep::Policy });
                self.pos = self.pos + 1;
            }
        } else {
            if outcome != OpOutcome::Done {
                self.failures.push(ItemFailure { item: self.pos, step: FailedStep::Companion });
            }
            self.pos = self.pos + 1;
            self.stage = Stage::Policy;
        }
    }

    /// Whether the session is over.
    pub fn is_finished(&self) -> (r: bool)
        ensures
            r == finished(self@),
    {
        self.denied.is_some() || self.pos >= FOLDER_COUNT
    }

    /// The result of a finished session.
    pub fn result(&self) -> (r: Result<(), ApplyError>)
        requires
            state_wf(self@),
            finished(self@),
        ensures
            reports(r, self@),
    {
        match self.denied {
            Some(item) => Err(ApplyError::PermissionDenied { item }),
            None => {
                if self.failures.len() == 0 {
                    Ok(())
                } else {
                    Err(ApplyError::Partial { failures: self.failures.clone() })
                }
            },
        }
    }
}

} // verus!
