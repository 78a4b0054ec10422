//! What every apply session does to the store, proved over [`run`].
use vstd::prelude::*;

use crate::apply::{
    applied, finished, lemma_policy_text_shows, op_spec, perform, policy_text_spec, run, start_spec,
    state_wf, step_spec, succeeded, ApplyState, FailedStep, ItemFailure, OpOutcome, Stage, StoreModel,
};
use crate::flags::load_spec;
use crate::folders::{COMPANION_ITEM, FOLDER_COUNT};

verus! {

pub open spec fn policy_failed(failures: Seq<ItemFailure>, i: int) -> bool {
    failures.contains(ItemFailure { item: i as usize, step: FailedStep::Policy })
}

pub open spec fn companion_failed(failures: Seq<ItemFailure>) -> bool {
    failures.contains(ItemFailure { item: COMPANION_ITEM, step: FailedStep::Companion })
}

/// Whether the folder at `i` has had its policy write attempted in `st`.
pub open spec fn written(st: ApplyState, i: int) -> bool {
    i < st.pos || (i == st.pos && st.stage == Stage::Companion)
}

/// How the store `s` relates to the store `s0` at the start of a session
/// that is in state `st`.
pub open spec fn progress(st: ApplyState, s0: StoreModel, s: StoreModel) -> bool {
    &&& state_wf(st)
    &&& s0.policy.len() == FOLDER_COUNT
    &&& s.policy.len() == FOLDER_COUNT
    &&& forall|j: int| 0 <= j < st.failures.len() ==> (#[trigger] st.failures[j]).item < st.pos
    &&& forall|i: int| 0 <= i < FOLDER_COUNT ==> #[trigger] s.policy[i] == if !written(st, i) {
        s0.policy[i]
    } else if policy_failed(st.failures, i) {
        s0.policy[i]
    } else {
        Some(policy_text_spec(st.flags[i]))
    }
    &&& s.companion == if st.pos > COMPANION_ITEM && !policy_failed(st.failures, COMPANION_ITEM as int)
        && !companion_failed(st.failures) {
        st.flags[COMPANION_ITEM as int]
    } else {
        s0.companion
    }
}

proof fn lemma_push_contains(s: Seq<ItemFailure>, x: ItemFailure, y: ItemFailure)
    ensures
        s.push(x).contains(y) == (s.contains(y) || x == y),
{
    if s.contains(y) {
        let j = choose|j: int| 0 <= j < s.len() && s[j] == y;
        assert(s.push(x)[j] == y);
    }
    if x == y {
        assert(s.push(x)[s.len() as int] == y);
    }
    if s.push(x).contains(y) {
        let j = choose|j: int| 0 <= j < s.push(x).len() && s.push(x)[j] == y;
        if j < s.len() {
            assert(s[j] == y);
        }
    }
}

proof fn lemma_step(st: ApplyState, s0: StoreModel, s: StoreModel, o: OpOutcome)
    requires
        progress(st, s0, s),
        !finished(st),
    ensures
        progress(step_spec(st, o), s0, perform(s, op_spec(st), o)),
{
    let st2 = step_spec(st, o);
    let s2 = perform(s, op_spec(st), o);
    let pf = ItemFailure { item: st.pos, step: FailedStep::Policy };
    let cf = ItemFailure { item: st.pos, step: FailedStep::Companion };
    assert(!st.failures.contains(pf));
    assert(!st.failures.contains(cf));
    assert forall|i: int| 0 <= i < FOLDER_COUNT implies policy_failed(st2.failures, i)
        == (policy_failed(st.failures, i) || (st2.failures == st.failures.push(pf) && i == st.pos)) by {
        if st2.failures == st.failures.push(pf) {
            lemma_push_contains(st.failures, pf, ItemFailure { item: i as usize, step: FailedStep::Policy });
        }
        if st2.failures == st.failures.push(cf) {
            lemma_push_contains(st.failures, cf, ItemFailure { item: i as usize, step: FailedStep::Policy });
        }
    }
    if st2.failures == st.failures.push(cf) {
        lemma_push_contains(st.failures, cf, ItemFailure { item: COMPANION_ITEM, step: FailedStep::Companion });
    }
    if st2.failures == st.failures.push(pf) {
        lemma_push_contains(st.failures, pf, ItemFailure { item: COMPANION_ITEM, step: FailedStep::Companion });
    }
    assert forall|j: int| 0 <= j < st2.failures.len() implies (#[trigger] st2.failures[j]).item < st2.pos by {
        if j < st.failures.len() {
            assert(st2.failures[j] == st.failures[j]);
        }
    }
    assert forall|i: int| 0 <= i < FOLDER_COUNT implies #[trigger] s2.policy[i] == if !written(st2, i) {
        s0.policy[i]
    } else if policy_failed(st2.failures, i) {
        s0.policy[i]
    } else {
        Some(policy_text_spec(st2.flags[i]))
    } by {
        assert(s.policy[i] == s.policy[i]);
    }
}

proof fn lemma_run(st: ApplyState, s0: StoreModel, s: StoreModel, outcomes: Seq<OpOutcome>)
    requires
        progress(st, s0, s),
    ensures
        progress(run(st, s, outcomes).0, s0, run(st, s, outcomes).1),
    decreases outcomes.len(),
{
    if !finished(st) && outcomes.len() > 0 {
        lemma_step(st, s0, s, outcomes[0]);
        lemma_run(step_spec(st, outcomes[0]), s0, perform(s, op_spec(st), outcomes[0]), outcomes.drop_first());
    }
}

proof fn lemma_run_from_start(flags: Seq<bool>, s: StoreModel, outcomes: Seq<OpOutcome>)
    requires
        flags.len() == FOLDER_COUNT,
        s.policy.len() == FOLDER_COUNT,
    ensures
        progress(run(start_spec(flags), s, outcomes).0, s, run(start_spec(flags), s, outcomes).1),
        run(start_spec(flags), s, outcomes).0.flags == flags,
{
    lemma_run(start_spec(flags), s, s, outcomes);
    lemma_run_flags(start_spec(flags), s, outcomes);
}

proof fn lemma_run_flags(st: ApplyState, s: StoreModel, outcomes: Seq<OpOutcome>)
    ensures
        run(st, s, outcomes).0.flags == st.flags,
    decreases outcomes.len(),
{
    if !finished(st) && outcomes.len() > 0 {
        lemma_run_flags(step_spec(st, outcomes[0]), perform(s, op_spec(st), outcomes[0]), outcomes.drop_first());
    }
}

/// A session that ends with every update done leaves the managed store
/// holding exactly the written flag set, whatever it held before.
pub proof fn lemma_success_store(flags: Seq<bool>, s: StoreModel, outcomes: Seq<OpOutcome>)
    requires
        flags.len() == FOLDER_COUNT,
        s.policy.len() == FOLDER_COUNT,
        finished(run(start_spec(flags), s, outcomes).0),
        succeeded(run(start_spec(flags), s, outcomes).0),
    ensures
        run(start_spec(flags), s, outcomes).1 == applied(flags),
{
    lemma_run_from_start(flags, s, outcomes);
    let st = run(start_spec(flags), s, outcomes).0;
    let s2 = run(start_spec(flags), s, outcomes).1;
    assert forall|i: int| 0 <= i < FOLDER_COUNT implies !policy_failed(st.failures, i) by {}
    assert(!companion_failed(st.failures));
    assert(s2.policy =~= applied(flags).policy);
}

/// Round trip: after a session that ends with every update done, loading the
/// store gives back the flag set that was written.
pub proof fn lemma_apply_then_load(flags: Seq<bool>, s: StoreModel, outcomes: Seq<OpOutcome>)
    requires
        flags.len() == FOLDER_COUNT,
        s.policy.len() == FOLDER_COUNT,
        finished(run(start_spec(flags), s, outcomes).0),
        succeeded(run(start_spec(flags), s, outcomes).0),
    ensures
        load_spec(run(start_spec(flags), s, outcomes).1.policy) == flags,
{
    lemma_success_store(flags, s, outcomes);
    let s2 = run(start_spec(flags), s, outcomes).1;
    assert forall|i: int| 0 <= i < FOLDER_COUNT implies load_spec(s2.policy)[i] == flags[i] by {
        lemma_policy_text_shows(flags[i]);
    }
    assert(load_spec(s2.policy) =~= flags);
}

/// After a session that ends with every update done, the companion path
/// exists exactly when the companion folder is shown.
pub proof fn lemma_companion_follows_flag(flags: Seq<bool>, s: StoreModel, outcomes: Seq<OpOutcome>)
    requires
        flags.len() == FOLDER_COUNT,
        s.policy.len() == FOLDER_COUNT,
        finished(run(start_spec(flags), s, outcomes).0),
        succeeded(run(start_spec(flags), s, outcomes).0),
    ensures
        run(start_spec(flags), s, outcomes).1.companion == flags[COMPANION_ITEM as int],
{
    lemma_success_store(flags, s, outcomes);
}

/// Applying the same flag set a second time, with every update done both
/// times, leaves the store as the first apply left it.
pub proof fn lemma_apply_twice(
    flags: Seq<bool>,
    s: StoreModel,
    first: Seq<OpOutcome>,
    second: Seq<OpOutcome>,
)
    requires
        flags.len() == FOLDER_COUNT,
        s.policy.len() == FOLDER_COUNT,
        finished(run(start_spec(flags), s, first).0),
        succeeded(run(start_spec(flags), s, first).0),
        finished(run(start_spec(flags), run(start_spec(flags), s, first).1, second).0),
        succeeded(run(start_spec(flags), run(start_spec(flags), s, first).1, second).0),
    ensures
        run(start_spec(flags), run(start_spec(flags), s, first).1, second).1
            == run(start_spec(flags), s, first).1,
{
    lemma_success_store(flags, s, first);
    lemma_success_store(flags, run(start_spec(flags), s, first).1, second);
}

/// A session that was never denied processes every folder: a folder whose
/// policy write failed is reported and loads as before, any other folder
/// loads as its written flag.
pub proof fn lemma_partial_failure(flags: Seq<bool>, s: StoreModel, outcomes: Seq<OpOutcome>)
    requires
        flags.len() == FOLDER_COUNT,
        s.policy.len() == FOLDER_COUNT,
        finished(run(start_spec(flags), s, outcomes).0),
        run(start_spec(flags), s, outcomes).0.denied is None,
    ensures
        forall|i: int| 0 <= i < FOLDER_COUNT ==> #[trigger] load_spec(run(start_spec(flags), s, outcomes).1.policy)[i]
            == if policy_failed(run(start_spec(flags), s, outcomes).0.failures, i) {
                load_spec(s.policy)[i]
            } else {
                flags[i]
            },
{
    lemma_run_from_start(flags, s, outcomes);
    let st = run(start_spec(flags), s, outcomes).0;
    let s2 = run(start_spec(flags), s, outcomes).1;
    assert forall|i: int| 0 <= i < FOLDER_COUNT implies #[trigger] load_spec(s2.policy)[i]
        == if policy_failed(st.failures, i) { load_spec(s.policy)[i] } else { flags[i] } by {
        lemma_policy_text_shows(flags[i]);
        assert(written(st, i));
    }
}

/// A session that ends on a denied policy write leaves that folder and every
/// later one as it was; when the denied folder is the first, the store is
/// unchanged.
pub proof fn lemma_denied_stops(flags: Seq<bool>, s: StoreModel, outcomes: Seq<OpOutcome>)
    requires
        flags.len() == FOLDER_COUNT,
        s.policy.len() == FOLDER_COUNT,
        run(start_spec(flags), s, outcomes).0.denied is Some,
    ensures
        ({
            let k = run(start_spec(flags), s, outcomes).0.denied->0 as int;
            let s2 = run(start_spec(flags), s, outcomes).1;
            &&& forall|i: int| k <= i < FOLDER_COUNT ==> #[trigger] s2.policy[i] == s.policy[i]
            &&& k == COMPANION_ITEM ==> s2 == s
        }),
{
    lemma_run_from_start(flags, s, outcomes);
    let st = run(start_spec(flags), s, outcomes).0;
    let s2 = run(start_spec(flags), s, outcomes).1;
    assert forall|i: int| st.pos <= i < FOLDER_COUNT implies #[trigger] s2.policy[i] == s.policy[i] by {
        assert(!written(st, i));
    }
    if st.pos == COMPANION_ITEM {
        assert(s2.policy =~= s.policy);
    }
}

} // verus!
