use thispc_folders::apply::{policy_text, ApplyError, ApplySession, FailedStep, ItemFailure, OpOutcome, StoreOp};
use thispc_folders::flags::{load, FlagSet};
use thispc_folders::folders::FOLDER_COUNT;

/// The managed part of a store, in memory.
#[derive(Clone, Debug, PartialEq)]
struct MemStore {
    policy: Vec<Option<String>>,
    companion: bool,
}

impl MemStore {
    fn empty() -> MemStore {
        MemStore { policy: vec![None; FOLDER_COUNT], companion: false }
    }

    fn perform(&mut self, op: StoreOp) {
        match op {
            StoreOp::SetPolicy { item, shown } => self.policy[item] = Some(policy_text(shown)),
            StoreOp::CreateCompanion => self.companion = true,
            StoreOp::DeleteCompanion => self.companion = false,
        }
    }
}

/// Runs a session on `store`; `outcome` decides how each operation goes.
fn apply(
    store: &mut MemStore,
    flags: &FlagSet,
    mut outcome: impl FnMut(StoreOp) -> OpOutcome,
) -> (Result<(), ApplyError>, Vec<StoreOp>) {
    let mut session = ApplySession::start(flags);
    let mut ops = Vec::new();
    while let Some(op) = session.next_op() {
        ops.push(op);
        let o = outcome(op);
        if o == OpOutcome::Done {
            store.perform(op);
        }
        session.record(o);
    }
    assert!(session.is_finished());
    (session.result(), ops)
}

fn flags(v: [bool; 7]) -> FlagSet {
    FlagSet::from_flags(v.to_vec()).unwrap()
}

#[test]
fn apply_then_load_round_trip() {
    for f in [
        [true; 7],
        [false; 7],
        [false, true, false, true, true, false, true],
        [true, false, true, false, false, true, false],
    ] {
        let mut store = MemStore::empty();
        let fs = flags(f);
        let (r, _) = apply(&mut store, &fs, |_| OpOutcome::Done);
        assert_eq!(r, Ok(()));
        assert_eq!(load(&store.policy).to_vec(), f.to_vec());
    }
}

#[test]
fn companion_key_tracks_companion_flag() {
    let mut store = MemStore::empty();
    let (r, ops) = apply(&mut store, &flags([true; 7]), |_| OpOutcome::Done);
    assert_eq!(r, Ok(()));
    assert!(store.companion);
    assert_eq!(ops[1], StoreOp::CreateCompanion);
    assert_eq!(ops.len(), FOLDER_COUNT + 1);

    let (r, ops) = apply(&mut store, &flags([false, true, true, true, true, true, true]), |_| OpOutcome::Done);
    assert_eq!(r, Ok(()));
    assert!(!store.companion);
    assert_eq!(ops[1], StoreOp::DeleteCompanion);
}

#[test]
fn apply_twice_leaves_same_store() {
    let fs = flags([false, true, false, true, false, true, true]);
    let mut store = MemStore::empty();
    apply(&mut store, &fs, |_| OpOutcome::Done).0.unwrap();
    let once = store.clone();
    apply(&mut store, &fs, |_| OpOutcome::Done).0.unwrap();
    assert_eq!(store, once);
}

#[test]
fn failed_write_is_reported_and_keeps_previous_value() {
    let mut store = MemStore::empty();
    store.policy[4] = Some("Hide".to_owned());
    let fs = flags([true, false, true, true, true, true, false]);
    let (r, _) = apply(&mut store, &fs, |op| match op {
        StoreOp::SetPolicy { item: 4, .. } => OpOutcome::Failed,
        _ => OpOutcome::Done,
    });
    assert_eq!(
        r,
        Err(ApplyError::Partial { failures: vec![ItemFailure { item: 4, step: FailedStep::Policy }] })
    );
    let loaded = load(&store.policy).to_vec();
    assert!(!loaded[1]);
    assert!(!loaded[4]);
    assert!(!loaded[6]);
    assert!(loaded[5]);
}

#[test]
fn failed_companion_update_is_reported() {
    let mut store = MemStore::empty();
    let (r, _) = apply(&mut store, &flags([true; 7]), |op| match op {
        StoreOp::CreateCompanion => OpOutcome::PermissionDenied,
        _ => OpOutcome::Done,
    });
    assert_eq!(
        r,
        Err(ApplyError::Partial { failures: vec![ItemFailure { item: 0, step: FailedStep::Companion }] })
    );
    assert!(!store.companion);
    assert_eq!(load(&store.policy).to_vec(), vec![true; 7]);
}

#[test]
fn failed_companion_policy_write_skips_companion_key() {
    let mut store = MemStore::empty();
    let (r, ops) = apply(&mut store, &flags([true; 7]), |op| match op {
        StoreOp::SetPolicy { item: 0, .. } => OpOutcome::Failed,
        _ => OpOutcome::Done,
    });
    assert_eq!(
        r,
        Err(ApplyError::Partial { failures: vec![ItemFailure { item: 0, step: FailedStep::Policy }] })
    );
    assert!(!ops.contains(&StoreOp::CreateCompanion));
    assert!(!store.companion);
}

#[test]
fn permission_denied_stops_before_later_folders() {
    let mut store = MemStore::empty();
    let before = store.clone();
    let (r, ops) = apply(&mut store, &flags([false; 7]), |op| match op {
        StoreOp::SetPolicy { item: 3, .. } => OpOutcome::PermissionDenied,
        _ => OpOutcome::Done,
    });
    assert_eq!(r, Err(ApplyError::PermissionDenied { item: 3 }));
    assert_eq!(ops.last(), Some(&StoreOp::SetPolicy { item: 3, shown: false }));
    for i in 3..FOLDER_COUNT {
        assert_eq!(store.policy[i], before.policy[i]);
    }
    assert_eq!(store.policy[2], Some("Hide".to_owned()));
}

#[test]
fn permission_denied_on_first_folder_changes_nothing() {
    let mut store = MemStore::empty();
    store.companion = true;
    let before = store.clone();
    let (r, ops) = apply(&mut store, &flags([false; 7]), |_| OpOutcome::PermissionDenied);
    assert_eq!(r, Err(ApplyError::PermissionDenied { item: 0 }));
    assert_eq!(ops.len(), 1);
    assert_eq!(store, before);
}

#[test]
fn hide_desktop_and_companion_show_documents() {
    let mut store = MemStore::empty();
    store.companion = true;
    let fs = flags([false, false, true, true, true, true, true]);
    let (r, _) = apply(&mut store, &fs, |_| OpOutcome::Done);
    assert_eq!(r, Ok(()));
    assert_eq!(store.policy[1], Some("Hide".to_owned()));
    assert_eq!(store.policy[2], Some("Show".to_owned()));
    assert!(!store.companion);
}

#[test]
fn policy_text_for_flags() {
    assert_eq!(policy_text(true), "Show");
    assert_eq!(policy_text(false), "Hide");
}
