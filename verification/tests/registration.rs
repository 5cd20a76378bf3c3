use std::cell::RefCell;

use ompt_50_rs::install_primitive_name;
use ompt_50_rs::CallbackBinding;
use ompt_50_rs::CallbackKind;
use ompt_50_rs::InstallStatus;
use ompt_50_rs::OMPTTool;

/// Drives one registration run the way the C boundary does: try the lookup
/// on the fixed primitive name, start the session with the outcome, then
/// drain the session, handing each pending entry to the resolved installer
/// and recording the status it returns.
fn run_initializer<F, G>(tool: &OMPTTool, lookup: F) -> (i32, Vec<(CallbackKind, InstallStatus)>)
where
    F: Fn(&str) -> Option<G>,
    G: FnMut(CallbackKind, u64) -> InstallStatus,
{
    let installer = lookup(install_primitive_name());
    let mut session = tool.register_callbacks(installer.is_some());
    if let Some(mut install) = installer {
        while let Some((kind, word)) = session.pending() {
            let status = install(kind, word);
            session.record(status);
        }
    }
    (session.success_flag(), session.outcomes().clone())
}

#[test]
fn install_primitive_name_is_fixed() {
    assert_eq!(install_primitive_name(), "ompt_set_callback");
}

#[test]
fn fully_bound_table_installed_in_order() {
    let table = vec![
        CallbackBinding { kind: CallbackKind::ParallelBegin, handler: Some(101) },
        CallbackBinding { kind: CallbackKind::ParallelEnd, handler: Some(102) },
        CallbackBinding { kind: CallbackKind::ImplicitTask, handler: Some(103) },
    ];
    let tool = OMPTTool::new(Some(1), None, None, Some(table));
    let calls: RefCell<Vec<(CallbackKind, u64)>> = RefCell::new(Vec::new());
    let lookup = |name: &str| {
        if name == "ompt_set_callback" {
            Some(|kind: CallbackKind, word: u64| {
                calls.borrow_mut().push((kind, word));
                InstallStatus::Installed
            })
        } else {
            None
        }
    };
    let (flag, outcomes) = run_initializer(&tool, lookup);
    assert_eq!(flag, 1);
    assert_eq!(
        calls.into_inner(),
        vec![
            (CallbackKind::ParallelBegin, 101),
            (CallbackKind::ParallelEnd, 102),
            (CallbackKind::ImplicitTask, 103),
        ]
    );
    assert_eq!(
        outcomes,
        vec![
            (CallbackKind::ParallelBegin, InstallStatus::Installed),
            (CallbackKind::ParallelEnd, InstallStatus::Installed),
            (CallbackKind::ImplicitTask, InstallStatus::Installed),
        ]
    );
}

#[test]
fn absent_binding_never_installed() {
    let table = vec![
        CallbackBinding { kind: CallbackKind::Master, handler: None },
    ];
    let tool = OMPTTool::new(Some(1), None, None, Some(table));
    let session = tool.register_callbacks(true);
    assert_eq!(session.plan, vec![]);
    assert!(session.pending().is_none());
    assert_eq!(session.success_flag(), 1);
}

#[test]
fn failed_lookup_plans_nothing_and_reports_failure() {
    let table = vec![
        CallbackBinding { kind: CallbackKind::TaskCreate, handler: Some(55) },
    ];
    let tool = OMPTTool::new(Some(1), None, None, Some(table));
    let session = tool.register_callbacks(false);
    assert!(session.pending().is_none());
    assert!(session.is_complete());
    assert_eq!(session.success_flag(), 0);
    assert!(session.outcomes().is_empty());
}

#[test]
fn duplicate_kinds_get_independent_statuses() {
    let table = vec![
        CallbackBinding { kind: CallbackKind::SyncRegion, handler: Some(7) },
        CallbackBinding { kind: CallbackKind::SyncRegion, handler: Some(8) },
    ];
    let tool = OMPTTool::new(Some(1), None, None, Some(table));
    let mut session = tool.register_callbacks(true);
    assert_eq!(
        session.plan,
        vec![(CallbackKind::SyncRegion, 7), (CallbackKind::SyncRegion, 8)]
    );
    assert_eq!(session.pending(), Some((CallbackKind::SyncRegion, 7)));
    session.record(InstallStatus::Installed);
    assert_eq!(session.pending(), Some((CallbackKind::SyncRegion, 8)));
    session.record(InstallStatus::AlreadyInstalled);
    assert!(session.is_complete());
    assert_eq!(
        session.outcomes().clone(),
        vec![
            (CallbackKind::SyncRegion, InstallStatus::Installed),
            (CallbackKind::SyncRegion, InstallStatus::AlreadyInstalled),
        ]
    );
}

#[test]
fn per_binding_failure_does_not_stop_the_rest() {
    let table = vec![
        CallbackBinding { kind: CallbackKind::LockInit, handler: Some(31) },
        CallbackBinding { kind: CallbackKind::LockDestroy, handler: Some(32) },
        CallbackBinding { kind: CallbackKind::Flush, handler: Some(33) },
    ];
    let tool = OMPTTool::new(Some(1), None, None, Some(table));
    let lookup = |name: &str| {
        if name == "ompt_set_callback" {
            Some(|kind: CallbackKind, _word: u64| {
                if kind == CallbackKind::LockDestroy {
                    InstallStatus::HostError
                } else {
                    InstallStatus::Installed
                }
            })
        } else {
            None
        }
    };
    let (flag, outcomes) = run_initializer(&tool, lookup);
    assert_eq!(flag, 1);
    assert_eq!(
        outcomes,
        vec![
            (CallbackKind::LockInit, InstallStatus::Installed),
            (CallbackKind::LockDestroy, InstallStatus::HostError),
            (CallbackKind::Flush, InstallStatus::Installed),
        ]
    );
}

#[test]
fn two_of_three_bindings_installed() {
    let table = vec![
        CallbackBinding { kind: CallbackKind::ThreadBegin, handler: Some(201) },
        CallbackBinding { kind: CallbackKind::ThreadEnd, handler: Some(202) },
        CallbackBinding { kind: CallbackKind::TaskSchedule, handler: None },
    ];
    let tool = OMPTTool::new(Some(1), None, None, Some(table));
    let calls: RefCell<Vec<(CallbackKind, u64)>> = RefCell::new(Vec::new());
    let lookup = |name: &str| {
        if name == "ompt_set_callback" {
            Some(|kind: CallbackKind, word: u64| {
                calls.borrow_mut().push((kind, word));
                InstallStatus::Installed
            })
        } else {
            None
        }
    };
    let (flag, outcomes) = run_initializer(&tool, lookup);
    assert_eq!(flag, 1);
    assert_eq!(
        calls.into_inner(),
        vec![(CallbackKind::ThreadBegin, 201), (CallbackKind::ThreadEnd, 202)]
    );
    assert_eq!(
        outcomes,
        vec![
            (CallbackKind::ThreadBegin, InstallStatus::Installed),
            (CallbackKind::ThreadEnd, InstallStatus::Installed),
        ]
    );
}

#[test]
fn missing_primitive_makes_zero_install_calls() {
    let table = vec![
        CallbackBinding { kind: CallbackKind::ThreadBegin, handler: Some(201) },
        CallbackBinding { kind: CallbackKind::ThreadEnd, handler: Some(202) },
    ];
    let tool = OMPTTool::new(Some(1), None, None, Some(table));
    let installs = RefCell::new(0u32);
    let lookup = |name: &str| {
        if name == "ompt_get_thread_data" {
            Some(|_kind: CallbackKind, _word: u64| {
                *installs.borrow_mut() += 1;
                InstallStatus::Installed
            })
        } else {
            None
        }
    };
    let (flag, outcomes) = run_initializer(&tool, lookup);
    assert_eq!(flag, 0);
    assert!(outcomes.is_empty());
    assert_eq!(installs.into_inner(), 0);
}
