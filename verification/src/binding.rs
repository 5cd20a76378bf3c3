use vstd::prelude::*;

verus! {

/// One of the host's fixed set of instrumentation hook points. The set is
/// closed: it is fixed by the host ABI version, and each kind determines the
/// exact callback signature the host will invoke through its generic slot.
#[derive(Clone, Copy, PartialEq, Eq, Structural, Debug)]
pub enum CallbackKind {
    ThreadBegin,
    ThreadEnd,
    ParallelBegin,
    ParallelEnd,
    TaskCreate,
    TaskSchedule,
    ImplicitTask,
    Target,
    TargetDataOp,
    TargetSubmit,
    ControlTool,
    DeviceInitialize,
    DeviceFinalize,
    DeviceLoad,
    DeviceUnload,
    SyncRegionWait,
    MutexReleased,
    Dependences,
    TaskDependence,
    Work,
    Master,
    TargetMap,
    SyncRegion,
    LockInit,
    LockDestroy,
    MutexAcquire,
    MutexAcquired,
    NestLock,
    Flush,
    Cancel,
    Reduction,
    Dispatch,
}

/// The status the host reports for one installation attempt. Statuses are
/// per-binding: one binding's failure never aborts the attempts that follow.
#[derive(Clone, Copy, PartialEq, Eq, Structural, Debug)]
pub enum InstallStatus {
    /// The host accepted the callback for this kind.
    Installed,
    /// Another callback already occupies this kind's slot.
    AlreadyInstalled,
    /// The host does not dispatch this callback kind.
    NoSuchKind,
    /// The host reported an error of its own for this attempt.
    HostError,
}

/// One entry of the binding table: a hook point paired with the type-erased
/// callback pointer, carried as the machine word the host's generic
/// function-pointer slot holds. `None` marks a binding declared but left
/// unset; such an entry is skipped, never installed.
///
/// The word must come from a function whose signature matches `kind`'s
/// expected signature exactly; the host calls through it untyped, so this
/// is a precondition on the tool author that no runtime check can recover.
#[derive(Clone, Copy, PartialEq, Eq, Debug)]
pub struct CallbackBinding {
    pub kind: CallbackKind,
    pub handler: Option<u64>,
}

/// The installation calls a table demands, in table order: one per entry
/// whose handler is present, carrying that entry's kind and pointer word.
/// Entries with an absent handler contribute nothing; duplicate kinds are
/// kept, never merged.
pub open spec fn install_plan(table: Seq<CallbackBinding>) -> Seq<(CallbackKind, u64)>
    decreases table.len(),
{
    if table.len() == 0 {
        Seq::empty()
    } else {
        let rest = install_plan(table.drop_last());
        match table.last().handler {
            Some(h) => rest.push((table.last().kind, h)),
            None => rest,
        }
    }
}

/// How many installation calls the plan makes for one kind.
pub open spec fn planned_count(plan: Seq<(CallbackKind, u64)>, kind: CallbackKind) -> nat
    decreases plan.len(),
{
    if plan.len() == 0 {
        0
    } else {
        planned_count(plan.drop_last(), kind) + if plan.last().0 == kind {
            1nat
        } else {
            0nat
        }
    }
}

/// How many entries of the table carry this kind with a present handler.
pub open spec fn bound_count(table: Seq<CallbackBinding>, kind: CallbackKind) -> nat
    decreases table.len(),
{
    if table.len() == 0 {
        0
    } else {
        bound_count(table.drop_last(), kind) + if table.last().kind == kind
            && table.last().handler is Some {
            1nat
        } else {
            0nat
        }
    }
}

/// A table whose every entry carries a present handler is installed whole:
/// the plan makes exactly one call per entry, in table order, each with that
/// entry's kind and its own pointer word.
pub proof fn lemma_plan_of_fully_bound_table(table: Seq<CallbackBinding>)
    requires
        forall|i: int| 0 <= i < table.len() ==> table[i].handler is Some,
    ensures
        install_plan(table).len() == table.len(),
        forall|i: int| 0 <= i < table.len() ==> install_plan(table)[i] == (table[i].kind, table[i].handler->0),
    decreases table.len(),
{
    if table.len() > 0 {
        let init = table.drop_last();
        assert(forall|i: int| 0 <= i < init.len() ==> init[i] == table[i]);
        lemma_plan_of_fully_bound_table(init);
    }
}

/// An entry with an absent handler is never installed: removing it from the
/// table leaves the plan exactly as it was.
pub proof fn lemma_unbound_entry_ignored(table: Seq<CallbackBinding>, i: int)
    requires
        0 <= i < table.len(),
        table[i].handler is None,
    ensures
        install_plan(table) == install_plan(table.remove(i)),
    decreases table.len(),
{
    if i == table.len() - 1 {
        assert(table.remove(i) =~= table.drop_last());
    } else {
        let shorter = table.drop_last();
        lemma_unbound_entry_ignored(shorter, i);
        assert(table.remove(i).drop_last() =~= shorter.remove(i));
        assert(table.remove(i).last() == table.last());
    }
}

/// No deduplication: for every kind, the plan makes exactly as many
/// installation calls as the table has entries of that kind with a present
/// handler — two entries sharing a kind are both attempted.
pub proof fn lemma_no_deduplication(table: Seq<CallbackBinding>, kind: CallbackKind)
    ensures
        planned_count(install_plan(table), kind) == bound_count(table, kind),
    decreases table.len(),
{
    if table.len() > 0 {
        let init = table.drop_last();
        lemma_no_deduplication(init, kind);
        match table.last().handler {
            Some(h) => {
                let e = (table.last().kind, h);
                assert(install_plan(init).push(e).drop_last() =~= install_plan(init));
            },
            None => {},
        }
    }
}

} // verus!
