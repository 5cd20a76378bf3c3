use vstd::prelude::*;

use crate::binding::install_plan;
use crate::binding::CallbackBinding;
use crate::binding::CallbackKind;
use crate::binding::InstallStatus;
use crate::tool::OMPTTool;

verus! {

/// The view of the fixed, ABI-mandated name of the host's callback
/// installation primitive, the one symbol this layer must resolve.
pub open spec fn install_primitive_name_spec() -> Seq<char> {
    "ompt_set_callback"@
}

/// The name under which the host's symbol lookup yields the callback
/// installation primitive.
pub fn install_primitive_name() -> (r: &'static str)
    ensures
        r@ == install_primitive_name_spec(),
{
    "ompt_set_callback"
}

/// One run of the registration protocol, from the moment the host's lookup
/// has been tried for the installation primitive. The caller at the C
/// boundary drains it: while `pending` yields an entry, it invokes the
/// installation primitive on that entry's kind and pointer word, and hands
/// the host's status back through `record`. The session fixes the plan up
/// front — one installation per bound table entry, in table order — and
/// pairs every status with the entry it answers, independently of the
/// statuses around it.
#[derive(Clone, Debug)]
pub struct Registration {
    /// The installation calls still owed to the host, in order; fixed when
    /// the session starts.
    pub plan: Vec<(CallbackKind, u64)>,
    /// Whether the lookup resolved the installation primitive. When it did
    /// not, the condition is fatal: the plan is empty and the session
    /// reports failure.
    pub resolved: bool,
    /// One status per attempted plan entry, in plan order; grows by one at
    /// each `record`.
    pub log: Vec<(CallbackKind, InstallStatus)>,
}

impl Registration {
    /// The statuses logged so far answer the plan prefix of the same
    /// length, entry by entry, and an unresolved primitive admits no plan
    /// at all.
    pub open spec fn wf(&self) -> bool {
        &&& self.log@.len() <= self.plan@.len()
        &&& forall|i: int| 0 <= i < self.log@.len() ==> self.log@[i].0 == self.plan@[i].0
        &&& (!self.resolved ==> self.plan@.len() == 0)
    }

    /// The next installation the protocol asks for: the first plan entry
    /// without a status. `None` once every planned entry has been
    /// attempted — immediately so when the lookup failed, since a failed
    /// lookup plans nothing.
    pub fn pending(&self) -> (r: Option<(CallbackKind, u64)>)
        ensures
            self.log@.len() < self.plan@.len() ==> r == Some(self.plan@[self.log@.len() as int]),
            self.log@.len() >= self.plan@.len() ==> r is None,
    {
        if self.log.len() < self.plan.len() {
            Some(self.plan[self.log.len()])
        } else {
            None
        }
    }

    /// Records the host's status for the pending entry. The status is kept
    /// beside that entry's kind; nothing else moves, and a non-success
    /// status leaves the rest of the plan owed exactly as before.
    pub fn record(&mut self, status: InstallStatus)
        requires
            old(self).wf(),
            old(self).log@.len() < old(self).plan@.len(),
        ensures
            final(self).wf(),
            final(self).plan == old(self).plan,
            final(self).resolved == old(self).resolved,
            final(self).log@ == old(self).log@.push(
                (old(self).plan@[old(self).log@.len() as int].0, status),
            ),
    {
        let kind = self.plan[self.log.len()].0;
        self.log.push((kind, status));
    }

    /// Whether every planned installation has been attempted.
    pub fn is_complete(&self) -> (r: bool)
        ensures
            r == (self.log@.len() == self.plan@.len()),
    {
        self.log.len() == self.plan.len()
    }

    /// The scalar the initializer returns to the host: success exactly when
    /// the installation primitive was resolved. Per-binding statuses never
    /// reach this flag; they stay in the log as diagnostics.
    pub fn success_flag(&self) -> (r: i32)
        ensures
            r == 1 <==> self.resolved,
            r == 0 <==> !self.resolved,
    {
        if self.resolved {
            1
        } else {
            0
        }
    }

    /// The per-binding diagnostics: each attempted entry's kind with the
    /// status the host reported for it.
    pub fn outcomes(&self) -> (r: &Vec<(CallbackKind, InstallStatus)>)
        ensures
            r@ == self.log@,
    {
        &self.log
    }
}

/// A fatal lookup failure installs nothing: a well-formed session whose
/// installation primitive was not resolved has an empty plan and an empty
/// log, so no installation call is ever owed or attempted.
pub proof fn lemma_unresolved_session_installs_nothing(r: Registration)
    requires
        r.wf(),
        !r.resolved,
    ensures
        r.plan@.len() == 0,
        r.log@.len() == 0,
{
}

/// A finished session's diagnostics cover the whole plan: one status per
/// planned installation, in plan order, each beside the kind it answers —
/// entries sharing a kind keep their own, independent statuses.
pub proof fn lemma_complete_session_log_covers_plan(r: Registration)
    requires
        r.wf(),
        r.log@.len() == r.plan@.len(),
    ensures
        forall|i: int| 0 <= i < r.plan@.len() ==> r.log@[i].0 == r.plan@[i].0,
{
}

impl OMPTTool {
    /// Starts the registration protocol, given whether the host's lookup
    /// resolved the installation primitive. When it did, the session plans
    /// exactly the installations `install_plan` gives for this descriptor's
    /// table: every bound entry once, in table order, absent handlers
    /// skipped. When it did not, the failure is fatal: nothing is planned,
    /// so no installation call can ever be made, and the session's flag
    /// reports failure.
    pub fn register_callbacks(&self, install_primitive_found: bool) -> (r: Registration)
        ensures
            r.wf(),
            r.resolved == install_primitive_found,
            r.log@.len() == 0,
            install_primitive_found ==> r.plan@ == install_plan(self.callbacks@),
            !install_primitive_found ==> r.plan@.len() == 0,
    {
        if !install_primitive_found {
            return Registration { plan: Vec::new(), resolved: false, log: Vec::new() };
        }
        let mut plan: Vec<(CallbackKind, u64)> = Vec::new();
        let mut i: usize = 0;
        while i < self.callbacks.len()
            invariant
                i <= self.callbacks@.len(),
                plan@ == install_plan(self.callbacks@.take(i as int)),
            decreases self.callbacks@.len() - i,
        {
            let entry = self.callbacks[i];
            match entry.handler {
                Some(h) => plan.push((entry.kind, h)),
                None => {},
            }
            proof {
                let taken = self.callbacks@.take(i + 1);
                assert(taken.drop_last() =~= self.callbacks@.take(i as int));
                assert(taken.last() == self.callbacks@[i as int]);
            }
            i += 1;
        }
        proof {
            assert(self.callbacks@.take(self.callbacks@.len() as int) =~= self.callbacks@);
        }
        Registration { plan, resolved: true, log: Vec::new() }
    }
}

} // verus!
