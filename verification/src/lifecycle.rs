use vstd::prelude::*;

use crate::errors::PolicyError;
use crate::session::Reconciler;
use crate::state::{
    spec_commit_namespace, spec_commit_primary, spec_commit_secondary, spec_measure_needed,
    spec_need_create, spec_need_create2, spec_rolled, spec_state_env, spec_wf,
    spec_with_measurement, State, StateModel,
};
use crate::template::env_model;

verus! {

/// Where the top-level create/update pass stands.
///
/// The order is a hard invariant, not an optimization: the namespace must
/// exist before its children, and the secondary session imports a resource
/// the primary exports.  Each phase admits exactly one next step, so a
/// driver cannot run the pass out of order.
#[derive(Clone, Copy, Debug, PartialEq, Eq, Structural)]
pub enum Pass {
    Measure,
    Namespace,
    Primary,
    Secondary,
    Persist,
    Aborted,
}

/// The lifecycle coordinator for one create/update pass.
///
/// It owns the in-memory state record for the duration of the pass.  The
/// driver asks which step is next, performs the remote work through a
/// `Reconciler`, and feeds each session's outcome back in.  The record
/// may be persisted only from the `Persist` phase, so an aborted pass can
/// never overwrite the previously persisted record.
pub struct Coordinator {
    pub state: State,
    pub force: bool,
    pub namespace_template: String,
    pub primary_template: String,
    pub secondary_template: String,
    pub phase: Pass,
    /// Whether the primary session must be (re)created; set when the
    /// namespace outcome is absorbed.
    pub need: bool,
    /// Whether the secondary session must be (re)created; set when the
    /// primary outcome is absorbed.
    pub need2: bool,
    /// The abort reason; meaningful in `Aborted`.
    pub failure: PolicyError,
}

/// The inputs of a pass never change while it runs.
pub open spec fn pass_frame(pre: Coordinator, post: Coordinator) -> bool {
    &&& post.force == pre.force
    &&& post.namespace_template@ == pre.namespace_template@
    &&& post.primary_template@ == pre.primary_template@
    &&& post.secondary_template@ == pre.secondary_template@
}

impl Coordinator {
    /// Begins a create/update pass over the given record.
    pub fn new(
        state: State,
        force: bool,
        namespace_template: String,
        primary_template: String,
        secondary_template: String,
    ) -> (c: Coordinator)
        ensures
            c.state@ == state@,
            c.force == force,
            c.namespace_template@ == namespace_template@,
            c.primary_template@ == primary_template@,
            c.secondary_template@ == secondary_template@,
            c.phase is Measure,
    {
        Coordinator {
            state,
            force,
            namespace_template,
            primary_template,
            secondary_template,
            phase: Pass::Measure,
            need: false,
            need2: false,
            failure: PolicyError::MeasurementFailed,
        }
    }

    /// True exactly when the pass must take a fresh measurement before
    /// touching any session.
    pub fn measurement_needed(&self) -> (r: bool)
        ensures
            r == spec_measure_needed(self.state@, self.force),
    {
        self.state.needs_measurement(self.force)
    }

    /// Moves past the measurement step when the cached measurement is
    /// still good.
    pub fn skip_measurement(&mut self)
        requires
            old(self).phase is Measure,
            !spec_measure_needed(old(self).state@, old(self).force),
        ensures
            pass_frame(*old(self), *final(self)),
            final(self).state@ == old(self).state@,
            final(self).phase is Namespace,
    {
        self.phase = Pass::Namespace;
    }

    /// Absorbs the measurement outcome.  A missing measurement aborts the
    /// whole pass before any session is touched: a session must never be
    /// created while its measurement is unknown.  The record is updated in
    /// full or not at all.
    pub fn absorb_measurement(&mut self, m: Option<String>)
        requires
            old(self).phase is Measure,
            spec_measure_needed(old(self).state@, old(self).force),
        ensures
            pass_frame(*old(self), *final(self)),
            m matches Some(s) ==> {
                &&& final(self).state@ == spec_with_measurement(old(self).state@, s@)
                &&& final(self).phase is Namespace
            },
            m is None ==> {
                &&& final(self).state@ == old(self).state@
                &&& final(self).phase is Aborted
                &&& final(self).failure == PolicyError::MeasurementFailed
            },
    {
        match m {
            Some(s) => {
                self.state.set_measurement(s);
                self.phase = Pass::Namespace;
            },
            None => {
                self.phase = Pass::Aborted;
                self.failure = PolicyError::MeasurementFailed;
            },
        }
    }

    /// The reconciler for the namespace session: always driven by the
    /// caller's force flag, since a namespace has no version-drift rule of
    /// its own.
    pub fn namespace_reconciler(&self) -> (r: Reconciler)
        requires
            self.phase is Namespace,
        ensures
            r.name@ == self.state@.namespace,
            r.last_hash@ == self.state@.namespace_hash,
            r.force == self.force,
            r.template@ == self.namespace_template@,
            env_model(r.bindings@) == spec_state_env(self.state@),
            r.phase is Unknown,
    {
        Reconciler::new(
            self.state.namespace.clone(),
            self.state.namespace_hash.clone(),
            self.force,
            self.namespace_template.clone(),
            self.state.bindings(),
        )
    }

    /// Absorbs the namespace outcome.  Success records the confirmed hash
    /// and computes whether the primary session has drifted; failure
    /// aborts with the record exactly as it was.
    pub fn absorb_namespace(&mut self, r: Result<String, PolicyError>)
        requires
            old(self).phase is Namespace,
        ensures
            pass_frame(*old(self), *final(self)),
            r matches Ok(h) ==> {
                &&& final(self).state@ == spec_commit_namespace(old(self).state@, h@)
                &&& final(self).phase is Primary
                &&& final(self).need == spec_need_create(final(self).state@, final(self).force)
            },
            r matches Err(e) ==> {
                &&& final(self).state@ == old(self).state@
                &&& final(self).phase is Aborted
                &&& final(self).failure == e
            },
    {
        match r {
            Ok(h) => {
                self.state.commit_namespace(h);
                self.need = self.state.need_create(self.force);
                self.phase = Pass::Primary;
            },
            Err(e) => {
                self.phase = Pass::Aborted;
                self.failure = e;
            },
        }
    }

    /// The reconciler for the primary session, forced exactly when the
    /// drift rule demands recreation.
    pub fn primary_reconciler(&self) -> (r: Reconciler)
        requires
            self.phase is Primary,
        ensures
            r.name@ == self.state@.session,
            r.last_hash@ == self.state@.session_hash,
            r.force == self.need,
            r.template@ == self.primary_template@,
            env_model(r.bindings@) == spec_state_env(self.state@),
            r.phase is Unknown,
    {
        Reconciler::new(
            self.state.session.clone(),
            self.state.session_hash.clone(),
            self.need,
            self.primary_template.clone(),
            self.state.bindings(),
        )
    }

    /// Absorbs the primary outcome.  Success records the confirmed hash,
    /// marks the session current for this rotation, and propagates drift
    /// forward to the secondary session; failure aborts with the record
    /// exactly as it was.
    pub fn absorb_primary(&mut self, r: Result<String, PolicyError>)
        requires
            old(self).phase is Primary,
        ensures
            pass_frame(*old(self), *final(self)),
            final(self).need == old(self).need,
            r matches Ok(h) ==> {
                &&& final(self).state@ == spec_commit_primary(old(self).state@, h@)
                &&& final(self).phase is Secondary
                &&& final(self).need2 == spec_need_create2(final(self).state@, old(self).need)
            },
            r matches Err(e) ==> {
                &&& final(self).state@ == old(self).state@
                &&& final(self).phase is Aborted
                &&& final(self).failure == e
            },
    {
        match r {
            Ok(h) => {
                self.state.commit_primary(h);
                self.need2 = self.state.need_create2(self.need);
                self.phase = Pass::Secondary;
            },
            Err(e) => {
                self.phase = Pass::Aborted;
                self.failure = e;
            },
        }
    }

    /// The reconciler for the secondary session, forced exactly when drift
    /// reached it.
    pub fn secondary_reconciler(&self) -> (r: Reconciler)
        requires
            self.phase is Secondary,
        ensures
            r.name@ == self.state@.session2,
            r.last_hash@ == self.state@.session_hash2,
            r.force == self.need2,
            r.template@ == self.secondary_template@,
            env_model(r.bindings@) == spec_state_env(self.state@),
            r.phase is Unknown,
    {
        Reconciler::new(
            self.state.session2.clone(),
            self.state.session_hash2.clone(),
            self.need2,
            self.secondary_template.clone(),
            self.state.bindings(),
        )
    }

    /// Absorbs the secondary outcome.  Success completes the pass and
    /// frees the record for persisting; failure aborts with the record
    /// exactly as it was.
    pub fn absorb_secondary(&mut self, r: Result<String, PolicyError>)
        requires
            old(self).phase is Secondary,
        ensures
            pass_frame(*old(self), *final(self)),
            r matches Ok(h) ==> {
                &&& final(self).state@ == spec_commit_secondary(old(self).state@, h@)
                &&& final(self).phase is Persist
            },
            r matches Err(e) ==> {
                &&& final(self).state@ == old(self).state@
                &&& final(self).phase is Aborted
                &&& final(self).failure == e
            },
    {
        match r {
            Ok(h) => {
                self.state.commit_secondary(h);
                self.phase = Pass::Persist;
            },
            Err(e) => {
                self.phase = Pass::Aborted;
                self.failure = e;
            },
        }
    }

    /// Hands the completed record out for persisting.  Only a pass that
    /// reached the end may persist, so an abort is always a no-op on the
    /// durable record.
    pub fn into_state(self) -> (s: State)
        requires
            self.phase is Persist,
        ensures
            s@ == self.state@,
    {
        self.state
    }
}

/// Drift propagation: a record whose primary session is stale mandates
/// recreation of both dependent sessions, even when the secondary's own
/// counter still matches the rotation counter.
pub proof fn lemma_drift_propagates_to_secondary(s: StateModel)
    requires
        s.session_version != s.volume_version,
    ensures
        spec_need_create(s, false),
        spec_need_create2(s, spec_need_create(s, false)),
{
}

/// Drift propagation across a rotation: moving the rotation counter up by
/// one mandates recreation of both dependent sessions on the next pass,
/// with no force flag.
pub proof fn lemma_rotation_mandates_recreation(s: StateModel, secret: Seq<char>)
    requires
        spec_wf(s),
        s.volume_version < u64::MAX,
    ensures
        spec_need_create(spec_rolled(s, secret), false),
        spec_need_create2(spec_rolled(s, secret), spec_need_create(spec_rolled(s, secret), false)),
{
}

/// A roll-forward moves the rotation counter up by exactly one and
/// replaces the secret unconditionally, touching nothing else.
pub proof fn lemma_roll_forward_rotates(s: StateModel, secret: Seq<char>)
    requires
        s.volume_version < u64::MAX,
    ensures
        spec_rolled(s, secret).volume_version == s.volume_version + 1,
        spec_rolled(s, secret).secret == secret,
        spec_rolled(s, secret).namespace == s.namespace,
        spec_rolled(s, secret).namespace_hash == s.namespace_hash,
        spec_rolled(s, secret).session_hash == s.session_hash,
        spec_rolled(s, secret).session_hash2 == s.session_hash2,
        spec_rolled(s, secret).session_version == s.session_version,
        spec_rolled(s, secret).session_version2 == s.session_version2,
        spec_rolled(s, secret).mrenclave == s.mrenclave,
{
}

/// A record is settled when every session hash is confirmed, both
/// dependent sessions are current for the present rotation, and the
/// measurement is cached.
pub open spec fn spec_settled(s: StateModel) -> bool {
    &&& s.namespace_hash.len() > 0
    &&& s.session_hash.len() > 0
    &&& s.session_hash2.len() > 0
    &&& s.session_version == s.volume_version
    &&& s.session_version2 == s.volume_version
    &&& s.mrenclave.len() > 0
}

/// Idempotent retry: an unforced pass over a settled record takes no
/// measurement and mandates no recreation, and each of its reconcilers
/// starts from a non-empty hash without force, so by `Reconciler::start`
/// it finishes at once without requesting a single remote call.
pub proof fn lemma_settled_rerun_is_noop(s: StateModel)
    requires
        spec_settled(s),
    ensures
        !spec_measure_needed(s, false),
        !spec_need_create(s, false),
        !spec_need_create2(s, spec_need_create(s, false)),
{
}

/// Re-absorbing the hashes a settled record already holds reproduces the
/// record exactly: a pass whose every reconciliation was a skip leaves
/// the record identical, field for field.
pub proof fn lemma_noop_pass_preserves_record(s: StateModel)
    requires
        spec_settled(s),
    ensures
        spec_commit_secondary(
            spec_commit_primary(spec_commit_namespace(s, s.namespace_hash), s.session_hash),
            s.session_hash2,
        ) == s,
{
    assert(spec_commit_secondary(
        spec_commit_primary(spec_commit_namespace(s, s.namespace_hash), s.session_hash),
        s.session_hash2,
    ) =~= s);
}

/// A completed pass settles the record: whichever measurement path was
/// taken, once the three confirmed hashes are non-empty, both dependent
/// sessions are current and the next unforced pass is a no-op.
pub proof fn lemma_completed_pass_settles(
    s: StateModel,
    m: Seq<char>,
    hn: Seq<char>,
    h1: Seq<char>,
    h2: Seq<char>,
)
    requires
        m.len() > 0,
        hn.len() > 0,
        h1.len() > 0,
        h2.len() > 0,
    ensures
        spec_settled(
            spec_commit_secondary(
                spec_commit_primary(spec_commit_namespace(spec_with_measurement(s, m), hn), h1),
                h2,
            ),
        ),
        s.mrenclave.len() > 0 ==> spec_settled(
            spec_commit_secondary(spec_commit_primary(spec_commit_namespace(s, hn), h1), h2),
        ),
{
}

} // verus!
