use vstd::prelude::*;

use crate::errors::PolicyError;
use crate::template::{env_model, render, spec_render, Binding, BindingModel};

verus! {

/// Where one session's reconciliation stands.
///
/// The await phases each name the single remote call whose outcome the
/// machine is waiting for; `Committed` means the local hash now points at
/// a document the store confirmed; `Aborted` means a hard error was hit
/// and the local hash was left untouched.
#[derive(Clone, Copy, Debug, PartialEq, Eq, Structural)]
pub enum Phase {
    Unknown,
    AwaitRead,
    AwaitVerify,
    AwaitCheck,
    AwaitCreate,
    Committed,
    Aborted,
}

/// The next remote call the driver must make, or the final outcome.
pub enum Action {
    /// Read the named session from the store.
    Read { name: String },
    /// Verify the content the read produced and report its hash.
    Verify,
    /// Dry-run check the rendered document.
    Check { doc: String },
    /// Commit the rendered document and report the new hash.
    Create { doc: String },
    /// Reconciliation succeeded; `hash` is the session's confirmed hash.
    Finish { hash: String },
    /// Reconciliation aborted; the last known hash is still authoritative.
    Fail { err: PolicyError },
}

/// The reconciliation state machine for one session.
///
/// The driver calls `start`, performs each requested remote call, and
/// feeds the outcome back through the matching `on_*` method until it
/// receives `Finish` or `Fail`.  The machine itself performs no call; it
/// only decides, so every decision here is verified.
pub struct Reconciler {
    pub name: String,
    pub last_hash: String,
    pub force: bool,
    pub template: String,
    pub bindings: Vec<Binding>,
    pub phase: Phase,
    /// The rendered document; meaningful from `AwaitCheck` on.
    pub doc: String,
    /// The confirmed hash; meaningful in `Committed`.
    pub result_hash: String,
    /// The abort reason; meaningful in `Aborted`.
    pub failure: PolicyError,
}

/// The inputs of a reconciliation never change while it runs.
pub open spec fn spec_frame(pre: Reconciler, post: Reconciler) -> bool {
    &&& post.name@ == pre.name@
    &&& post.last_hash@ == pre.last_hash@
    &&& post.force == pre.force
    &&& post.template@ == pre.template@
    &&& env_model(post.bindings@) == env_model(pre.bindings@)
}

/// The environment a session document is rendered against: the base
/// bindings plus the two synthesized predecessor keys.
pub open spec fn spec_session_env(
    base: Seq<BindingModel>,
    pk: Seq<char>,
    pred: Seq<char>,
) -> Seq<BindingModel> {
    base + seq![
        BindingModel { key: "predecessor_key"@, value: pk },
        BindingModel { key: "predecessor"@, value: pred },
    ]
}

/// The machine rendered its document with the given predecessor pair and
/// either moved to the dry-run check or aborted strictly.
pub open spec fn spec_rendered(
    pre: Reconciler,
    post: Reconciler,
    a: Action,
    pk: Seq<char>,
    pred: Seq<char>,
) -> bool {
    match spec_render(pre.template@, spec_session_env(env_model(pre.bindings@), pk, pred)) {
        Some(d) => {
            &&& post.phase is AwaitCheck
            &&& post.doc@ == d
            &&& a matches Action::Check { doc } && doc@ == d
        },
        None => {
            &&& post.phase is Aborted
            &&& post.failure == PolicyError::TemplateError
            &&& a matches Action::Fail { err } && err == PolicyError::TemplateError
        },
    }
}

impl Reconciler {
    /// Sets up the reconciliation of one session from its name, the last
    /// known hash (empty for "never created"), the caller's force flag,
    /// the document template and the base bindings.
    pub fn new(
        name: String,
        last_hash: String,
        force: bool,
        template: String,
        bindings: Vec<Binding>,
    ) -> (r: Reconciler)
        ensures
            r.name@ == name@,
            r.last_hash@ == last_hash@,
            r.force == force,
            r.template@ == template@,
            env_model(r.bindings@) == env_model(bindings@),
            r.phase is Unknown,
    {
        Reconciler {
            name,
            last_hash,
            force,
            template,
            bindings,
            phase: Phase::Unknown,
            doc: String::new(),
            result_hash: String::new(),
            failure: PolicyError::TemplateError,
        }
    }

    /// Clones the base bindings and appends the two synthesized
    /// predecessor keys.
    fn session_env(&self, pk: &str, pred: &str) -> (env: Vec<Binding>)
        ensures
            env_model(env@) == spec_session_env(env_model(self.bindings@), pk@, pred@),
    {
        let mut env: Vec<Binding> = Vec::new();
        let n = self.bindings.len();
        let mut i: usize = 0;
        while i < n
            invariant
                i <= n,
                n == self.bindings.len(),
                env@.len() == i,
                forall|k: int| 0 <= k < i ==> env@[k] == self.bindings@[k],
            decreases n - i,
        {
            let b = &self.bindings[i];
            env.push(Binding { key: b.key.clone(), value: b.value.clone() });
            i = i + 1;
        }
        env.push(Binding { key: "predecessor_key".to_owned(), value: pk.to_owned() });
        env.push(Binding { key: "predecessor".to_owned(), value: pred.to_owned() });
        proof {
            assert(env_model(env@) =~= spec_session_env(env_model(self.bindings@), pk@, pred@));
        }
        env
    }

    /// Renders the document for the given predecessor pair and takes the
    /// corresponding transition.
    fn render_document(&mut self, pk: &str, pred: &str) -> (a: Action)
        ensures
            spec_frame(*old(self), *final(self)),
            spec_rendered(*old(self), *final(self), a, pk@, pred@),
    {
        let env = self.session_env(pk, pred);
        match render(self.template.as_str(), &env) {
            Ok(d) => {
                self.doc = d;
                self.phase = Phase::AwaitCheck;
                Action::Check { doc: self.doc.clone() }
            },
            Err(_) => {
                self.phase = Phase::Aborted;
                self.failure = PolicyError::TemplateError;
                Action::Fail { err: PolicyError::TemplateError }
            },
        }
    }

    /// Begins reconciliation.
    ///
    /// Idempotence of reconciliation: when the hash is already known and
    /// the caller does not force, the session is reported as-is and no
    /// remote call of any kind is requested.
    pub fn start(&mut self) -> (a: Action)
        requires
            old(self).phase is Unknown,
        ensures
            spec_frame(*old(self), *final(self)),
            old(self).last_hash@.len() > 0 && !old(self).force ==> {
                &&& final(self).phase is Committed
                &&& final(self).result_hash@ == old(self).last_hash@
                &&& a matches Action::Finish { hash } && hash@ == old(self).last_hash@
            },
            old(self).last_hash@.len() == 0 || old(self).force ==> {
                &&& final(self).phase is AwaitRead
                &&& a matches Action::Read { name } && name@ == old(self).name@
            },
    {
        if !self.last_hash.as_str().is_empty() && !self.force {
            self.result_hash = self.last_hash.clone();
            self.phase = Phase::Committed;
            Action::Finish { hash: self.last_hash.clone() }
        } else {
            self.phase = Phase::AwaitRead;
            Action::Read { name: self.name.clone() }
        }
    }

    /// Absorbs the outcome of the read.  A failed read is not an error: the
    /// session is taken to not exist yet, creation becomes mandatory, and
    /// the document chains to no predecessor.
    pub fn on_read(&mut self, ok: bool) -> (a: Action)
        requires
            old(self).phase is AwaitRead,
        ensures
            spec_frame(*old(self), *final(self)),
            ok ==> final(self).phase is AwaitVerify && a is Verify,
            !ok ==> spec_rendered(*old(self), *final(self), a, "#"@, ""@),
    {
        if ok {
            self.phase = Phase::AwaitVerify;
            Action::Verify
        } else {
            self.render_document("#", "")
        }
    }

    /// Absorbs the outcome of the verification.  On success `hash` is the
    /// verified hash: it becomes the predecessor if creation is forced,
    /// and otherwise it simply refreshes the local hash with no further
    /// remote traffic.  On failure the reconciliation aborts and the last
    /// known hash stays untouched, so a retry remains possible.
    pub fn on_verify(&mut self, ok: bool, hash: String) -> (a: Action)
        requires
            old(self).phase is AwaitVerify,
        ensures
            spec_frame(*old(self), *final(self)),
            !ok ==> {
                &&& final(self).phase is Aborted
                &&& final(self).failure == PolicyError::SessionVerifyFailed
                &&& a matches Action::Fail { err } && err == PolicyError::SessionVerifyFailed
            },
            ok && !old(self).force ==> {
                &&& final(self).phase is Committed
                &&& final(self).result_hash@ == hash@
                &&& a matches Action::Finish { hash: h } && h@ == hash@
            },
            ok && old(self).force ==> spec_rendered(
                *old(self),
                *final(self),
                a,
                "predecessor"@,
                hash@,
            ),
    {
        if !ok {
            self.phase = Phase::Aborted;
            self.failure = PolicyError::SessionVerifyFailed;
            Action::Fail { err: PolicyError::SessionVerifyFailed }
        } else if !self.force {
            self.result_hash = hash.clone();
            self.phase = Phase::Committed;
            Action::Finish { hash }
        } else {
            self.render_document("predecessor", hash.as_str())
        }
    }

    /// Absorbs the outcome of the dry-run check.  A failed check aborts
    /// without any state mutation; a passed check moves on to the commit.
    pub fn on_check(&mut self, ok: bool) -> (a: Action)
        requires
            old(self).phase is AwaitCheck,
        ensures
            spec_frame(*old(self), *final(self)),
            ok ==> {
                &&& final(self).phase is AwaitCreate
                &&& final(self).doc@ == old(self).doc@
                &&& a matches Action::Create { doc } && doc@ == old(self).doc@
            },
            !ok ==> {
                &&& final(self).phase is Aborted
                &&& final(self).failure == PolicyError::TemplateInvalid
                &&& a matches Action::Fail { err } && err == PolicyError::TemplateInvalid
            },
    {
        if ok {
            self.phase = Phase::AwaitCreate;
            Action::Create { doc: self.doc.clone() }
        } else {
            self.phase = Phase::Aborted;
            self.failure = PolicyError::TemplateInvalid;
            Action::Fail { err: PolicyError::TemplateInvalid }
        }
    }

    /// Absorbs the outcome of the commit.  On success the returned hash is
    /// the session's new confirmed hash; on failure the reconciliation
    /// aborts and the last known hash stays untouched.
    pub fn on_create(&mut self, ok: bool, hash: String) -> (a: Action)
        requires
            old(self).phase is AwaitCreate,
        ensures
            spec_frame(*old(self), *final(self)),
            ok ==> {
                &&& final(self).phase is Committed
                &&& final(self).result_hash@ == hash@
                &&& a matches Action::Finish { hash: h } && h@ == hash@
            },
            !ok ==> {
                &&& final(self).phase is Aborted
                &&& final(self).failure == PolicyError::SessionCreateFailed
                &&& a matches Action::Fail { err } && err == PolicyError::SessionCreateFailed
            },
    {
        if ok {
            self.result_hash = hash.clone();
            self.phase = Phase::Committed;
            Action::Finish { hash }
        } else {
            self.phase = Phase::Aborted;
            self.failure = PolicyError::SessionCreateFailed;
            Action::Fail { err: PolicyError::SessionCreateFailed }
        }
    }
}

} // verus!
