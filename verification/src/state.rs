use vstd::prelude::*;

use crate::numeral::{spec_decimal, u64_to_decimal};
use crate::platform::{current_username, fresh_secret, random_name};
use crate::template::{env_model, Binding, BindingModel};

verus! {

/// First-use initialization: a type constructs its own starting value
/// when nothing was persisted yet.
pub trait Init: Sized {
    fn new() -> Self;
}

/// The persisted policy state record, one per working directory.
///
/// `namespace` is the root of the session hierarchy; `session` and
/// `session2` are the fully-qualified names of its two dependent sessions.
/// Each `*_hash` field holds the last remote content hash the store
/// confirmed, with the empty string meaning "unknown / never created".
/// `volume_version` is the rotation counter; `session_version` and
/// `session_version2` record which rotation each dependent session was
/// last created under, and any mismatch mandates recreation.
#[derive(Clone, Debug, PartialEq, Eq)]
pub struct State {
    pub namespace: String,
    pub namespace_hash: String,
    pub session: String,
    pub session_hash: String,
    pub session_version: u64,
    pub session2: String,
    pub session_hash2: String,
    pub session_version2: u64,
    pub mrenclave: String,
    pub volume_version: u64,
    pub otp_image: String,
    pub otp_binary: String,
    pub scone_user: String,
    pub scone_account: String,
    pub secret: String,
}

/// The mathematical content of a state record.
#[verifier::ext_equal]
pub struct StateModel {
    pub namespace: Seq<char>,
    pub namespace_hash: Seq<char>,
    pub session: Seq<char>,
    pub session_hash: Seq<char>,
    pub session_version: u64,
    pub session2: Seq<char>,
    pub session_hash2: Seq<char>,
    pub session_version2: u64,
    pub mrenclave: Seq<char>,
    pub volume_version: u64,
    pub otp_image: Seq<char>,
    pub otp_binary: Seq<char>,
    pub scone_user: Seq<char>,
    pub scone_account: Seq<char>,
    pub secret: Seq<char>,
}

impl View for State {
    type V = StateModel;

    open spec fn view(&self) -> StateModel {
        StateModel {
            namespace: self.namespace@,
            namespace_hash: self.namespace_hash@,
            session: self.session@,
            session_hash: self.session_hash@,
            session_version: self.session_version,
            session2: self.session2@,
            session_hash2: self.session_hash2@,
            session_version2: self.session_version2,
            mrenclave: self.mrenclave@,
            volume_version: self.volume_version,
            otp_image: self.otp_image@,
            otp_binary: self.otp_binary@,
            scone_user: self.scone_user@,
            scone_account: self.scone_account@,
            secret: self.secret@,
        }
    }
}

/// A session version never runs ahead of the rotation counter: each is set
/// only to the counter's current value, and the counter only grows.
pub open spec fn spec_wf(s: StateModel) -> bool {
    &&& s.session_version <= s.volume_version
    &&& s.session_version2 <= s.volume_version
}

/// The record produced on first use, before any remote traffic: no hash,
/// no measurement, every version counter at zero.
pub open spec fn spec_fresh(
    ns: Seq<char>,
    user: Seq<char>,
    secret: Seq<char>,
    suffix: Seq<char>,
    suffix2: Seq<char>,
    account: Seq<char>,
) -> StateModel {
    StateModel {
        namespace: ns,
        namespace_hash: Seq::empty(),
        session: ns + suffix,
        session_hash: Seq::empty(),
        session_version: 0,
        session2: ns + suffix2,
        session_hash2: Seq::empty(),
        session_version2: 0,
        mrenclave: Seq::empty(),
        volume_version: 0,
        otp_image: "otpqr:scone"@,
        otp_binary: "/bin/otpqr"@,
        scone_user: user,
        scone_account: account,
        secret,
    }
}

/// Caching the attestation measurement touches nothing else.
pub open spec fn spec_with_measurement(s: StateModel, m: Seq<char>) -> StateModel {
    StateModel { mrenclave: m, ..s }
}

/// A confirmed namespace hash touches nothing else.
pub open spec fn spec_commit_namespace(s: StateModel, h: Seq<char>) -> StateModel {
    StateModel { namespace_hash: h, ..s }
}

/// A confirmed primary-session hash also marks the session as current for
/// the present rotation.
pub open spec fn spec_commit_primary(s: StateModel, h: Seq<char>) -> StateModel {
    StateModel { session_hash: h, session_version: s.volume_version, ..s }
}

/// A confirmed secondary-session hash also marks the session as current
/// for the present rotation.
pub open spec fn spec_commit_secondary(s: StateModel, h: Seq<char>) -> StateModel {
    StateModel { session_hash2: h, session_version2: s.volume_version, ..s }
}

/// A secret rotation: the counter moves up by exactly one and the secret
/// is replaced unconditionally; nothing else changes.
pub open spec fn spec_rolled(s: StateModel, secret: Seq<char>) -> StateModel {
    StateModel { volume_version: (s.volume_version + 1) as u64, secret, ..s }
}

/// The measurement is recomputed exactly when it is unknown or the caller
/// forces it.
pub open spec fn spec_measure_needed(s: StateModel, force: bool) -> bool {
    s.mrenclave.len() == 0 || force
}

/// The primary session must be (re)created when forced or when its version
/// has drifted from the rotation counter.
pub open spec fn spec_need_create(s: StateModel, force: bool) -> bool {
    force || s.session_version != s.volume_version
}

/// The secondary session must be (re)created when the primary was, or when
/// its own version has drifted: drift propagates forward because the
/// secondary imports a resource exported by the primary.
pub open spec fn spec_need_create2(s: StateModel, need: bool) -> bool {
    need || s.session_version2 != s.volume_version
}

/// The binding environment handed to the template renderer: every field of
/// the record by its own name, version counters as decimal numerals.
pub open spec fn spec_state_env(s: StateModel) -> Seq<BindingModel> {
    seq![
        BindingModel { key: "namespace"@, value: s.namespace },
        BindingModel { key: "namespace_hash"@, value: s.namespace_hash },
        BindingModel { key: "session"@, value: s.session },
        BindingModel { key: "session_hash"@, value: s.session_hash },
        BindingModel { key: "session_version"@, value: spec_decimal(s.session_version as int) },
        BindingModel { key: "session2"@, value: s.session2 },
        BindingModel { key: "session_hash2"@, value: s.session_hash2 },
        BindingModel { key: "session_version2"@, value: spec_decimal(s.session_version2 as int) },
        BindingModel { key: "mrenclave"@, value: s.mrenclave },
        BindingModel { key: "volume_version"@, value: spec_decimal(s.volume_version as int) },
        BindingModel { key: "otp_image"@, value: s.otp_image },
        BindingModel { key: "otp_binary"@, value: s.otp_binary },
        BindingModel { key: "scone_user"@, value: s.scone_user },
        BindingModel { key: "scone_account"@, value: s.scone_account },
        BindingModel { key: "secret"@, value: s.secret },
    ]
}

fn bind(key: &str, value: String) -> (b: Binding)
    ensures
        b@ == (BindingModel { key: key@, value: value@ }),
{
    Binding { key: key.to_owned(), value }
}

impl Init for State {
    /// The randomized default record of the OTP policy manager: a random
    /// 20-letter namespace, the current user's name (or a random one when
    /// the system knows none), a fresh encoded secret, and the fixed
    /// session suffixes under the namespace.
    fn new() -> State {
        State::fresh_default("/otpqr-x", "/otpqr-reset", "SCONE OTP")
    }
}

impl State {
    /// A session version never runs ahead of the rotation counter.
    pub open spec fn wf(self) -> bool {
        spec_wf(self@)
    }

    /// Builds the record used on first run, before any remote traffic:
    /// dependent session names chained under the namespace, no hashes, no
    /// measurement, all version counters at zero.
    pub fn fresh(
        namespace: String,
        user: String,
        secret: String,
        suffix: &str,
        suffix2: &str,
        account: &str,
    ) -> (s: State)
        ensures
            s@ == spec_fresh(namespace@, user@, secret@, suffix@, suffix2@, account@),
            s.wf(),
    {
        let session = namespace.clone().concat(suffix);
        let session2 = namespace.clone().concat(suffix2);
        State {
            namespace,
            namespace_hash: String::new(),
            session,
            session_hash: String::new(),
            session_version: 0,
            session2,
            session_hash2: String::new(),
            session_version2: 0,
            mrenclave: String::new(),
            volume_version: 0,
            otp_image: "otpqr:scone".to_owned(),
            otp_binary: "/bin/otpqr".to_owned(),
            scone_user: user,
            scone_account: account.to_owned(),
            secret,
        }
    }

    /// The freshly randomized default record used when nothing was
    /// persisted yet: a random 20-letter namespace, the current user's
    /// name (or a random one when the system knows none), a fresh
    /// encoded secret, and the dependent session names chained under the
    /// namespace.  Everything not randomized is pinned.
    pub fn fresh_default(suffix: &str, suffix2: &str, account: &str) -> (s: State)
        ensures
            s@.namespace.len() == 20,
            s@.namespace_hash.len() == 0,
            s@.session == s@.namespace + suffix@,
            s@.session_hash.len() == 0,
            s@.session_version == 0,
            s@.session2 == s@.namespace + suffix2@,
            s@.session_hash2.len() == 0,
            s@.session_version2 == 0,
            s@.mrenclave.len() == 0,
            s@.volume_version == 0,
            s@.otp_image == "otpqr:scone"@,
            s@.otp_binary == "/bin/otpqr"@,
            s@.scone_account == account@,
            s@.secret.len() == 52,
            s.wf(),
    {
        let ns = random_name(20);
        let user = match current_username() {
            Some(u) => u,
            None => random_name(10),
        };
        let secret = fresh_secret();
        State::fresh(ns, user, secret, suffix, suffix2, account)
    }

    /// True exactly when the measurement must be (re)taken: it is unknown,
    /// or the caller forces a refresh.
    pub fn needs_measurement(&self, force: bool) -> (r: bool)
        ensures
            r == spec_measure_needed(self@, force),
    {
        self.mrenclave.as_str().is_empty() || force
    }

    /// Caches a freshly taken measurement; never a partial update.
    pub fn set_measurement(&mut self, m: String)
        ensures
            final(self)@ == spec_with_measurement(old(self)@, m@),
    {
        self.mrenclave = m;
    }

    /// True exactly when the primary session must be (re)created.
    pub fn need_create(&self, force: bool) -> (r: bool)
        ensures
            r == spec_need_create(self@, force),
    {
        force || self.session_version != self.volume_version
    }

    /// True exactly when the secondary session must be (re)created, given
    /// whether the primary was.
    pub fn need_create2(&self, need: bool) -> (r: bool)
        ensures
            r == spec_need_create2(self@, need),
    {
        need || self.session_version2 != self.volume_version
    }

    /// Records the hash the store confirmed for the namespace session.
    pub fn commit_namespace(&mut self, h: String)
        ensures
            final(self)@ == spec_commit_namespace(old(self)@, h@),
    {
        self.namespace_hash = h;
    }

    /// Records the hash the store confirmed for the primary session and
    /// marks it current for the present rotation.
    pub fn commit_primary(&mut self, h: String)
        ensures
            final(self)@ == spec_commit_primary(old(self)@, h@),
            old(self).wf() ==> final(self).wf(),
    {
        self.session_hash = h;
        self.session_version = self.volume_version;
    }

    /// Records the hash the store confirmed for the secondary session and
    /// marks it current for the present rotation.
    pub fn commit_secondary(&mut self, h: String)
        ensures
            final(self)@ == spec_commit_secondary(old(self)@, h@),
            old(self).wf() ==> final(self).wf(),
    {
        self.session_hash2 = h;
        self.session_version2 = self.volume_version;
    }

    /// Begins a secret rotation: moves the rotation counter up by exactly
    /// one and replaces the secret unconditionally, so a completed
    /// roll-forward can never reuse the previous secret.
    pub fn roll_forward(&mut self, new_secret: String)
        requires
            old(self)@.volume_version < u64::MAX,
        ensures
            final(self)@ == spec_rolled(old(self)@, new_secret@),
            old(self).wf() ==> final(self).wf(),
    {
        self.volume_version = self.volume_version + 1;
        self.secret = new_secret;
    }

    /// The binding environment for rendering this record's templates.
    pub fn bindings(&self) -> (env: Vec<Binding>)
        ensures
            env_model(env@) == spec_state_env(self@),
    {
        let mut env: Vec<Binding> = Vec::new();
        env.push(bind("namespace", self.namespace.clone()));
        env.push(bind("namespace_hash", self.namespace_hash.clone()));
        env.push(bind("session", self.session.clone()));
        env.push(bind("session_hash", self.session_hash.clone()));
        env.push(bind("session_version", u64_to_decimal(self.session_version)));
        env.push(bind("session2", self.session2.clone()));
        env.push(bind("session_hash2", self.session_hash2.clone()));
        env.push(bind("session_version2", u64_to_decimal(self.session_version2)));
        env.push(bind("mrenclave", self.mrenclave.clone()));
        env.push(bind("volume_version", u64_to_decimal(self.volume_version)));
        env.push(bind("otp_image", self.otp_image.clone()));
        env.push(bind("otp_binary", self.otp_binary.clone()));
        env.push(bind("scone_user", self.scone_user.clone()));
        env.push(bind("scone_account", self.scone_account.clone()));
        env.push(bind("secret", self.secret.clone()));
        proof {
            assert(env_model(env@) =~= spec_state_env(self@));
        }
        env
    }
}

} // verus!
