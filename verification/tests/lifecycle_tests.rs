use scone_policies::errors::PolicyError;
use scone_policies::lifecycle::{Coordinator, Pass};
use scone_policies::session::{Action, Phase, Reconciler};
use scone_policies::state::State;

const NS_T: &str = "name: {{namespace}}\n{{predecessor_key}}: {{predecessor}}\n";
const P_T: &str = "name: {{session}}\n{{predecessor_key}}: {{predecessor}}\nvolume: single_run_{{volume_version}}\nsecret: {{secret}}\nexport: {{session2}}\n";
const S_T: &str = "name: {{session2}}\n{{predecessor_key}}: {{predecessor}}\nimport: {{session}}\nmeasured: {{mrenclave}}\n";

/// A scripted session store: fixed outcomes, counted calls.
struct FakeStore {
    measure: Option<String>,
    read_ok: bool,
    verify_ok: bool,
    verify_hash: String,
    check_ok: bool,
    create_ok: bool,
    create_hashes: Vec<String>,
    reads: usize,
    verifies: usize,
    checks: usize,
    creates: usize,
    docs: Vec<String>,
}

impl FakeStore {
    fn new() -> FakeStore {
        FakeStore {
            measure: Some("MRE".to_string()),
            read_ok: false,
            verify_ok: true,
            verify_hash: "VH".to_string(),
            check_ok: true,
            create_ok: true,
            create_hashes: Vec::new(),
            reads: 0,
            verifies: 0,
            checks: 0,
            creates: 0,
            docs: Vec::new(),
        }
    }

    fn mutating_calls(&self) -> usize {
        self.creates
    }
}

fn drive(rec: &mut Reconciler, store: &mut FakeStore) -> Result<String, PolicyError> {
    let mut action = rec.start();
    loop {
        match action {
            Action::Read { .. } => {
                store.reads += 1;
                action = rec.on_read(store.read_ok);
            }
            Action::Verify => {
                store.verifies += 1;
                action = rec.on_verify(store.verify_ok, store.verify_hash.clone());
            }
            Action::Check { doc } => {
                store.checks += 1;
                store.docs.push(doc);
                action = rec.on_check(store.check_ok);
            }
            Action::Create { .. } => {
                store.creates += 1;
                let h = store.create_hashes.remove(0);
                action = rec.on_create(store.create_ok, h);
            }
            Action::Finish { hash } => return Ok(hash),
            Action::Fail { err } => return Err(err),
        }
    }
}

fn run_pass(
    state: State,
    force: bool,
    store: &mut FakeStore,
    ns_t: &str,
) -> Result<State, (PolicyError, State)> {
    let mut c = Coordinator::new(
        state,
        force,
        ns_t.to_string(),
        P_T.to_string(),
        S_T.to_string(),
    );
    if c.measurement_needed() {
        c.absorb_measurement(store.measure.clone());
    } else {
        c.skip_measurement();
    }
    if c.phase == Pass::Aborted {
        return Err((c.failure, c.state));
    }
    let mut r = c.namespace_reconciler();
    let outcome = drive(&mut r, store);
    c.absorb_namespace(outcome);
    if c.phase == Pass::Aborted {
        return Err((c.failure, c.state));
    }
    let mut r = c.primary_reconciler();
    let outcome = drive(&mut r, store);
    c.absorb_primary(outcome);
    if c.phase == Pass::Aborted {
        return Err((c.failure, c.state));
    }
    let mut r = c.secondary_reconciler();
    let outcome = drive(&mut r, store);
    c.absorb_secondary(outcome);
    if c.phase == Pass::Aborted {
        return Err((c.failure, c.state));
    }
    Ok(c.into_state())
}

fn fresh() -> State {
    State::fresh(
        "testns".to_string(),
        "alice".to_string(),
        "SECRET0".to_string(),
        "/otpqr-x",
        "/otpqr-reset",
        "SCONE OTP",
    )
}

#[test]
fn skip_path_requests_no_remote_call() {
    let mut rec = Reconciler::new(
        "n/s".to_string(),
        "KNOWN".to_string(),
        false,
        P_T.to_string(),
        Vec::new(),
    );
    let a = rec.start();
    assert!(matches!(a, Action::Finish { hash } if hash == "KNOWN"));
    assert_eq!(rec.phase, Phase::Committed);
}

#[test]
fn read_and_verify_refresh_the_hash_without_creation() {
    let mut store = FakeStore::new();
    store.read_ok = true;
    store.verify_hash = "REMOTE".to_string();
    let mut rec = Reconciler::new(
        "n/s".to_string(),
        String::new(),
        false,
        P_T.to_string(),
        Vec::new(),
    );
    let r = drive(&mut rec, &mut store);
    assert_eq!(r.unwrap(), "REMOTE");
    assert_eq!(store.reads, 1);
    assert_eq!(store.verifies, 1);
    assert_eq!(store.checks, 0);
    assert_eq!(store.creates, 0);
}

#[test]
fn template_error_aborts_before_any_check() {
    let mut store = FakeStore::new();
    let mut rec = Reconciler::new(
        "n/s".to_string(),
        String::new(),
        false,
        "refers to {{undefined_key}}".to_string(),
        Vec::new(),
    );
    let r = drive(&mut rec, &mut store);
    assert_eq!(r, Err(PolicyError::TemplateError));
    assert_eq!(store.checks, 0);
    assert_eq!(store.creates, 0);
    assert_eq!(rec.last_hash, "");
}

#[test]
fn first_run_creates_all_three_sessions() {
    let mut store = FakeStore::new();
    store.create_hashes = vec!["HN".to_string(), "H1".to_string(), "H2".to_string()];
    let s = run_pass(fresh(), false, &mut store, NS_T).unwrap();

    assert_eq!(s.namespace_hash, "HN");
    assert_eq!(s.session_hash, "H1");
    assert_eq!(s.session_hash2, "H2");
    assert_eq!(s.mrenclave, "MRE");
    assert_eq!(s.volume_version, 0);
    assert_eq!(s.session_version, 0);
    assert_eq!(s.session_version2, 0);
    // every session was created, none was read successfully or verified
    assert_eq!(store.reads, 3);
    assert_eq!(store.verifies, 0);
    assert_eq!(store.checks, 3);
    assert_eq!(store.creates, 3);
    // the namespace document chained to no predecessor
    assert_eq!(store.docs[0], "name: testns\n#: \n");
    // the dependent documents carried the rotation-versioned names
    assert!(store.docs[1].contains("volume: single_run_0"));
    assert!(store.docs[2].contains("measured: MRE"));
}

#[test]
fn rerun_after_success_is_a_noop() {
    let mut store = FakeStore::new();
    store.create_hashes = vec!["HN".to_string(), "H1".to_string(), "H2".to_string()];
    let s1 = run_pass(fresh(), false, &mut store, NS_T).unwrap();

    let mut store2 = FakeStore::new();
    let s2 = run_pass(s1.clone(), false, &mut store2, NS_T).unwrap();
    assert_eq!(s2, s1);
    assert_eq!(store2.reads, 0);
    assert_eq!(store2.verifies, 0);
    assert_eq!(store2.checks, 0);
    assert_eq!(store2.mutating_calls(), 0);
}

#[test]
fn roll_forward_recreates_both_dependent_sessions() {
    let mut store = FakeStore::new();
    store.create_hashes = vec!["HN".to_string(), "H1".to_string(), "H2".to_string()];
    let mut s = run_pass(fresh(), false, &mut store, NS_T).unwrap();

    s.roll_forward("SECRET1".to_string());
    assert_eq!(s.volume_version, 1);
    assert_eq!(s.secret, "SECRET1");

    let mut store2 = FakeStore::new();
    store2.read_ok = true;
    store2.verify_hash = "OLDHASH".to_string();
    store2.create_hashes = vec!["X1".to_string(), "X2".to_string()];
    let s2 = run_pass(s, false, &mut store2, NS_T).unwrap();

    assert_eq!(s2.volume_version, 1);
    assert_eq!(s2.session_version, 1);
    assert_eq!(s2.session_version2, 1);
    assert_eq!(s2.secret, "SECRET1");
    assert_eq!(s2.session_hash, "X1");
    assert_eq!(s2.session_hash2, "X2");
    // the namespace was current and untouched
    assert_eq!(s2.namespace_hash, "HN");
    assert_eq!(store2.creates, 2);
    assert_eq!(store2.reads, 2);
    assert_eq!(store2.verifies, 2);
    // the recreated documents referenced the rotated volume name and
    // chained to the verified predecessor
    assert!(store2.docs[0].contains("volume: single_run_1"));
    assert!(store2.docs[0].contains("predecessor: OLDHASH"));
}

#[test]
fn measurement_failure_aborts_before_any_session_traffic() {
    let before = fresh();
    let mut store = FakeStore::new();
    store.measure = None;
    let (err, after) = run_pass(before.clone(), false, &mut store, NS_T).unwrap_err();
    assert_eq!(err, PolicyError::MeasurementFailed);
    assert_eq!(after, before);
    assert_eq!(store.reads, 0);
    assert_eq!(store.mutating_calls(), 0);
}

#[test]
fn verify_failure_leaves_the_record_untouched() {
    let mut store = FakeStore::new();
    store.create_hashes = vec!["HN".to_string(), "H1".to_string(), "H2".to_string()];
    let before = run_pass(fresh(), false, &mut store, NS_T).unwrap();

    let mut store2 = FakeStore::new();
    store2.read_ok = true;
    store2.verify_ok = false;
    let (err, after) = run_pass(before.clone(), true, &mut store2, NS_T).unwrap_err();
    assert_eq!(err, PolicyError::SessionVerifyFailed);
    assert_eq!(after, before);
    assert_eq!(store2.mutating_calls(), 0);
}

#[test]
fn check_failure_leaves_the_record_untouched() {
    let mut store = FakeStore::new();
    store.create_hashes = vec!["HN".to_string(), "H1".to_string(), "H2".to_string()];
    let before = run_pass(fresh(), false, &mut store, NS_T).unwrap();

    let mut store2 = FakeStore::new();
    store2.read_ok = true;
    store2.check_ok = false;
    let (err, after) = run_pass(before.clone(), true, &mut store2, NS_T).unwrap_err();
    assert_eq!(err, PolicyError::TemplateInvalid);
    assert_eq!(after, before);
    assert_eq!(store2.mutating_calls(), 0);
}

#[test]
fn create_failure_leaves_the_record_untouched() {
    let mut store = FakeStore::new();
    store.create_hashes = vec!["HN".to_string(), "H1".to_string(), "H2".to_string()];
    let before = run_pass(fresh(), false, &mut store, NS_T).unwrap();

    let mut store2 = FakeStore::new();
    store2.read_ok = true;
    store2.create_ok = false;
    store2.create_hashes = vec!["IGNORED".to_string()];
    let (err, after) = run_pass(before.clone(), true, &mut store2, NS_T).unwrap_err();
    assert_eq!(err, PolicyError::SessionCreateFailed);
    assert_eq!(after, before);
}
