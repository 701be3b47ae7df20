use minibox::RunError;
use minibox::isolate::DevState;
use minibox::isolate::PrepareStep;
use minibox::isolate::prepare_steps;
use minibox::orchestrator::Phase;
use minibox::orchestrator::RunState;
use minibox::registry::LayerRef;
use minibox::registry::Manifest;
use minibox::registry::manifest_media_type;

#[test]
fn bare_root_needs_both_stubs() {
    let steps = prepare_steps(DevState { dev_dir: false, dev_null: false });
    assert_eq!(steps, vec![PrepareStep::CreateDevDir, PrepareStep::CreateDevNull]);
}

#[test]
fn existing_dev_dir_is_not_recreated() {
    let steps = prepare_steps(DevState { dev_dir: true, dev_null: false });
    assert_eq!(steps, vec![PrepareStep::CreateDevNull]);
}

#[test]
fn prepare_twice_is_a_no_op() {
    let prepared = DevState { dev_dir: true, dev_null: true };
    let steps = prepare_steps(prepared);
    assert!(steps.is_empty());
}

fn run_at_need_prepare() -> RunState {
    let mut st = RunState::new("alpine:latest", String::from("/bin/echo"), Vec::new());
    st.provide_token(Some(String::from("tok"))).unwrap();
    st.provide_manifest(Some(Manifest { media_type: manifest_media_type(), layers: Vec::new() }))
        .unwrap();
    assert_eq!(st.phase, Phase::NeedPrepare);
    st
}

#[test]
fn confinement_is_refused_without_dev_null() {
    let mut st = run_at_need_prepare();
    let r = st.provide_prepared(DevState { dev_dir: true, dev_null: false });
    assert_eq!(r, Err(RunError::Isolation));
    assert_eq!(st.phase, Phase::Failed);
}

#[test]
fn confinement_is_refused_without_dev_dir() {
    let mut st = run_at_need_prepare();
    let r = st.provide_prepared(DevState { dev_dir: false, dev_null: true });
    assert_eq!(r, Err(RunError::Isolation));
    assert_eq!(st.phase, Phase::Failed);
}

#[test]
fn prepared_root_reaches_confinement() {
    let mut st = run_at_need_prepare();
    st.provide_prepared(DevState { dev_dir: true, dev_null: true }).unwrap();
    assert_eq!(st.phase, Phase::NeedConfine);
    assert!(st.dev_ready);
}

#[test]
fn failed_confinement_ends_the_run() {
    let mut st = run_at_need_prepare();
    st.provide_prepared(DevState { dev_dir: true, dev_null: true }).unwrap();
    let r = st.provide_confined(false);
    assert_eq!(r, Err(RunError::Isolation));
    assert_eq!(st.phase, Phase::Failed);
}

#[test]
fn failed_unshare_only_warns() {
    let mut st = run_at_need_prepare();
    st.provide_prepared(DevState { dev_dir: true, dev_null: true }).unwrap();
    st.provide_confined(true).unwrap();
    let warned = st.provide_unshared(false);
    assert!(warned);
    assert_eq!(st.phase, Phase::NeedSpawn);
}

#[test]
fn layer_refs_keep_their_digest() {
    let l = LayerRef { digest: String::from("sha256:0123") };
    assert_eq!(l.digest, "sha256:0123");
}
