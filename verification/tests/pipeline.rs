//! The whole planning pipeline: archive-name validation, per-file invocation
//! layout, object discovery, and outcome classification.

use rispc::discovery::{discovered_objects, object_candidates};
use rispc::{classify_outcome, compile_library, BuildError, Config, Env, SpawnOutcome};

fn full_env() -> Env {
    Env {
        ispc: None,
        opt_level: Some("2".to_string()),
        profile: Some("release".to_string()),
        target: Some("x86_64-pc-linux".to_string()),
        out_dir: Some("/out".to_string()),
    }
}

#[test]
fn bad_archive_name_is_rejected_before_anything_else() {
    let mut c = Config::new();
    c.file("src/foo.ispc");
    // even with an unusable environment the name check comes first
    let env = Env { ispc: None, opt_level: None, profile: None, target: None, out_dir: None };
    assert!(matches!(
        c.compile_plan(&env, "notlib.a"),
        Err(BuildError::ConfigurationError(_))
    ));
    assert!(matches!(
        c.compile_plan(&env, "libfoo.so"),
        Err(BuildError::ConfigurationError(_))
    ));
    assert!(matches!(
        c.compile_plan(&env, ""),
        Err(BuildError::ConfigurationError(_))
    ));
}

#[test]
fn archive_name_check() {
    assert!(rispc::check_output_name("libfoo.a"));
    assert!(rispc::check_output_name("lib.a"));
    assert!(!rispc::check_output_name("notlib.a"));
    assert!(!rispc::check_output_name("libfoo.so"));
    assert!(!rispc::check_output_name("lib"));
    assert!(!rispc::check_output_name(""));
}

#[test]
fn missing_out_dir_is_environment_error() {
    let mut env = full_env();
    env.out_dir = None;
    let mut c = Config::new();
    c.file("src/foo.ispc");
    assert!(matches!(
        c.compile_plan(&env, "libfoo.a"),
        Err(BuildError::EnvironmentError(_))
    ));
}

#[test]
fn plan_lays_out_one_step_per_file() {
    let mut c = Config::new();
    c.file("src/a.ispc");
    c.file("src/b.ispc");
    let plan = c.compile_plan(&full_env(), "libfoo.a").unwrap();
    assert_eq!(plan.output, "libfoo.a");
    assert_eq!(plan.steps.len(), 2);

    let step = &plan.steps[0];
    assert_eq!(step.source, "src/a.ispc");
    assert_eq!(step.object, "/out/src/a.o");
    assert_eq!(step.invocation.path, "ispc");
    let n = step.invocation.args.len();
    assert_eq!(step.invocation.args[n - 3], "src/a.ispc");
    assert_eq!(step.invocation.args[n - 2], "-o");
    assert_eq!(step.invocation.args[n - 1], "/out/src/a.o");
    assert_eq!(
        step.candidates,
        vec![
            "/out/src/a.o",
            "/out/src/a_sse2.o",
            "/out/src/a_sse4.o",
            "/out/src/a_avx.o",
            "/out/src/a_avx11.o",
            "/out/src/a_avx2.o",
        ]
    );

    assert_eq!(plan.steps[1].object, "/out/src/b.o");
}

#[test]
fn compile_library_builds_default_plan() {
    let plan = compile_library("libm.a", &["src/m.ispc"], &full_env()).unwrap();
    assert_eq!(plan.steps.len(), 1);
    assert_eq!(plan.steps[0].source, "src/m.ispc");
    assert!(matches!(
        compile_library("m.a", &["src/m.ispc"], &full_env()),
        Err(BuildError::ConfigurationError(_))
    ));
}

#[test]
fn discovery_keeps_exactly_what_exists() {
    let cands = object_candidates("foo.o", "foo");
    assert_eq!(
        cands,
        vec!["foo.o", "foo_sse2.o", "foo_sse4.o", "foo_avx.o", "foo_avx11.o", "foo_avx2.o"]
    );
    // only foo_sse2.o and foo_avx.o exist on disk
    let found = vec![false, true, false, true, false, false];
    let objs = discovered_objects(&cands, &found);
    assert_eq!(objs, vec!["foo_sse2.o", "foo_avx.o"]);
}

#[test]
fn discovery_of_nothing_is_empty() {
    let cands = object_candidates("x.o", "x");
    let found = vec![false; 6];
    assert_eq!(discovered_objects(&cands, &found).len(), 0);
}

#[test]
fn tool_not_launched_classifies_as_not_found() {
    let r = classify_outcome(SpawnOutcome::NotLaunched);
    assert!(matches!(r, Err(BuildError::ToolNotFoundError(_))));
}

#[test]
fn nonzero_exit_carries_status_and_streams() {
    let r = classify_outcome(SpawnOutcome::Finished {
        success: false,
        code: Some(3),
        stdout: "partial".to_string(),
        stderr: "syntax error".to_string(),
    });
    match r {
        Err(BuildError::ToolExecutionError { code, stdout, stderr }) => {
            assert_eq!(code, Some(3));
            assert_eq!(stdout, "partial");
            assert_eq!(stderr, "syntax error");
        }
        other => panic!("unexpected classification: {:?}", other),
    }
}

#[test]
fn zero_exit_is_success() {
    let r = classify_outcome(SpawnOutcome::Finished {
        success: true,
        code: Some(0),
        stdout: String::new(),
        stderr: String::new(),
    });
    assert!(r.is_ok());
}
