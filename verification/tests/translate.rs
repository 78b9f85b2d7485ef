//! The configuration-to-arguments translation, checked against concrete
//! environments and option sets.

use rispc::{Addr, Arch, Config, Cpu, Env, Math, Target};

fn env_release_x64() -> Env {
    Env {
        ispc: None,
        opt_level: Some("2".to_string()),
        profile: Some("release".to_string()),
        target: Some("x86_64-pc-linux".to_string()),
        out_dir: Some("/out".to_string()),
    }
}

fn env_debug_x86() -> Env {
    Env {
        ispc: None,
        opt_level: Some("2".to_string()),
        profile: Some("debug".to_string()),
        target: Some("i686-pc-linux".to_string()),
        out_dir: Some("/out".to_string()),
    }
}

#[test]
fn scenario_release_x64_defaults() {
    let mut c = Config::new();
    c.file("src/foo.ispc");
    let env = env_release_x64();
    let t = c.basic_tool(&env).unwrap();
    assert_eq!(t.path, "ispc");
    let expected = vec![
        "--arch=x86_64",
        "--colored-output",
        "--emit-obj",
        "--math-lib=default",
        "-O2",
        "--pic",
        "--target=sse2,sse4,avx1,avx1.1,avx2",
    ];
    assert_eq!(t.args, expected);
}

#[test]
fn scenario_debug_x86() {
    let mut c = Config::new();
    c.file("src/foo.ispc");
    let env = env_debug_x86();
    let t = c.basic_tool(&env).unwrap();
    let expected = vec![
        "--arch=x86",
        "--colored-output",
        "--emit-obj",
        "-g",
        "--math-lib=default",
        "-O2",
        "--target=sse2,sse4,avx1,avx1.1,avx2",
    ];
    assert_eq!(t.args, expected);
    assert!(!t.args.iter().any(|a| a == "--pic"));
}

#[test]
fn explicit_pic_survives_x86() {
    let mut c = Config::new();
    c.pic(true);
    let t = c.basic_tool(&env_debug_x86()).unwrap();
    assert!(t.args.iter().any(|a| a == "--pic"));
}

#[test]
fn cpu_list_is_comma_joined_in_order() {
    let mut c = Config::new();
    c.cpu(Cpu::Core2);
    c.cpu(Cpu::Corei7_avx);
    c.cpu(Cpu::Slm);
    let t = c.basic_tool(&env_release_x64()).unwrap();
    let flag = t.args.iter().find(|a| a.starts_with("--cpu=")).unwrap();
    assert_eq!(flag, "--cpu=core2,corei7-avx,slm");
    let values: Vec<&str> = flag["--cpu=".len()..].split(',').collect();
    assert_eq!(values, vec!["core2", "corei7-avx", "slm"]);
}

#[test]
fn target_list_splits_back_to_original() {
    let mut c = Config::new();
    c.target(Target::Sse2_i32x8);
    c.target(Target::Avx1_1_i64x4);
    let t = c.basic_tool(&env_release_x64()).unwrap();
    let flag = t.args.iter().find(|a| a.starts_with("--target=")).unwrap();
    assert_eq!(flag, "--target=sse2-i32x8,avx1.1-i64x4");
    let values: Vec<&str> = flag["--target=".len()..].split(',').collect();
    assert_eq!(values, vec!["sse2-i32x8", "avx1.1-i64x4"]);
}

#[test]
fn definitions_keep_order_and_duplicates() {
    let mut c = Config::new();
    c.define("FOO", Some("bar"));
    c.define("BAZ", None);
    c.define("FOO", Some("bar"));
    let t = c.basic_tool(&env_release_x64()).unwrap();
    let defs: Vec<&String> = t.args.iter().filter(|a| a.starts_with("-D")).collect();
    assert_eq!(defs, vec!["-DFOO=bar", "-DBAZ", "-DFOO=bar"]);
}

#[test]
fn toggles_appear_only_when_deviating() {
    let c = Config::new();
    let t = c.basic_tool(&env_release_x64()).unwrap();
    assert!(!t.args.iter().any(|a| a.starts_with("--opt=")));

    let mut c = Config::new();
    c.enable_assertations(false);
    c.enable_fma(false);
    c.enable_loop_unroll(false);
    c.enable_fast_masked_vload(true);
    c.enable_fast_math(true);
    let t = c.basic_tool(&env_release_x64()).unwrap();
    let opts: Vec<&String> = t.args.iter().filter(|a| a.starts_with("--opt=")).collect();
    assert_eq!(
        opts,
        vec![
            "--opt=disable-assertations",
            "--opt=disable-fma",
            "--opt=disable-loop-unroll",
            "--opt=fast-masked-vload",
            "--opt=fast-math",
        ]
    );
}

#[test]
fn addressing_math_and_alignment_flags() {
    let mut c = Config::new();
    c.addressing(Addr::A64);
    c.math_lib(Math::Svml);
    c.force_alignment(64);
    let t = c.basic_tool(&env_release_x64()).unwrap();
    assert_eq!(t.args[0], "--addressing=64");
    assert!(t.args.iter().any(|a| a == "--math-lib=svml"));
    assert!(t.args.iter().any(|a| a == "--force-alignment=64"));
}

#[test]
fn warning_flags() {
    let mut c = Config::new();
    c.werror(true);
    c.warn(false);
    c.warn_perf(false);
    let t = c.basic_tool(&env_release_x64()).unwrap();
    let n = t.args.len();
    assert_eq!(t.args[n - 3], "--werror");
    assert_eq!(t.args[n - 2], "--woff");
    assert_eq!(t.args[n - 1], "--wno-perf");
}

#[test]
fn explicit_architecture_skips_target_inference() {
    let mut c = Config::new();
    c.architecture = Some(Arch::X86_64);
    c.pic(false);
    c.debug(false);
    c.opt_level(1);
    // no target triple in the environment at all
    let env = Env {
        ispc: None,
        opt_level: None,
        profile: None,
        target: None,
        out_dir: Some("/out".to_string()),
    };
    let t = c.basic_tool(&env).unwrap();
    assert!(t.args.iter().any(|a| a == "--arch=x86_64"));
}

#[test]
fn binary_override_is_used() {
    let mut env = env_release_x64();
    env.ispc = Some("/opt/tools/ispc-bin".to_string());
    let c = Config::new();
    let t = c.basic_tool(&env).unwrap();
    assert_eq!(t.path, "/opt/tools/ispc-bin");
}
