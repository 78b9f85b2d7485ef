//! Environment-driven resolution: optimization-level clamping, debug and
//! architecture inference, PIC defaulting, and the environment errors.

use rispc::{Arch, BuildError, Config, Env};

fn env_with(target: &str, profile: &str, opt: &str) -> Env {
    Env {
        ispc: None,
        opt_level: Some(opt.to_string()),
        profile: Some(profile.to_string()),
        target: Some(target.to_string()),
        out_dir: Some("/out".to_string()),
    }
}

#[test]
fn opt_level_clamped_above_three() {
    let env = env_with("x86_64-pc-linux", "release", "2");
    let mut c = Config::new();
    c.opt_level(7);
    assert_eq!(c.get_opt_level(&env).unwrap(), 3);
    let mut c = Config::new();
    c.opt_level(4);
    assert_eq!(c.get_opt_level(&env).unwrap(), 3);
}

#[test]
fn opt_level_in_range_passes_through() {
    let env = env_with("x86_64-pc-linux", "release", "2");
    for l in 0..=3u32 {
        let mut c = Config::new();
        c.opt_level(l);
        assert_eq!(c.get_opt_level(&env).unwrap(), l);
    }
}

#[test]
fn opt_level_read_from_environment() {
    let env = env_with("x86_64-pc-linux", "release", "1");
    let c = Config::new();
    assert_eq!(c.get_opt_level(&env).unwrap(), 1);
}

#[test]
fn opt_level_missing_is_environment_error() {
    let mut env = env_with("x86_64-pc-linux", "release", "2");
    env.opt_level = None;
    let c = Config::new();
    assert!(matches!(
        c.get_opt_level(&env),
        Err(BuildError::EnvironmentError(_))
    ));
}

#[test]
fn opt_level_unparsable_is_environment_error() {
    let c = Config::new();
    for bad in ["", "fast", "-1", "2x", "4294967296"] {
        let env = env_with("x86_64-pc-linux", "release", bad);
        assert!(matches!(
            c.get_opt_level(&env),
            Err(BuildError::EnvironmentError(_))
        ));
    }
}

#[test]
fn debug_follows_profile() {
    let c = Config::new();
    assert_eq!(
        c.get_debug(&env_with("x86_64-pc-linux", "debug", "2")).unwrap(),
        true
    );
    assert_eq!(
        c.get_debug(&env_with("x86_64-pc-linux", "release", "2")).unwrap(),
        false
    );
}

#[test]
fn explicit_debug_wins_over_profile() {
    let mut c = Config::new();
    c.debug(false);
    assert_eq!(
        c.get_debug(&env_with("x86_64-pc-linux", "debug", "2")).unwrap(),
        false
    );
}

#[test]
fn architecture_inferred_from_triple() {
    let c = Config::new();
    assert_eq!(
        c.get_arch(&env_with("x86_64-pc-linux", "release", "2")).unwrap(),
        Arch::X86_64
    );
    assert_eq!(
        c.get_arch(&env_with("i686-pc-linux", "release", "2")).unwrap(),
        Arch::X86
    );
    assert_eq!(
        c.get_arch(&env_with("i586-unknown-linux", "release", "2")).unwrap(),
        Arch::X86
    );
}

#[test]
fn unsupported_triple_is_environment_error() {
    let c = Config::new();
    assert!(matches!(
        c.get_arch(&env_with("aarch64-unknown-linux", "release", "2")),
        Err(BuildError::EnvironmentError(_))
    ));
}

#[test]
fn pic_defaults_from_resolved_architecture() {
    let c = Config::new();
    assert_eq!(
        c.get_pic(&env_with("x86_64-pc-linux", "release", "2")).unwrap(),
        true
    );
    assert_eq!(
        c.get_pic(&env_with("i686-pc-linux", "release", "2")).unwrap(),
        false
    );
}

#[test]
fn explicit_pic_wins() {
    let mut c = Config::new();
    c.pic(false);
    assert_eq!(
        c.get_pic(&env_with("x86_64-pc-linux", "release", "2")).unwrap(),
        false
    );
}

#[test]
fn default_target_list_has_five_tiers() {
    let c = Config::new();
    let ts = c.get_targets();
    let names: Vec<&str> = ts.iter().map(|t| t.to_str()).collect();
    assert_eq!(names, vec!["sse2", "sse4", "avx1", "avx1.1", "avx2"]);
}
