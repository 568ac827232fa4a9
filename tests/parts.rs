use nh::command::{build_command, Command};
use nh::out_path::OutPath;
use nh::privilege::{elevate_for_activation, elevate_for_profile, elevate_for_source, Identity, Ownership};
use nh::specialisation::{profile_path, resolve};
use nh::text::{join_path, split_words};
use nh::update::{
    conflicts_of, pull, pull_step, resolve_conflicts, update, Conflicts, Installable, SyncError, SyncStage, SyncStep,
};
use nh::version::{parse, update_args, version_from_output};

fn flake(r: &str) -> Installable {
    Installable::Flake { reference: r.to_string(), attribute: vec![] }
}

#[test]
fn flake_flag_only_above_threshold() {
    assert_eq!(update_args("2.18.1", "/etc/nixos"), vec!["nix", "flake", "update", "/etc/nixos"]);
    assert_eq!(update_args("2.19.0", "/etc/nixos"), vec!["nix", "flake", "update", "/etc/nixos"]);
    assert_eq!(update_args("2.19.1", "/etc/nixos"), vec!["nix", "flake", "update", "--flake", "/etc/nixos"]);
    assert_eq!(update_args("2.24.9", "."), vec!["nix", "flake", "update", "--flake", "."]);
    assert_eq!(update_args("3.0.0", "."), vec!["nix", "flake", "update", "--flake", "."]);
    assert_eq!(update_args("1.99.99", "."), vec!["nix", "flake", "update", "."]);
}

#[test]
fn unparsable_version_uses_old_syntax() {
    assert_eq!(update_args("garbage", "."), vec!["nix", "flake", "update", "."]);
    assert_eq!(update_args("2.20", "."), vec!["nix", "flake", "update", "."]);
    assert_eq!(update_args("", "."), vec!["nix", "flake", "update", "."]);
}

#[test]
fn versions_parse() {
    assert_eq!(parse("2.19.0"), Some((2, 19, 0)));
    assert_eq!(parse("10.0.123"), Some((10, 0, 123)));
    assert_eq!(parse("2..0"), None);
    assert_eq!(parse("2.19.0.1"), None);
    assert_eq!(parse("2.19.0pre"), None);
    assert_eq!(parse("99999999999999999999.0.0"), None);
    assert_eq!(parse("18446744073709551615.0.0"), Some((u64::MAX, 0, 0)));
}

#[test]
fn version_is_last_word_of_output() {
    assert_eq!(version_from_output("nix (Nix) 2.24.9\n"), "2.24.9");
    assert_eq!(version_from_output(""), "");
}

#[test]
fn conflict_probe_outcomes() {
    assert_eq!(conflicts_of(""), Conflicts::Clean);
    assert_eq!(conflicts_of("flake.lock\n"), Conflicts::LockFile);
    assert_eq!(conflicts_of("flake.lock"), Conflicts::Other);
    assert_eq!(conflicts_of("flake.nix\nflake.lock\n"), Conflicts::Other);
}

#[test]
fn lock_conflict_is_reset_and_checked_out() {
    let cmds = resolve_conflicts("/src", "flake.lock\n", true).unwrap();
    assert_eq!(cmds.len(), 2);
    assert_eq!(cmds[0].invocation(), vec!["sudo", "git", "-C", "/src", "reset", "flake.lock"]);
    assert_eq!(cmds[1].invocation(), vec!["sudo", "git", "-C", "/src", "checkout", "flake.lock"]);
    assert!(resolve_conflicts("/src", "", false).unwrap().is_empty());
    assert!(resolve_conflicts("/src", "a.nix\n", false).is_err());
}

#[test]
fn specialisation_resolution_order() {
    let cur = Some("gaming".to_string());
    let req = Some("work".to_string());
    assert_eq!(resolve(true, cur.clone(), &req), None);
    assert_eq!(resolve(false, cur.clone(), &req), Some("gaming".to_string()));
    assert_eq!(resolve(false, None, &req), Some("work".to_string()));
    assert_eq!(resolve(false, None, &None), None);
}

#[test]
fn specialised_profile_path() {
    assert_eq!(profile_path("/tmp/x/result", &None), "/tmp/x/result");
    assert_eq!(profile_path("/tmp/x/result", &Some("gaming".to_string())), "/tmp/x/result/specialisation/gaming");
    assert_eq!(join_path("a", "b"), "a/b");
}

#[test]
fn privilege_decisions() {
    let user = Identity { euid: 1000, egid: 100 };
    let root = Identity { euid: 0, egid: 0 };
    let root_owned = Ownership { uid: 0, gid: 0, mode: 0o755 };
    let group_writable = Ownership { uid: 0, gid: 100, mode: 0o775 };
    let mine = Ownership { uid: 1000, gid: 100, mode: 0o755 };
    assert!(elevate_for_source(false, user, Some(root_owned)));
    assert!(!elevate_for_source(false, user, Some(group_writable)));
    assert!(!elevate_for_source(false, user, Some(mine)));
    assert!(!elevate_for_source(true, user, Some(root_owned)));
    assert!(!elevate_for_source(false, root, Some(root_owned)));
    assert!(elevate_for_profile(false, user, Some(root_owned)));
    assert!(!elevate_for_profile(false, user, Some(mine)));
    assert!(!elevate_for_profile(false, root, Some(root_owned)));
    assert!(!elevate_for_profile(true, user, Some(root_owned)));
    assert!(elevate_for_activation(false, user));
    assert!(!elevate_for_activation(false, root));
    assert!(!elevate_for_activation(true, user));
}

#[test]
fn whitespace_split() {
    assert_eq!(split_words("  nvd   diff\t"), vec!["nvd", "diff"]);
    assert!(split_words("   ").is_empty());
    assert_eq!(split_words("x"), vec!["x"]);
}

#[test]
fn elevated_invocation_and_exit() {
    let c = Command::new("nix-env").arg("--set").root(true);
    assert_eq!(c.invocation(), vec!["sudo", "nix-env", "--set"]);
    assert!(c.check_exit(Some(0)).is_ok());
    let e = c.check_exit(Some(2)).unwrap_err();
    assert_eq!(e.program, "nix-env");
    assert_eq!(e.code, Some(2));
    assert!(c.check_exit(None).is_err());
    let d = Command::new("git").dry(true);
    assert!(!d.executes());
    assert!(d.check_exit(Some(1)).is_ok());
}

#[test]
fn build_invocation() {
    let extra = vec!["--impure".to_string()];
    let c = build_command("f#t", "/o", &extra, false, "m");
    assert_eq!(c.invocation(), vec!["nix", "build", "f#t", "--out-link", "/o", "--impure"]);
    let c = build_command("f#t", "/o", &extra, true, "m");
    assert!(c.formatter);
    assert_eq!(
        c.invocation(),
        vec!["nix", "build", "f#t", "--out-link", "/o", "--impure", "--log-format", "internal-json", "--verbose"]
    );
}

#[test]
fn out_path_variants() {
    let g = OutPath::given("/home/u/result");
    assert_eq!(g.get_path(), "/home/u/result");
    assert_eq!(g.backing_dir(), None);
    let e = OutPath::ephemeral("/tmp/nh-osX");
    assert_eq!(e.get_path(), "/tmp/nh-osX/result");
    assert_eq!(e.backing_dir(), Some("/tmp/nh-osX".to_string()));
}

#[test]
fn update_of_flake_and_other() {
    let user = Identity { euid: 1000, egid: 100 };
    let root_owned = Some(Ownership { uid: 0, gid: 0, mode: 0o755 });
    let c = update(&flake("/etc/nixos"), None, "2.24.9", false, user, root_owned).unwrap();
    assert_eq!(c.invocation(), vec!["sudo", "nix", "flake", "update", "--flake", "/etc/nixos"]);
    assert_eq!(c.message.as_deref(), Some("Updating all flake inputs"));
    let c = update(&flake("/etc/nixos"), None, "2.19.0", false, user, None).unwrap();
    assert_eq!(c.invocation(), vec!["nix", "flake", "update", "/etc/nixos"]);
    let c = update(&flake("/etc/nixos"), Some("nixpkgs".to_string()), "2.3.0", false, user, None).unwrap();
    assert_eq!(c.invocation(), vec!["nix", "flake", "update", "nixpkgs", "/etc/nixos"]);
    assert_eq!(c.message.as_deref(), Some("Updating flake input nixpkgs"));
    let root = Identity { euid: 0, egid: 0 };
    let c = update(&flake("."), Some("nixpkgs".to_string()), "2.20.0", false, root, root_owned).unwrap();
    assert_eq!(c.invocation(), vec!["nix", "flake", "update", "nixpkgs", "--flake", "."]);
    let store = Installable::Store { path: "/nix/store/x".to_string() };
    assert!(update(&store, None, "2.24.9", false, user, None).is_none());
    assert_eq!(store.str_kind(), "store path");
}

#[test]
fn pull_of_flake_and_other() {
    let user = Identity { euid: 1000, egid: 100 };
    let root_owned = Some(Ownership { uid: 0, gid: 0, mode: 0o755 });
    let p = pull(&flake("/src"), true, false, user, root_owned).unwrap();
    assert_eq!(p.invocation(), vec!["sudo", "git", "-C", "/src", "pull"]);
    assert!(p.dry);
    let p = pull(&flake("/src"), false, true, user, root_owned).unwrap();
    assert_eq!(p.invocation(), vec!["git", "-C", "/src", "pull"]);
    let file = Installable::File { path: "x.nix".to_string(), attribute: vec![] };
    assert!(pull(&file, false, false, user, None).is_none());
}

#[test]
fn sync_steps() {
    match pull_step("/src", true, true, SyncStage::Pulling, "git", Some(0), "") {
        SyncStep::Next(SyncStage::Probing, c) => {
            assert!(c.capture);
            assert_eq!(c.invocation(), vec!["sudo", "git", "-C", "/src", "diff", "--name-only", "--diff-filter=U"]);
        }
        _ => panic!("probe expected"),
    }
    assert!(matches!(pull_step("/src", false, false, SyncStage::Pulling, "git", Some(0), ""), SyncStep::Finished));
    assert!(matches!(pull_step("/src", true, false, SyncStage::Probing, "git", Some(0), ""), SyncStep::Finished));
    match pull_step("/src", true, false, SyncStage::Probing, "git", Some(0), "flake.lock\n") {
        SyncStep::Next(SyncStage::Resetting, c) => {
            assert_eq!(c.invocation(), vec!["git", "-C", "/src", "reset", "flake.lock"])
        }
        _ => panic!("reset expected"),
    }
    match pull_step("/src", true, false, SyncStage::Resetting, "git", Some(0), "") {
        SyncStep::Next(SyncStage::CheckingOut, c) => {
            assert_eq!(c.invocation(), vec!["git", "-C", "/src", "checkout", "flake.lock"])
        }
        _ => panic!("checkout expected"),
    }
    assert!(matches!(pull_step("/src", true, false, SyncStage::CheckingOut, "git", Some(0), ""), SyncStep::Finished));
    assert!(matches!(
        pull_step("/src", true, false, SyncStage::Probing, "git", Some(0), "a.nix\n"),
        SyncStep::Failed(SyncError::Conflicts)
    ));
    match pull_step("/src", true, false, SyncStage::Pulling, "git", Some(1), "") {
        SyncStep::Failed(SyncError::Command(e)) => {
            assert_eq!(e.program, "git");
            assert_eq!(e.code, Some(1));
        }
        _ => panic!("failed pull must stop the sync"),
    }
    assert!(matches!(
        pull_step("/src", true, false, SyncStage::Resetting, "git", None, ""),
        SyncStep::Failed(SyncError::Command(_))
    ));
}
