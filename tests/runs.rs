use nh::privilege::{Identity, Ownership};
use nh::rebuild::{Action, Event, Host, OsCommandType, OsSubcommandArgs, Outcome, Platform, RebuildError, Rebuild, Stage};

fn args() -> OsSubcommandArgs {
    OsSubcommandArgs {
        flakeref: "/etc/nixos".to_string(),
        hostname: Some("box".to_string()),
        out_link: None,
        specialisation: None,
        no_specialisation: false,
        update: false,
        pull: false,
        dry: false,
        ask: false,
        no_nom: true,
        bypass_root_check: false,
        extra_args: vec![],
        diff_provider: "nvd diff".to_string(),
    }
}

fn host(euid: u32) -> Host {
    Host {
        identity: Identity { euid, egid: 100 },
        hostname: "local".to_string(),
        platform: Platform::Linux,
        flake_owner: Some(Ownership { uid: 0, gid: 0, mode: 0o755 }),
        profile_owner: Some(Ownership { uid: 0, gid: 0, mode: 0o755 }),
    }
}

fn argv(a: &Action) -> Vec<String> {
    match a {
        Action::Run(c) | Action::Capture(c) => c.invocation(),
        _ => panic!("not a command"),
    }
}

/// Answers every action as a successful driver would, recording the argument
/// vectors, until the run releases its output path.
fn drive(run: &mut Rebuild, first: Action, answer: bool) -> (Vec<Vec<String>>, Option<String>, Outcome) {
    let mut seen = vec![];
    let mut action = first;
    loop {
        let event = match &action {
            Action::CreateTempDir => Event::TempDir(Some("/tmp/nh-os1".to_string())),
            Action::Run(c) => {
                seen.push(c.invocation());
                Event::Exited(Some(0))
            }
            Action::Capture(c) => {
                let probe = c.invocation().iter().any(|w| w == "--name-only");
                seen.push(c.invocation());
                let stdout = if probe { "" } else { "nix (Nix) 2.24.9\n" };
                Event::Captured { code: Some(0), stdout: stdout.to_string() }
            }
            Action::ReadSpecialisation => Event::FileText(None),
            Action::CheckExists(p) => {
                seen.push(vec!["exists".to_string(), p.clone()]);
                Event::Exists(true)
            }
            Action::Confirm => Event::Answer(answer),
            Action::Release { .. } | Action::Halt => break,
        };
        action = run.step(event);
    }
    match action {
        Action::Release { remove, outcome } => {
            assert!(matches!(run.step(Event::Exited(Some(0))), Action::Halt));
            (seen, remove, outcome)
        }
        _ => panic!("run did not release"),
    }
}

#[test]
fn refuses_root_without_bypass() {
    let r = args().rebuild(OsCommandType::Switch, host(0));
    assert!(matches!(r, Err(RebuildError::RunAsRoot)));
    let mut a = args();
    a.bypass_root_check = true;
    assert!(a.rebuild(OsCommandType::Switch, host(0)).is_ok());
}

#[test]
fn build_mode_stops_after_diff() {
    let mut a = args();
    a.ask = true;
    let (mut run, first) = a.rebuild(OsCommandType::Build, host(1000)).ok().unwrap();
    assert!(matches!(first, Action::CreateTempDir));
    let (seen, remove, outcome) = drive(&mut run, first, true);
    assert!(matches!(outcome, Outcome::Success));
    assert_eq!(remove, Some("/tmp/nh-os1".to_string()));
    assert_eq!(seen.len(), 3);
    assert_eq!(
        seen[0],
        vec![
            "nix",
            "build",
            "/etc/nixos#nixosConfigurations.box.config.system.build.toplevel",
            "--out-link",
            "/tmp/nh-os1/result"
        ]
    );
    assert_eq!(seen[1], vec!["exists", "/tmp/nh-os1/result"]);
    assert_eq!(seen[2], vec!["nvd", "diff", "/run/current-system", "/tmp/nh-os1/result"]);
}

#[test]
fn dry_switch_stops_after_diff() {
    let mut a = args();
    a.dry = true;
    let (mut run, first) = a.rebuild(OsCommandType::Switch, host(1000)).ok().unwrap();
    let (seen, _, outcome) = drive(&mut run, first, true);
    assert!(matches!(outcome, Outcome::Success));
    assert_eq!(seen.len(), 3);
}

#[test]
fn declined_switch_activates_nothing() {
    let mut a = args();
    a.ask = true;
    let (mut run, first) = a.rebuild(OsCommandType::Switch, host(1000)).ok().unwrap();
    let (seen, remove, outcome) = drive(&mut run, first, false);
    assert!(matches!(outcome, Outcome::Declined));
    assert_eq!(remove, Some("/tmp/nh-os1".to_string()));
    assert_eq!(seen.len(), 3);
    assert!(seen.iter().all(|v| !v.iter().any(|w| w.contains("switch-to-configuration") || w == "nix-env")));
}

#[test]
fn full_switch_on_linux() {
    let mut a = args();
    a.ask = true;
    a.specialisation = Some("gaming".to_string());
    let (mut run, first) = a.rebuild(OsCommandType::Switch, host(1000)).ok().unwrap();
    let (seen, remove, outcome) = drive(&mut run, first, true);
    assert!(matches!(outcome, Outcome::Success));
    assert_eq!(remove, Some("/tmp/nh-os1".to_string()));
    let spec = "/tmp/nh-os1/result/specialisation/gaming";
    assert_eq!(seen[1], vec!["exists", spec]);
    assert_eq!(seen[2], vec!["nvd", "diff", "/run/current-system", spec]);
    assert_eq!(seen[3], vec!["sudo", "/tmp/nh-os1/result/specialisation/gaming/bin/switch-to-configuration", "test"]);
    assert_eq!(seen[4], vec!["sudo", "nix-env", "--profile", "/nix/var/nix/profiles/system", "--set", "/tmp/nh-os1/result"]);
    assert_eq!(seen[5], vec!["sudo", "/tmp/nh-os1/result/bin/switch-to-configuration", "boot"]);
    assert_eq!(seen.len(), 6);
}

#[test]
fn boot_on_darwin_with_given_link() {
    let mut a = args();
    a.out_link = Some("/home/u/result".to_string());
    a.no_specialisation = true;
    let mut h = host(1000);
    h.platform = Platform::Darwin;
    h.profile_owner = Some(Ownership { uid: 1000, gid: 100, mode: 0o755 });
    let (mut run, first) = a.rebuild(OsCommandType::Boot, h).ok().unwrap();
    assert!(matches!(first, Action::Run(_)));
    let (seen, remove, outcome) = drive(&mut run, first, true);
    assert!(matches!(outcome, Outcome::Success));
    assert_eq!(remove, None);
    assert_eq!(seen[0][2], "/etc/nixos#darwinConfigurations.box.config.system.build.toplevel");
    assert_eq!(seen[3], vec!["nix-env", "--profile", "/nix/var/nix/profiles/system", "--set", "/home/u/result"]);
    assert_eq!(seen[4], vec!["/home/u/result/activate-user"]);
    assert_eq!(seen[5], vec!["sudo", "/home/u/result/activate"]);
    assert_eq!(seen.len(), 6);
}

#[test]
fn pull_and_update_before_build() {
    let mut a = args();
    a.pull = true;
    a.update = true;
    a.hostname = None;
    let (mut run, first) = a.rebuild(OsCommandType::Test, host(1000)).ok().unwrap();
    let (seen, _, outcome) = drive(&mut run, first, true);
    assert!(matches!(outcome, Outcome::Success));
    assert_eq!(seen[0], vec!["sudo", "git", "-C", "/etc/nixos", "pull"]);
    assert_eq!(seen[1], vec!["sudo", "git", "-C", "/etc/nixos", "diff", "--name-only", "--diff-filter=U"]);
    assert_eq!(seen[2], vec!["nix", "--version"]);
    assert_eq!(seen[3], vec!["sudo", "nix", "flake", "update", "--flake", "/etc/nixos"]);
    assert_eq!(seen[4][2], "/etc/nixos#nixosConfigurations.local.config.system.build.toplevel");
    assert_eq!(seen[7], vec!["sudo", "/tmp/nh-os1/result/bin/switch-to-configuration", "test"]);
    assert_eq!(seen.len(), 8);
}

#[test]
fn output_path_survives_until_release() {
    let (mut run, first) = args().rebuild(OsCommandType::Switch, host(1000)).ok().unwrap();
    let mut action = first;
    let mut steps = 0;
    loop {
        if let Action::Release { remove, .. } = &action {
            assert_eq!(remove.as_deref(), Some("/tmp/nh-os1"));
            break;
        }
        if !matches!(action, Action::CreateTempDir) {
            assert_eq!(run.out.as_ref().unwrap().get_path(), "/tmp/nh-os1/result");
            assert!(run.stage != Stage::Done);
        }
        let event = match &action {
            Action::CreateTempDir => Event::TempDir(Some("/tmp/nh-os1".to_string())),
            Action::ReadSpecialisation => Event::FileText(None),
            Action::CheckExists(_) => Event::Exists(true),
            Action::Confirm => Event::Answer(true),
            _ => Event::Exited(Some(0)),
        };
        action = run.step(event);
        steps += 1;
    }
    assert_eq!(run.stage, Stage::Done);
    assert_eq!(steps, 8);
}

#[test]
fn diff_failure_is_tolerated() {
    let mut a = args();
    a.out_link = Some("/o".to_string());
    let (mut run, _) = a.rebuild(OsCommandType::Build, host(1000)).ok().unwrap();
    assert!(matches!(run.step(Event::Exited(Some(0))), Action::ReadSpecialisation));
    assert!(matches!(run.step(Event::FileText(None)), Action::CheckExists(_)));
    assert!(matches!(run.step(Event::Exists(true)), Action::Run(_)));
    let last = run.step(Event::Exited(Some(1)));
    assert!(matches!(last, Action::Release { outcome: Outcome::Success, remove: None }));
}

#[test]
fn failures_end_the_run() {
    let mut a = args();
    a.out_link = Some("/o".to_string());
    let (mut run, first) = a.rebuild(OsCommandType::Switch, host(1000)).ok().unwrap();
    assert_eq!(argv(&first)[0], "nix");
    let last = run.step(Event::Exited(Some(1)));
    match last {
        Action::Release { outcome: Outcome::Failed(RebuildError::Command(e)), .. } => {
            assert_eq!(e.program, "nix");
            assert_eq!(e.code, Some(1));
        }
        _ => panic!("build failure must end the run"),
    }
    let (mut run, _) = args().rebuild(OsCommandType::Switch, host(1000)).ok().unwrap();
    assert!(matches!(run.step(Event::TempDir(None)), Action::Release { outcome: Outcome::Failed(RebuildError::TempDir), remove: None }));
}

#[test]
fn missing_specialisation_is_fatal() {
    let mut a = args();
    a.out_link = Some("/o".to_string());
    let (mut run, _) = a.rebuild(OsCommandType::Switch, host(1000)).ok().unwrap();
    run.step(Event::Exited(Some(0)));
    run.step(Event::FileText(Some("ghost".to_string())));
    match run.step(Event::Exists(false)) {
        Action::Release { outcome: Outcome::Failed(RebuildError::MissingProfile(p)), .. } => {
            assert_eq!(p, "/o/specialisation/ghost")
        }
        _ => panic!("missing profile must end the run"),
    }
}

#[test]
fn other_conflicts_abort() {
    let mut a = args();
    a.out_link = Some("/o".to_string());
    a.pull = true;
    a.update = true;
    let (mut run, _) = a.rebuild(OsCommandType::Switch, host(1000)).ok().unwrap();
    assert!(matches!(run.step(Event::Exited(Some(0))), Action::Capture(_)));
    let last = run.step(Event::Captured { code: Some(0), stdout: "a.nix\n".to_string() });
    assert!(matches!(last, Action::Release { outcome: Outcome::Failed(RebuildError::Conflicts), .. }));
}

#[test]
fn lock_conflict_recovered() {
    let mut a = args();
    a.out_link = Some("/o".to_string());
    a.pull = true;
    a.update = true;
    let mut h = host(1000);
    h.flake_owner = Some(Ownership { uid: 1000, gid: 100, mode: 0o755 });
    let (mut run, _) = a.rebuild(OsCommandType::Switch, h).ok().unwrap();
    run.step(Event::Exited(Some(0)));
    let reset = run.step(Event::Captured { code: Some(0), stdout: "flake.lock\n".to_string() });
    assert_eq!(argv(&reset), vec!["git", "-C", "/etc/nixos", "reset", "flake.lock"]);
    let checkout = run.step(Event::Exited(Some(0)));
    assert_eq!(argv(&checkout), vec!["git", "-C", "/etc/nixos", "checkout", "flake.lock"]);
    let version = run.step(Event::Exited(Some(0)));
    assert_eq!(argv(&version), vec!["nix", "--version"]);
    let upd = run.step(Event::Captured { code: Some(0), stdout: "nix (Nix) 2.18.1\n".to_string() });
    assert_eq!(argv(&upd), vec!["nix", "flake", "update", "/etc/nixos"]);
}

#[test]
fn privileged_caller_with_bypass_never_elevates() {
    let mut a = args();
    a.bypass_root_check = true;
    a.pull = true;
    let (mut run, first) = a.rebuild(OsCommandType::Switch, host(0)).ok().unwrap();
    let (seen, _, outcome) = drive(&mut run, first, true);
    assert!(matches!(outcome, Outcome::Success));
    assert!(seen.iter().all(|v| v[0] != "sudo"));
}

#[test]
fn unanswered_event_fails_the_run() {
    let mut a = args();
    a.out_link = Some("/o".to_string());
    let (mut run, _) = a.rebuild(OsCommandType::Switch, host(1000)).ok().unwrap();
    assert!(matches!(
        run.step(Event::Answer(true)),
        Action::Release { outcome: Outcome::Failed(RebuildError::Unexpected), .. }
    ));
}

#[test]
fn failed_diff_still_activates() {
    let mut a = args();
    a.out_link = Some("/o".to_string());
    let (mut run, _) = a.rebuild(OsCommandType::Test, host(1000)).ok().unwrap();
    run.step(Event::Exited(Some(0)));
    run.step(Event::FileText(None));
    run.step(Event::Exists(true));
    let next = run.step(Event::Exited(Some(1)));
    assert_eq!(argv(&next), vec!["sudo", "/o/bin/switch-to-configuration", "test"]);
    assert_eq!(run.stage, Stage::TestActivating);
}
