use vstd::prelude::*;
use vstd::string::*;

use crate::command::{build_argv, build_command, from_argv, words_of, Command, ExecError};
use crate::out_path::OutPath;
use crate::privilege::{
    activation_needs_elevation, elevate_for_activation, elevate_for_profile, elevate_for_source,
    is_privileged, is_root, profile_needs_elevation, source_needs_elevation, Identity, Ownership,
};
use crate::specialisation::{opt_view, profile_of, profile_path, resolve, resolved};
use crate::text::{join_path, joined, owned, push_str, split_words, views, words};
use crate::update::{argvs, classify, git_argv, lock_command, lock_reset_argvs, probe_argv, Conflicts};
use crate::version::{reported_version, update_args, update_argv, version_from_output};

verus! {

/// The system profile link that boot entries are made from.
pub const SYSTEM_PROFILE: &'static str = "/nix/var/nix/profiles/system";

/// The profile of the running system.
pub const CURRENT_PROFILE: &'static str = "/run/current-system";

/// The file naming the specialisation the running system has active.
pub const SPEC_LOCATION: &'static str = "/etc/specialisation";

/// What a rebuild does with the built configuration.
#[derive(Clone, Copy, Debug, PartialEq, Eq, Structural)]
pub enum OsCommandType {
    /// Activate now and make it the boot default.
    Switch,
    /// Make it the boot default only.
    Boot,
    /// Activate now without touching the boot default.
    Test,
    /// Build and diff only.
    Build,
}

/// The platform whose activation sequence is used.
#[derive(Clone, Copy, Debug, PartialEq, Eq, Structural)]
pub enum Platform {
    Linux,
    Darwin,
}

/// The options of one rebuild.
pub struct OsSubcommandArgs {
    pub flakeref: String,
    pub hostname: Option<String>,
    pub out_link: Option<String>,
    pub specialisation: Option<String>,
    pub no_specialisation: bool,
    pub update: bool,
    pub pull: bool,
    pub dry: bool,
    pub ask: bool,
    pub no_nom: bool,
    pub bypass_root_check: bool,
    pub extra_args: Vec<String>,
    pub diff_provider: String,
}

/// What the environment tells about the host before the run.
pub struct Host {
    pub identity: Identity,
    /// The host's own name, used when no hostname is given.
    pub hostname: String,
    pub platform: Platform,
    /// Owner of the flake source, when it is a local path.
    pub flake_owner: Option<Ownership>,
    /// Owner of the system profile link, when it exists.
    pub profile_owner: Option<Ownership>,
}

/// Where a run stands: each variant but the first and the last waits for
/// the outcome of the action that led to it.
#[derive(Clone, Copy, Debug, PartialEq, Eq, Structural)]
pub enum Stage {
    AwaitOut,
    Pulling,
    Probing,
    Resetting,
    CheckingOut,
    AskingVersion,
    Updating,
    Building,
    ReadingSpec,
    CheckingProfile,
    Diffing,
    Confirming,
    TestActivating,
    SettingProfile,
    BootActivating,
    UserActivating,
    Activating,
    Done,
}

/// Why a rebuild failed.
#[derive(Debug)]
pub enum RebuildError {
    /// Started as the privileged user without the bypass flag.
    RunAsRoot,
    /// No temporary directory could be made for the result.
    TempDir,
    /// A step's command failed.
    Command(ExecError),
    /// The build tool's version could not be read.
    NixVersion,
    /// Files other than the lock file have merge conflicts.
    Conflicts,
    /// The profile to activate does not exist in the build output.
    MissingProfile(String),
    /// An event that does not answer the pending action.
    Unexpected,
}

/// How a run ended.
#[derive(Debug)]
pub enum Outcome {
    Success,
    /// The user declined to apply the configuration.
    Declined,
    Failed(RebuildError),
}

/// What the run asks its driver to do next.
pub enum Action {
    /// Make a temporary directory; answer `TempDir`.
    CreateTempDir,
    /// Run a command; answer `Exited`.
    Run(Command),
    /// Run a command capturing its standard output; answer `Captured`.
    Capture(Command),
    /// Read the active specialisation's name; answer `FileText`.
    ReadSpecialisation,
    /// Check that a path exists; answer `Exists`.
    CheckExists(String),
    /// Ask the user to apply the configuration; answer `Answer`.
    Confirm,
    /// Remove `remove`, if any, and end the run with `outcome`.
    Release { remove: Option<String>, outcome: Outcome },
    /// The run has ended: nothing more to do.
    Halt,
}

/// What the driver reports back.
pub enum Event {
    TempDir(Option<String>),
    Exited(Option<i32>),
    Captured { code: Option<i32>, stdout: String },
    FileText(Option<String>),
    Exists(bool),
    Answer(bool),
}

/// The command being waited for: what judging its exit needs.
pub struct Pending {
    pub program: String,
    pub dry: bool,
}

/// One rebuild run: the request, what is known of the host, and where the
/// run stands.
pub struct Rebuild {
    pub args: OsSubcommandArgs,
    pub mode: OsCommandType,
    pub host: Host,
    pub stage: Stage,
    pub out: Option<OutPath>,
    /// The profile to diff and activate, once resolved.
    pub target: Option<String>,
    pub pending: Option<Pending>,
    /// Activation may go ahead: the mode activates, the run is not dry, and
    /// the user agreed when asked.
    pub approved: bool,
}

/// The event answers the action that led to `stage`.
pub open spec fn answers(stage: Stage, event: Event) -> bool {
    match stage {
        Stage::AwaitOut => event is TempDir,
        Stage::ReadingSpec => event is FileText,
        Stage::CheckingProfile => event is Exists,
        Stage::Confirming => event is Answer,
        _ => event is Exited || event is Captured,
    }
}

pub open spec fn activation_stage(s: Stage) -> bool {
    s is TestActivating || s is SettingProfile || s is BootActivating || s is UserActivating
        || s is Activating
}

pub open spec fn needs_target(s: Stage) -> bool {
    s is CheckingProfile || s is Diffing || s is Confirming || activation_stage(s)
}

/// The actions that read the build output.
pub open spec fn reads_out(a: Action) -> bool {
    a is Run || a is CheckExists || a is Confirm
}

pub open spec fn ns_of(p: Platform) -> Seq<char> {
    match p {
        Platform::Linux => "nixosConfigurations"@,
        Platform::Darwin => "darwinConfigurations"@,
    }
}

/// `<flakeref>#<namespace>.<hostname>.config.system.build.toplevel`.
pub open spec fn toplevel_attr(flakeref: Seq<char>, ns: Seq<char>, host: Seq<char>) -> Seq<char> {
    flakeref + "#"@ + ns + "."@ + host + ".config.system.build.toplevel"@
}

pub open spec fn diff_argv(provider: Seq<char>, target: Seq<char>) -> Seq<Seq<char>> {
    words(provider) + seq!["/run/current-system"@, target]
}

pub open spec fn activation_argv(profile: Seq<char>, action: Seq<char>) -> Seq<Seq<char>> {
    seq![joined(joined(profile, "bin"@), "switch-to-configuration"@), action]
}

pub open spec fn set_profile_argv(out: Seq<char>) -> Seq<Seq<char>> {
    seq!["nix-env"@, "--profile"@, "/nix/var/nix/profiles/system"@, "--set"@, out]
}

impl Rebuild {
    pub open spec fn host_name(self) -> Seq<char> {
        match self.args.hostname {
            Some(h) => h@,
            None => self.host.hostname@,
        }
    }

    pub open spec fn out_view(self) -> Seq<char> {
        match self.out {
            Some(o) => o.path_view(),
            None => seq![],
        }
    }

    pub open spec fn target_view(self) -> Seq<char> {
        match self.target {
            Some(t) => t@,
            None => seq![],
        }
    }

    pub open spec fn removal(self) -> Option<Seq<char>> {
        match self.out {
            Some(o) => o.backing_view(),
            None => None,
        }
    }

    pub open spec fn source_elevation(self) -> bool {
        source_needs_elevation(self.args.bypass_root_check, self.host.identity, self.host.flake_owner)
    }

    pub open spec fn activation_elevation(self) -> bool {
        activation_needs_elevation(self.args.bypass_root_check, self.host.identity)
    }

    /// The stage a run enters once its output path is known.
    pub open spec fn first_stage(self) -> Stage {
        if self.args.pull {
            Stage::Pulling
        } else if self.args.update {
            Stage::AskingVersion
        } else {
            Stage::Building
        }
    }

    /// `r` is the build of this run's configuration.
    pub open spec fn build_action(self, r: Action) -> bool {
        r matches Action::Run(c) && words_of(c) == build_argv(
            toplevel_attr(self.args.flakeref@, ns_of(self.host.platform), self.host_name()),
            self.out_view(),
            views(self.args.extra_args@),
            !self.args.no_nom,
        ) && !c.elevate
    }

    /// `r` pulls the flake's repository.
    pub open spec fn pull_action(self, r: Action) -> bool {
        r matches Action::Run(c) && words_of(c) == git_argv(self.args.flakeref@, seq!["pull"@]) && c.elevate
            == self.source_elevation()
    }

    /// The clauses that hold whenever a run enters the pull, version or build stage.
    pub open spec fn entry_actions(self, before: Stage, r: Action) -> bool {
        &&& (self.stage is Pulling && !(before is Pulling) ==> self.pull_action(r))
        &&& (self.stage is AskingVersion && !(before is AskingVersion) ==> (r matches Action::Capture(c)
            && words_of(c) == seq!["nix"@, "--version"@] && !c.elevate))
        &&& (self.stage is Building && !(before is Building) ==> self.build_action(r))
    }

    /// The stage an approved run starts activation with; `Done` for a mode
    /// and platform with nothing to activate.
    pub open spec fn activation_start(self) -> Stage {
        if (self.mode is Test || self.mode is Switch) && self.host.platform is Linux {
            Stage::TestActivating
        } else if self.mode is Boot || self.mode is Switch {
            Stage::SettingProfile
        } else {
            Stage::Done
        }
    }

    /// `r` starts the activation of an approved run.
    pub open spec fn starts_activation(self, after: Stage, r: Action) -> bool {
        &&& after == self.activation_start()
        &&& (after is Done ==> (r matches Action::Release { outcome: Outcome::Success, .. }))
    }

    /// The pending command's exit counts as success.
    pub open spec fn exit_ok(self, code: Option<i32>) -> bool {
        self.pending matches Some(p) && (p.dry || code == Some(0i32))
    }

    /// Activation may start: the output and the profile are known, and the
    /// run was approved.
    pub open spec fn ready(self) -> bool {
        &&& self.out is Some
        &&& self.target is Some
        &&& self.approved
        &&& !(self.mode is Build)
        &&& !self.args.dry
    }

    /// The invariant of every state a run passes through.
    pub open spec fn wf(self) -> bool {
        &&& (self.stage is AwaitOut ==> self.out is None)
        &&& (!(self.stage is AwaitOut) && !(self.stage is Done) ==> self.out is Some)
        &&& (self.approved ==> !(self.mode is Build) && !self.args.dry)
        &&& (activation_stage(self.stage) ==> self.approved)
        &&& (self.stage is Confirming ==> !(self.mode is Build) && !self.args.dry && self.args.ask)
        &&& (needs_target(self.stage) ==> self.target is Some)
        &&& (self.approved ==> activation_stage(self.stage) || self.stage is Done)
        &&& (self.stage is Probing || self.stage is Resetting || self.stage is CheckingOut
            || self.stage is AskingVersion || self.stage is Updating ==> self.args.update)
        &&& (!(self.stage is AwaitOut) && !(self.stage is Done) && !(self.stage is ReadingSpec)
            && !(self.stage is CheckingProfile) && !(self.stage is Confirming) ==> self.pending is Some)
    }
}

/// The attribute that the build realises.
pub fn toplevel(flakeref: &str, platform: Platform, host: &str) -> (r: String)
    ensures
        r@ == toplevel_attr(flakeref@, ns_of(platform), host@),
{
    proof {
        reveal_strlit("#");
        reveal_strlit(".");
        reveal_strlit("nixosConfigurations");
        reveal_strlit("darwinConfigurations");
        reveal_strlit(".config.system.build.toplevel");
    }
    let ns = match platform {
        Platform::Linux => "nixosConfigurations",
        Platform::Darwin => "darwinConfigurations",
    };
    owned(flakeref).concat("#").concat(ns).concat(".").concat(host).concat(".config.system.build.toplevel")
}

fn activation_command(profile: &str, action: &str, elevate: bool, message: &str) -> (r: Command)
    ensures
        words_of(r) == activation_argv(profile@, action@),
        r.elevate == elevate && !r.dry && !r.capture && !r.formatter,
{
    proof {
        reveal_strlit("bin");
        reveal_strlit("switch-to-configuration");
    }
    let bin = join_path(profile, "bin");
    let program = join_path(bin.as_str(), "switch-to-configuration");
    let c = Command::new(program.as_str()).arg(action).root(elevate).message(message);
    assert(words_of(c) =~= activation_argv(profile@, action@));
    c
}

fn script_command(profile: &str, script: &str, elevate: bool, message: &str) -> (r: Command)
    ensures
        words_of(r) == seq![joined(profile@, script@)],
        r.elevate == elevate && !r.dry && !r.capture && !r.formatter,
{
    let program = join_path(profile, script);
    let c = Command::new(program.as_str()).root(elevate).message(message);
    assert(words_of(c) =~= seq![joined(profile@, script@)]);
    c
}

impl OsSubcommandArgs {
    /// Starts a rebuild: refuses a privileged caller unless the bypass flag
    /// is set, then returns the run and its first action.
    pub fn rebuild(self, rebuild_type: OsCommandType, host: Host) -> (r: Result<(Rebuild, Action), RebuildError>)
        ensures
            r is Err <==> is_privileged(host.identity) && !self.bypass_root_check,
            r matches Err(e) ==> e is RunAsRoot,
            r matches Ok((run, a)) ==> run.wf() && run.mode == rebuild_type && run.args == self
                && run.host == host && !run.approved && (match self.out_link {
                Some(p) => run.out matches Some(o) && o.path_view() == p@ && o.backing_view() is None
                    && run.stage == run.first_stage() && run.entry_actions(Stage::AwaitOut, a),
                None => run.stage is AwaitOut && a is CreateTempDir,
            }),
    {
        if is_root(host.identity) && !self.bypass_root_check {
            return Err(RebuildError::RunAsRoot);
        }
        let out = match &self.out_link {
            Some(p) => Some(OutPath::given(p.as_str())),
            None => None,
        };
        let mut run = Rebuild {
            args: self,
            mode: rebuild_type,
            host,
            stage: Stage::AwaitOut,
            out: None,
            target: None,
            pending: None,
            approved: false,
        };
        match out {
            Some(o) => {
                run.out = Some(o);
                let a = run.after_out();
                Ok((run, a))
            },
            None => Ok((run, Action::CreateTempDir)),
        }
    }
}

impl Rebuild {
    /// Ends the run: the output path is released here and nowhere else.
    fn finish(&mut self, outcome: Outcome) -> (r: Action)
        ensures
            final(self).stage is Done,
            final(self).out == old(self).out && final(self).args == old(self).args,
            final(self).mode == old(self).mode && final(self).host == old(self).host,
            final(self).approved == old(self).approved && final(self).target == old(self).target,
            r matches Action::Release { remove, outcome: o } && o == outcome && opt_view(remove)
                == old(self).removal(),
    {
        self.stage = Stage::Done;
        let remove = match &self.out {
            Some(o) => o.backing_dir(),
            None => None,
        };
        Action::Release { remove, outcome }
    }

    /// Waits for `c` in stage `stage`.
    fn start(&mut self, stage: Stage, c: Command) -> (r: Action)
        ensures
            final(self).stage == stage,
            final(self).pending matches Some(p) && p.program@ == c.program@ && p.dry == c.dry,
            final(self).out == old(self).out && final(self).args == old(self).args,
            final(self).mode == old(self).mode && final(self).host == old(self).host,
            final(self).approved == old(self).approved && final(self).target == old(self).target,
            c.capture ==> (r matches Action::Capture(x) && x == c),
            !c.capture ==> (r matches Action::Run(x) && x == c),
    {
        self.stage = stage;
        self.pending = Some(Pending { program: owned(c.program.as_str()), dry: c.dry });
        if c.capture {
            Action::Capture(c)
        } else {
            Action::Run(c)
        }
    }

    /// Judges the pending command's exit.
    fn judge(&self, code: Option<i32>) -> (r: Result<(), RebuildError>)
        ensures
            r is Ok <==> (self.pending matches Some(p) && (p.dry || code == Some(0i32))),
            self.pending matches Some(p) ==> (r matches Err(e) ==> (e matches RebuildError::Command(x)
                && x.program@ == p.program@ && x.code == code)),
    {
        match &self.pending {
            Some(p) => {
                if p.dry {
                    return Ok(());
                }
                match code {
                    Some(0i32) => Ok(()),
                    _ => Err(RebuildError::Command(ExecError { program: owned(p.program.as_str()), code })),
                }
            },
            None => Err(RebuildError::Unexpected),
        }
    }

    fn after_out(&mut self) -> (r: Action)
        requires
            old(self).out is Some,
            !old(self).approved,
        ensures
            final(self).wf(),
            final(self).out == old(self).out && final(self).args == old(self).args,
            final(self).mode == old(self).mode && final(self).host == old(self).host,
            final(self).approved == old(self).approved,
            r is Run || r is Capture,
            !(final(self).stage is Done) && !(final(self).stage is AwaitOut),
            !activation_stage(final(self).stage),
            final(self).entry_actions(old(self).stage, r),
            final(self).stage == final(self).first_stage(),
    {
        if self.args.pull {
            proof {
                reveal_strlit("git");
                reveal_strlit("-C");
                reveal_strlit("pull");
            }
            let elevate = elevate_for_source(self.args.bypass_root_check, self.host.identity, self.host.flake_owner);
            let c = Command::new("git").arg("-C").arg(self.args.flakeref.as_str()).arg("pull").message(
                "Pulling git repository",
            ).root(elevate);
            assert(words_of(c) =~= git_argv(self.args.flakeref@, seq!["pull"@]));
            self.start(Stage::Pulling, c)
        } else {
            self.after_sync()
        }
    }

    fn after_pull(&mut self) -> (r: Action)
        requires
            old(self).out is Some,
            !old(self).approved,
        ensures
            final(self).wf(),
            final(self).out == old(self).out && final(self).args == old(self).args,
            final(self).mode == old(self).mode && final(self).host == old(self).host,
            final(self).approved == old(self).approved,
            r is Run || r is Capture,
            old(self).args.update ==> (r matches Action::Capture(c) && words_of(c) == probe_argv(
                old(self).args.flakeref@,
            ) && c.elevate == old(self).source_elevation() && final(self).stage is Probing),
            !(final(self).stage is Done) && !(final(self).stage is AwaitOut),
            !activation_stage(final(self).stage),
            final(self).entry_actions(old(self).stage, r),
            !old(self).args.update ==> final(self).stage is Building,
    {
        if self.args.update {
            proof {
                reveal_strlit("git");
                reveal_strlit("-C");
                reveal_strlit("diff");
                reveal_strlit("--name-only");
                reveal_strlit("--diff-filter=U");
            }
            let elevate = elevate_for_source(self.args.bypass_root_check, self.host.identity, self.host.flake_owner);
            let c = Command::new("git").arg("-C").arg(self.args.flakeref.as_str()).arg("diff").arg(
                "--name-only",
            ).arg("--diff-filter=U").message("Checking for conflicts").root(elevate).capture(true);
            assert(words_of(c) =~= probe_argv(self.args.flakeref@));
            self.start(Stage::Probing, c)
        } else {
            self.after_sync()
        }
    }

    fn after_sync(&mut self) -> (r: Action)
        requires
            old(self).out is Some,
            !old(self).approved,
        ensures
            final(self).wf(),
            final(self).out == old(self).out && final(self).args == old(self).args,
            final(self).mode == old(self).mode && final(self).host == old(self).host,
            final(self).approved == old(self).approved,
            r is Run || r is Capture,
            old(self).args.update ==> r is Capture && final(self).stage is AskingVersion,
            !old(self).args.update ==> final(self).stage is Building,
            !(final(self).stage is Done) && !(final(self).stage is AwaitOut),
            !activation_stage(final(self).stage),
            final(self).entry_actions(old(self).stage, r),
    {
        if self.args.update {
            proof {
                reveal_strlit("nix");
                reveal_strlit("--version");
            }
            let c = Command::new("nix").arg("--version").capture(true);
            assert(words_of(c) =~= seq!["nix"@, "--version"@]);
            self.start(Stage::AskingVersion, c)
        } else {
            self.start_build()
        }
    }

    fn start_build(&mut self) -> (r: Action)
        requires
            old(self).out is Some,
            !old(self).approved,
        ensures
            final(self).wf(),
            final(self).stage is Building,
            !activation_stage(final(self).stage),
            final(self).out == old(self).out && final(self).args == old(self).args,
            final(self).mode == old(self).mode && final(self).host == old(self).host,
            final(self).approved == old(self).approved,
            r matches Action::Run(c) && words_of(c) == build_argv(
                toplevel_attr(old(self).args.flakeref@, ns_of(old(self).host.platform), old(self).host_name()),
                old(self).out_view(),
                views(old(self).args.extra_args@),
                !old(self).args.no_nom,
            ) && !c.elevate,
            final(self).entry_actions(old(self).stage, r),
    {
        let target = match &self.args.hostname {
            Some(h) => toplevel(self.args.flakeref.as_str(), self.host.platform, h.as_str()),
            None => toplevel(self.args.flakeref.as_str(), self.host.platform, self.host.hostname.as_str()),
        };
        let message = match self.host.platform {
            Platform::Linux => "Building NixOS configuration",
            Platform::Darwin => "Building Darwin configuration",
        };
        let c = match &self.out {
            Some(o) => build_command(target.as_str(), o.get_path().as_str(), &self.args.extra_args, !self.args.no_nom, message),
            None => build_command(target.as_str(), "", &self.args.extra_args, !self.args.no_nom, message),
        };
        self.start(Stage::Building, c)
    }

    /// After the diff: stop for a dry run or a build-only rebuild, else ask
    /// or go on to activation.
    fn gate(&mut self) -> (r: Action)
        requires
            old(self).wf(),
            old(self).stage is Diffing,
        ensures
            final(self).wf(),
            final(self).out == old(self).out && final(self).args == old(self).args,
            final(self).mode == old(self).mode && final(self).host == old(self).host,
            old(self).args.dry || old(self).mode is Build ==> (r matches Action::Release { outcome: Outcome::Success, .. }
                && final(self).stage is Done),
            !(old(self).args.dry || old(self).mode is Build) && old(self).args.ask ==> r is Confirm
                && final(self).stage is Confirming,
            !(old(self).args.dry || old(self).mode is Build) && !old(self).args.ask ==> final(self).approved
                && old(self).starts_activation(final(self).stage, r),
            r is Release ==> final(self).stage is Done && opt_view(r->remove) == old(self).removal(),
            !(r is Release) ==> !(final(self).stage is Done),
            final(self).stage is TestActivating || final(self).stage is SettingProfile || final(self).stage is Done
                || final(self).stage is Confirming,
            final(self).stage is TestActivating ==> (r matches Action::Run(c) && words_of(c) == activation_argv(
                old(self).target_view(),
                "test"@,
            ) && c.elevate == old(self).activation_elevation()),
            final(self).stage is SettingProfile ==> (r matches Action::Run(c) && words_of(c) == set_profile_argv(
                old(self).out_view(),
            ) && c.elevate == profile_needs_elevation(
                old(self).args.bypass_root_check,
                old(self).host.identity,
                old(self).host.profile_owner,
            )),
    {
        if self.args.dry || self.mode == OsCommandType::Build {
            return self.finish(Outcome::Success);
        }
        if self.args.ask {
            self.stage = Stage::Confirming;
            return Action::Confirm;
        }
        self.approved = true;
        self.activate()
    }

    /// The first activation step of the mode and platform.
    fn activate(&mut self) -> (r: Action)
        requires
            old(self).ready(),
        ensures
            final(self).wf(),
            final(self).out == old(self).out && final(self).args == old(self).args,
            final(self).mode == old(self).mode && final(self).host == old(self).host,
            final(self).approved,
            old(self).starts_activation(final(self).stage, r),
            final(self).stage is TestActivating || final(self).stage is SettingProfile || final(self).stage is Done,
            r is Release ==> final(self).stage is Done && opt_view(r->remove) == old(self).removal(),
            !(r is Release) ==> !(final(self).stage is Done),
            final(self).stage is TestActivating ==> (r matches Action::Run(c) && words_of(c) == activation_argv(
                old(self).target_view(),
                "test"@,
            ) && c.elevate == old(self).activation_elevation()),
            final(self).stage is SettingProfile ==> (r matches Action::Run(c) && words_of(c) == set_profile_argv(
                old(self).out_view(),
            ) && c.elevate == profile_needs_elevation(
                old(self).args.bypass_root_check,
                old(self).host.identity,
                old(self).host.profile_owner,
            )),
    {
        if (self.mode == OsCommandType::Test || self.mode == OsCommandType::Switch) && self.host.platform
            == Platform::Linux {
            proof {
                reveal_strlit("test");
            }
            let elevate = elevate_for_activation(self.args.bypass_root_check, self.host.identity);
            let c = match &self.target {
                Some(t) => activation_command(t.as_str(), "test", elevate, "Activating configuration"),
                None => activation_command("", "test", elevate, "Activating configuration"),
            };
            self.start(Stage::TestActivating, c)
        } else {
            self.persist()
        }
    }

    /// Points the system profile at the build output, for the modes that
    /// change the boot default.
    fn persist(&mut self) -> (r: Action)
        requires
            old(self).ready(),
        ensures
            final(self).wf(),
            final(self).out == old(self).out && final(self).args == old(self).args,
            final(self).mode == old(self).mode && final(self).host == old(self).host,
            final(self).approved,
            r is Release ==> final(self).stage is Done && opt_view(r->remove) == old(self).removal(),
            !(r is Release) ==> !(final(self).stage is Done),
            final(self).stage is SettingProfile ==> (r matches Action::Run(c) && words_of(c) == set_profile_argv(
                old(self).out_view(),
            ) && c.elevate == profile_needs_elevation(
                old(self).args.bypass_root_check,
                old(self).host.identity,
                old(self).host.profile_owner,
            )),
            (old(self).mode is Boot || old(self).mode is Switch) <==> final(self).stage is SettingProfile,
            !(old(self).mode is Boot || old(self).mode is Switch) ==> (r matches Action::Release {
                outcome: Outcome::Success,
                ..
            }),
            final(self).stage is SettingProfile || final(self).stage is Done,
    {
        if self.mode == OsCommandType::Boot || self.mode == OsCommandType::Switch {
            proof {
                reveal_strlit("nix-env");
                reveal_strlit("--profile");
                reveal_strlit("--set");
            }
            let elevate = elevate_for_profile(self.args.bypass_root_check, self.host.identity, self.host.profile_owner);
            let mut c = Command::new("nix-env").arg("--profile").arg(SYSTEM_PROFILE).arg("--set");
            match &self.out {
                Some(o) => {
                    c = c.arg(o.get_path().as_str());
                },
                None => {},
            }
            let c = c.root(elevate);
            assert(words_of(c) =~= set_profile_argv(self.out_view()));
            self.start(Stage::SettingProfile, c)
        } else {
            self.finish(Outcome::Success)
        }
    }

    /// Registers the base profile with the boot loader, or runs the
    /// platform's activation scripts.
    fn register(&mut self) -> (r: Action)
        requires
            old(self).ready(),
        ensures
            final(self).wf(),
            final(self).out == old(self).out && final(self).args == old(self).args,
            final(self).mode == old(self).mode && final(self).host == old(self).host,
            final(self).approved,
            !(r is Release) && !(final(self).stage is Done),
            final(self).stage is BootActivating <==> old(self).host.platform is Linux,
            final(self).stage is BootActivating || final(self).stage is UserActivating,
            final(self).stage is BootActivating ==> (r matches Action::Run(c) && words_of(c) == activation_argv(
                old(self).out_view(),
                "boot"@,
            ) && c.elevate == old(self).activation_elevation()),
            final(self).stage is UserActivating ==> (r matches Action::Run(c) && words_of(c) == seq![
                joined(old(self).out_view(), "activate-user"@),
            ] && !c.elevate),
    {
        proof {
            reveal_strlit("boot");
            reveal_strlit("activate-user");
        }
        let out = match &self.out {
            Some(o) => owned(o.get_path().as_str()),
            None => owned(""),
        };
        match self.host.platform {
            Platform::Linux => {
                let elevate = elevate_for_activation(self.args.bypass_root_check, self.host.identity);
                let c = activation_command(out.as_str(), "boot", elevate, "Adding configuration to bootloader");
                self.start(Stage::BootActivating, c)
            },
            Platform::Darwin => {
                let c = script_command(out.as_str(), "activate-user", false, "Activating configuration for user");
                self.start(Stage::UserActivating, c)
            },
        }
    }
}

impl Rebuild {
    /// Advances the run by one event: the answer to the action the previous
    /// call returned. Returns the next action.
    #[verifier::rlimit(100)]
    pub fn step(&mut self, event: Event) -> (r: Action)
        requires
            old(self).wf(),
        ensures
            final(self).wf(),
            final(self).args == old(self).args && final(self).mode == old(self).mode,
            final(self).host == old(self).host,
            old(self).out is Some ==> final(self).out == old(self).out,
            old(self).stage is Done ==> r is Halt && final(self).stage is Done,
            r is Release <==> !(old(self).stage is Done) && final(self).stage is Done,
            r is Release ==> opt_view(r->remove) == final(self).removal(),
            reads_out(r) ==> !(final(self).stage is Done) && final(self).out is Some,
            (old(self).mode is Build || old(self).args.dry) ==> !activation_stage(final(self).stage)
                && !(r is Confirm),
            activation_stage(final(self).stage) ==> final(self).approved,
            // the output directory
            old(self).stage is AwaitOut && event is TempDir ==> match event->TempDir_0 {
                Some(d) => final(self).out matches Some(o) && o.backing_view() == Some(d@) && o.path_view()
                    == joined(d@, "result"@),
                None => r matches Action::Release { outcome: Outcome::Failed(RebuildError::TempDir), .. },
            },
            final(self).entry_actions(old(self).stage, r),
            old(self).stage is AwaitOut && (event matches Event::TempDir(Some(_))) ==> final(self).stage
                == final(self).first_stage(),
            // sync and input update
            event matches Event::Exited(code) ==> (old(self).stage is Pulling && old(self).exit_ok(code)
                && !old(self).args.update ==> final(self).stage is Building),
            event matches Event::Exited(code) ==> (old(self).stage is Pulling && old(self).exit_ok(code)
                && old(self).args.update ==> (r matches Action::Capture(c) && words_of(c) == probe_argv(
                old(self).args.flakeref@,
            ) && c.elevate == old(self).source_elevation() && final(self).stage is Probing)),
            event matches Event::Captured { code, stdout } ==> (old(self).stage is Probing && old(self).exit_ok(
                code,
            ) ==> match classify(stdout@) {
                Conflicts::Other => r matches Action::Release {
                    outcome: Outcome::Failed(RebuildError::Conflicts),
                    ..
                },
                Conflicts::LockFile => r matches Action::Run(c) && words_of(c) == lock_reset_argvs(
                    old(self).args.flakeref@,
                )[0] && c.elevate == old(self).source_elevation() && final(self).stage is Resetting,
                Conflicts::Clean => r is Capture && final(self).stage is AskingVersion,
            }),
            event matches Event::Exited(code) ==> (old(self).stage is Resetting && old(self).exit_ok(code) ==> (
            r matches Action::Run(c) && words_of(c) == lock_reset_argvs(old(self).args.flakeref@)[1]
                && c.elevate == old(self).source_elevation() && final(self).stage is CheckingOut)),
            event matches Event::Captured { code, stdout } ==> (old(self).stage is AskingVersion ==> if old(
                self,
            ).exit_ok(code) {
                r matches Action::Run(c) && words_of(c) == update_argv(
                    reported_version(stdout@),
                    old(self).args.flakeref@,
                ) && c.elevate == old(self).source_elevation()
            } else {
                r matches Action::Release { outcome: Outcome::Failed(RebuildError::NixVersion), .. }
            }),
            event matches Event::Exited(code) ==> (old(self).stage is Updating && old(self).exit_ok(code) ==> (
            final(self).stage is Building && r is Run)),
            // build, specialisation and diff
            event matches Event::Exited(code) ==> (old(self).stage is Building && old(self).exit_ok(code) ==> (
            r is ReadSpecialisation && final(self).stage is ReadingSpec)),
            event matches Event::FileText(current) ==> (old(self).stage is ReadingSpec ==> (final(self).stage is CheckingProfile &&
            final(self).target is Some && final(self).target_view() == profile_of(
                old(self).out_view(),
                resolved(old(self).args.no_specialisation, opt_view(current), opt_view(old(self).args.specialisation)),
            ) && (r matches Action::CheckExists(p) && p@ == final(self).target_view()))),
            event matches Event::Exists(found) ==> (old(self).stage is CheckingProfile ==> if found {
                r matches Action::Run(c) && words_of(c) == diff_argv(
                    old(self).args.diff_provider@,
                    old(self).target_view(),
                ) && !c.elevate && final(self).stage is Diffing
            } else {
                r matches Action::Release { outcome: Outcome::Failed(RebuildError::MissingProfile(_)), .. }
            }),
            // the diff may fail; then the gates
            old(self).stage is Diffing && event is Exited ==> if old(self).args.dry || old(
                self,
            ).mode is Build {
                r matches Action::Release { outcome: Outcome::Success, .. }
            } else if old(self).args.ask {
                r is Confirm && final(self).stage is Confirming
            } else {
                final(self).approved && old(self).starts_activation(final(self).stage, r)
            },
            event matches Event::Answer(yes) ==> (old(self).stage is Confirming ==> if yes {
                final(self).approved && old(self).starts_activation(final(self).stage, r)
            } else {
                r matches Action::Release { outcome: Outcome::Declined, .. }
            }),
            // activation
            final(self).stage is TestActivating && !(old(self).stage is TestActivating) ==> (
            r matches Action::Run(c) && words_of(c) == activation_argv(old(self).target_view(), "test"@)
                && c.elevate == old(self).activation_elevation()),
            final(self).stage is SettingProfile && !(old(self).stage is SettingProfile) ==> (
            r matches Action::Run(c) && words_of(c) == set_profile_argv(old(self).out_view()) && c.elevate
                == profile_needs_elevation(
                old(self).args.bypass_root_check,
                old(self).host.identity,
                old(self).host.profile_owner,
            )),
            final(self).stage is BootActivating && !(old(self).stage is BootActivating) ==> (
            r matches Action::Run(c) && words_of(c) == activation_argv(old(self).out_view(), "boot"@)
                && c.elevate == old(self).activation_elevation()),
            final(self).stage is UserActivating && !(old(self).stage is UserActivating) ==> (
            r matches Action::Run(c) && words_of(c) == seq![joined(old(self).out_view(), "activate-user"@)]
                && !c.elevate),
            final(self).stage is Activating && !(old(self).stage is Activating) ==> (
            r matches Action::Run(c) && words_of(c) == seq![joined(old(self).out_view(), "activate"@)]
                && c.elevate == old(self).activation_elevation()),
            event matches Event::Exited(code) ==> (old(self).exit_ok(code) ==> (old(self).stage is CheckingOut
                ==> final(self).stage is AskingVersion)),
            event matches Event::Exited(code) ==> (old(self).exit_ok(code) ==> (old(self).stage is TestActivating
                ==> if old(self).mode is Boot || old(self).mode is Switch {
                final(self).stage is SettingProfile
            } else {
                r matches Action::Release { outcome: Outcome::Success, .. }
            })),
            event matches Event::Exited(code) ==> (old(self).exit_ok(code) ==> (old(self).stage is SettingProfile
                ==> if old(self).host.platform is Linux {
                final(self).stage is BootActivating
            } else {
                final(self).stage is UserActivating
            })),
            event matches Event::Exited(code) ==> (old(self).exit_ok(code) ==> (old(self).stage is UserActivating
                ==> final(self).stage is Activating)),
            event matches Event::Exited(code) ==> (old(self).exit_ok(code) ==> (old(self).stage is BootActivating
                || old(self).stage is Activating ==> (r matches Action::Release { outcome: Outcome::Success, .. }))),
            // failures of commands
            event matches Event::Exited(code) ==> (answers(old(self).stage, event) && !(old(self).stage is Diffing)
                && !(old(self).stage is Done) && !(old(self).stage is AskingVersion) && !old(self).exit_ok(code)
                ==> (r matches Action::Release {
                outcome: Outcome::Failed(RebuildError::Command(e)),
                ..
            } && old(self).pending matches Some(p) && e.program@ == p.program@ && e.code == code)),
            event matches Event::Captured { code, .. } ==> (answers(old(self).stage, event) && !(old(self).stage is Diffing) && !(old(self).stage is Done) && !(old(self).stage is AskingVersion)
                && !old(self).exit_ok(code) ==> (r matches Action::Release {
                outcome: Outcome::Failed(RebuildError::Command(e)),
                ..
            } && old(self).pending matches Some(p) && e.program@ == p.program@ && e.code == code)),
            // an event that does not answer the pending action
            !(old(self).stage is Done) && !answers(old(self).stage, event) ==> (r matches Action::Release {
                outcome: Outcome::Failed(RebuildError::Unexpected),
                ..
            }),
    {
        proof {
            reveal_strlit("activate");
        }
        match self.stage {
            Stage::Done => {
                return Action::Halt;
            },
            Stage::AwaitOut => {
                return match event {
                    Event::TempDir(Some(d)) => {
                        self.out = Some(OutPath::ephemeral(d.as_str()));
                        self.after_out()
                    },
                    Event::TempDir(None) => self.finish(Outcome::Failed(RebuildError::TempDir)),
                    _ => self.finish(Outcome::Failed(RebuildError::Unexpected)),
                };
            },
            Stage::ReadingSpec => {
                return match event {
                    Event::FileText(current) => {
                        let spec = resolve(self.args.no_specialisation, current, &self.args.specialisation);
                        let target = match &self.out {
                            Some(o) => profile_path(o.get_path().as_str(), &spec),
                            None => profile_path("", &spec),
                        };
                        let check = owned(target.as_str());
                        self.target = Some(target);
                        self.stage = Stage::CheckingProfile;
                        Action::CheckExists(check)
                    },
                    _ => self.finish(Outcome::Failed(RebuildError::Unexpected)),
                };
            },
            Stage::CheckingProfile => {
                return match event {
                    Event::Exists(true) => {
                        proof {
                            reveal_strlit("/run/current-system");
                        }
                        let mut argv = split_words(self.args.diff_provider.as_str());
                        push_str(&mut argv, CURRENT_PROFILE);
                        match &self.target {
                            Some(t) => push_str(&mut argv, t.as_str()),
                            None => push_str(&mut argv, ""),
                        }
                        assert(views(argv@).len() == argv@.len());
                        let c = from_argv(&argv).message("Comparing changes");
                        self.start(Stage::Diffing, c)
                    },
                    Event::Exists(false) => {
                        let missing = match &self.target {
                            Some(t) => owned(t.as_str()),
                            None => owned(""),
                        };
                        self.finish(Outcome::Failed(RebuildError::MissingProfile(missing)))
                    },
                    _ => self.finish(Outcome::Failed(RebuildError::Unexpected)),
                };
            },
            Stage::Diffing => {
                return match event {
                    Event::Exited(_) => self.gate(),
                    _ => self.finish(Outcome::Failed(RebuildError::Unexpected)),
                };
            },
            Stage::Confirming => {
                return match event {
                    Event::Answer(true) => {
                        self.approved = true;
                        self.activate()
                    },
                    Event::Answer(false) => self.finish(Outcome::Declined),
                    _ => self.finish(Outcome::Failed(RebuildError::Unexpected)),
                };
            },
            _ => {},
        }
        // The remaining stages wait for a command.
        let (code, stdout) = match event {
            Event::Exited(code) => (code, None),
            Event::Captured { code, stdout } => (code, Some(stdout)),
            _ => {
                return self.finish(Outcome::Failed(RebuildError::Unexpected));
            },
        };
        match self.judge(code) {
            Err(e) => {
                if self.stage == Stage::AskingVersion {
                    return self.finish(Outcome::Failed(RebuildError::NixVersion));
                }
                return self.finish(Outcome::Failed(e));
            },
            Ok(()) => {},
        }
        match self.stage {
            Stage::Pulling => self.after_pull(),
            Stage::Probing => {
                let out = match stdout {
                    Some(s) => s,
                    None => owned(""),
                };
                let elevate = elevate_for_source(self.args.bypass_root_check, self.host.identity, self.host.flake_owner);
                match crate::update::resolve_conflicts(self.args.flakeref.as_str(), out.as_str(), elevate) {
                    Err(_) => self.finish(Outcome::Failed(RebuildError::Conflicts)),
                    Ok(mut cmds) => {
                        assert(argvs(cmds@).len() == cmds@.len());
                        if cmds.len() == 0 {
                            assert(classify(out@) == Conflicts::Clean);
                            self.after_sync()
                        } else {
                            assert(argvs(cmds@)[0] == words_of(cmds@[0]));
                            assert(cmds@[0].elevate == elevate && !cmds@[0].capture);
                            let c = cmds.remove(0);
                            assert(words_of(c) == lock_reset_argvs(self.args.flakeref@)[0]);
                            assert(c.elevate == self.source_elevation());
                            self.start(Stage::Resetting, c)
                        }
                    },
                }
            },
            Stage::Resetting => {
                proof {
                    reveal_strlit("checkout");
                }
                let elevate = elevate_for_source(self.args.bypass_root_check, self.host.identity, self.host.flake_owner);
                let c = lock_command(self.args.flakeref.as_str(), "checkout", "Checking out flake.lock", elevate);
                self.start(Stage::CheckingOut, c)
            },
            Stage::CheckingOut => self.after_sync(),
            Stage::AskingVersion => {
                let out = match stdout {
                    Some(s) => s,
                    None => owned(""),
                };
                let version = version_from_output(out.as_str());
                let argv = update_args(version.as_str(), self.args.flakeref.as_str());
                let elevate = elevate_for_source(self.args.bypass_root_check, self.host.identity, self.host.flake_owner);
                assert(views(argv@).len() == argv@.len());
                assert(update_argv(version@, self.args.flakeref@).len() >= 2);
                let c = from_argv(&argv).message("Updating flake").root(elevate);
                self.start(Stage::Updating, c)
            },
            Stage::Updating => self.start_build(),
            Stage::Building => {
                self.stage = Stage::ReadingSpec;
                self.pending = None;
                Action::ReadSpecialisation
            },
            Stage::TestActivating => self.persist(),
            Stage::SettingProfile => self.register(),
            Stage::UserActivating => {
                let elevate = elevate_for_activation(self.args.bypass_root_check, self.host.identity);
                let out = match &self.out {
                    Some(o) => owned(o.get_path().as_str()),
                    None => owned(""),
                };
                let c = script_command(out.as_str(), "activate", elevate, "Activating configuration");
                self.start(Stage::Activating, c)
            },
            // BootActivating and Activating: the last step succeeded.
            _ => self.finish(Outcome::Success),
        }
    }
}

/// A build-only or dry run never reaches confirmation or any activation
/// step: every state it passes through satisfies `wf`, which `rebuild`
/// establishes and `step` preserves.
pub proof fn build_only_never_activates(run: Rebuild)
    requires
        run.wf(),
        run.mode is Build || run.args.dry,
    ensures
        !activation_stage(run.stage),
        !(run.stage is Confirming),
        !run.approved,
{
}

/// While a run has not ended, the output path it acquired is still held:
/// every step that reads it comes before the release.
pub proof fn output_held_until_release(run: Rebuild)
    requires
        run.wf(),
        !(run.stage is AwaitOut),
        !(run.stage is Done),
    ensures
        run.out is Some,
{
}

} // verus!
