use vstd::prelude::*;
use vstd::string::*;

use crate::command::{words_of, Command, ExecError};
use crate::privilege::{elevate_for_source, source_needs_elevation, Identity, Ownership};
use crate::version::{needs_flake_flag, takes_flake_flag};
use crate::text::{owned, same_text};

verus! {

/// What a command of the tool can be pointed at.
pub enum Installable {
    Flake { reference: String, attribute: Vec<String> },
    File { path: String, attribute: Vec<String> },
    Store { path: String },
    Expression { expression: String, attribute: Vec<String> },
}

pub open spec fn kind_name(i: Installable) -> Seq<char> {
    match i {
        Installable::Flake { .. } => "flake"@,
        Installable::File { .. } => "file"@,
        Installable::Store { .. } => "store path"@,
        Installable::Expression { .. } => "expression"@,
    }
}

impl Installable {
    /// A short name of the kind of installable, for messages.
    pub fn str_kind(&self) -> (r: &'static str)
        ensures
            r@ == kind_name(*self),
    {
        proof {
            reveal_strlit("flake");
            reveal_strlit("file");
            reveal_strlit("store path");
            reveal_strlit("expression");
        }
        match self {
            Installable::Flake { .. } => "flake",
            Installable::File { .. } => "file",
            Installable::Store { .. } => "store path",
            Installable::Expression { .. } => "expression",
        }
    }
}

/// `nix flake update [<input>] [--flake] <reference>`, with `--flake` only
/// where the build tool's version needs it.
pub open spec fn flake_update_argv(input: Option<String>, version: Seq<char>, reference: Seq<char>) -> Seq<
    Seq<char>,
> {
    seq!["nix"@, "flake"@, "update"@] + (match input {
        Some(i) => seq![i@],
        None => seq![],
    }) + (if needs_flake_flag(version) {
        seq!["--flake"@]
    } else {
        seq![]
    }) + seq![reference]
}

/// `git -C <reference> <rest>`.
pub open spec fn git_argv(reference: Seq<char>, rest: Seq<Seq<char>>) -> Seq<Seq<char>> {
    seq!["git"@, "-C"@, reference] + rest
}

/// The conflict probe: paths with unresolved merge conflicts.
pub open spec fn probe_argv(reference: Seq<char>) -> Seq<Seq<char>> {
    git_argv(reference, seq!["diff"@, "--name-only"@, "--diff-filter=U"@])
}

/// The lock file's name, as the conflict probe prints it when it alone conflicts.
pub open spec fn lock_only() -> Seq<char> {
    "flake.lock\n"@
}

/// What the conflict probe's output calls for.
#[derive(Clone, Copy, Debug, PartialEq, Eq, Structural)]
pub enum Conflicts {
    /// Nothing conflicts.
    Clean,
    /// Only the lock file conflicts: reset it and check it out again.
    LockFile,
    /// Other files conflict: give up.
    Other,
}

pub open spec fn classify(out: Seq<char>) -> Conflicts {
    if out.len() == 0 {
        Conflicts::Clean
    } else if out == lock_only() {
        Conflicts::LockFile
    } else {
        Conflicts::Other
    }
}

/// Conflicts in files other than the lock file, which are never resolved here.
#[derive(Clone, Copy, Debug, PartialEq, Eq, Structural)]
pub struct ConflictError;

/// The commands that recover a lock-file conflict, in order.
pub open spec fn lock_reset_argvs(reference: Seq<char>) -> Seq<Seq<Seq<char>>> {
    seq![
        git_argv(reference, seq!["reset"@, "flake.lock"@]),
        git_argv(reference, seq!["checkout"@, "flake.lock"@]),
    ]
}

pub open spec fn argvs(v: Seq<Command>) -> Seq<Seq<Seq<char>>> {
    v.map_values(|c: Command| words_of(c))
}

/// Classifies the conflict probe's output.
pub fn conflicts_of(out: &str) -> (r: Conflicts)
    ensures
        r == classify(out@),
{
    proof {
        reveal_strlit("flake.lock\n");
    }
    if out.unicode_len() == 0 {
        Conflicts::Clean
    } else if same_text(out, "flake.lock\n") {
        Conflicts::LockFile
    } else {
        Conflicts::Other
    }
}

/// `git -C <reference> <verb> flake.lock`.
pub(crate) fn lock_command(reference: &str, verb: &str, message: &str, elevate: bool) -> (r: Command)
    ensures
        words_of(r) == git_argv(reference@, seq![verb@, "flake.lock"@]),
        r.elevate == elevate && !r.dry && !r.capture && !r.formatter,
{
    proof {
        reveal_strlit("git");
        reveal_strlit("-C");
        reveal_strlit("flake.lock");
    }
    let c = Command::new("git").arg("-C").arg(reference).arg(verb).arg("flake.lock").message(message).root(elevate);
    assert(words_of(c) =~= git_argv(reference@, seq![verb@, "flake.lock"@]));
    c
}

/// The commands that the conflict probe's output calls for: none when
/// nothing conflicts, the lock-file reset and checkout when only the lock
/// file conflicts, an error otherwise.
pub fn resolve_conflicts(reference: &str, out: &str, elevate: bool) -> (r: Result<Vec<Command>, ConflictError>)
    ensures
        r is Err <==> classify(out@) == Conflicts::Other,
        r matches Ok(v) ==> argvs(v@) == (if classify(out@) == Conflicts::LockFile {
            lock_reset_argvs(reference@)
        } else {
            seq![]
        }),
        r matches Ok(v) ==> forall|k: int| 0 <= k < v@.len() ==> v@[k].elevate == elevate && !v@[k].dry && !v@[k].capture,
{
    proof {
        reveal_strlit("reset");
        reveal_strlit("checkout");
    }
    match conflicts_of(out) {
        Conflicts::Clean => {
            let v: Vec<Command> = Vec::new();
            assert(argvs(v@) =~= seq![]);
            Ok(v)
        },
        Conflicts::LockFile => {
            let mut v: Vec<Command> = Vec::new();
            v.push(lock_command(reference, "reset", "Resetting flake.lock", elevate));
            v.push(lock_command(reference, "checkout", "Checking out flake.lock", elevate));
            assert(argvs(v@) =~= lock_reset_argvs(reference@));
            Ok(v)
        },
        Conflicts::Other => Err(ConflictError),
    }
}

/// The input update of a flake, all inputs or the one named, in the syntax
/// of the build tool at version `nix_version`, elevated under the rule for
/// the flake source; `None` for an installable that is not a flake, which
/// cannot be updated.
pub fn update(
    installable: &Installable,
    input: Option<String>,
    nix_version: &str,
    bypass: bool,
    id: Identity,
    owner: Option<Ownership>,
) -> (r: Option<Command>)
    ensures
        installable is Flake <==> r is Some,
        r matches Some(c) ==> installable matches Installable::Flake { reference, .. } && words_of(c)
            == flake_update_argv(input, nix_version@, reference@),
        r matches Some(c) ==> c.elevate == source_needs_elevation(bypass, id, owner) && !c.dry && !c.capture
            && !c.formatter,
{
    proof {
        reveal_strlit("nix");
        reveal_strlit("flake");
        reveal_strlit("update");
        reveal_strlit("--flake");
    }
    match installable {
        Installable::Flake { reference, .. } => {
            let mut cmd = Command::new("nix").arg("flake").arg("update");
            match &input {
                Some(i) => {
                    let m = owned("Updating flake input ").concat(i.as_str());
                    cmd = cmd.arg(i.as_str()).message(m.as_str());
                },
                None => {
                    cmd = cmd.message("Updating all flake inputs");
                },
            }
            if takes_flake_flag(nix_version) {
                cmd = cmd.arg("--flake");
            }
            let cmd = cmd.arg(reference.as_str()).root(elevate_for_source(bypass, id, owner));
            assert(words_of(cmd) =~= flake_update_argv(input, nix_version@, reference@));
            Some(cmd)
        },
        _ => None,
    }
}

/// The first command of the sync of a flake's repository:
/// `git -C <reference> pull` (printed only when `dry`), elevated under the
/// rule for the flake source. `None` for an installable that is not a flake.
/// What follows it comes from `pull_step`.
pub fn pull(installable: &Installable, dry: bool, bypass: bool, id: Identity, owner: Option<Ownership>) -> (r:
    Option<Command>)
    ensures
        installable is Flake <==> r is Some,
        r matches Some(c) ==> installable matches Installable::Flake { reference, .. } && words_of(c)
            == git_argv(reference@, seq!["pull"@]),
        r matches Some(c) ==> c.dry == dry && c.elevate == source_needs_elevation(bypass, id, owner)
            && !c.capture,
{
    proof {
        reveal_strlit("git");
        reveal_strlit("-C");
        reveal_strlit("pull");
    }
    match installable {
        Installable::Flake { reference, .. } => {
            let p = Command::new("git").arg("-C").arg(reference.as_str()).arg("pull").dry(dry).message(
                "Pulling git repository",
            ).root(elevate_for_source(bypass, id, owner));
            assert(words_of(p) =~= git_argv(reference@, seq!["pull"@]));
            Some(p)
        },
        _ => None,
    }
}

/// The commands of a sync, each named by what it does.
#[derive(Clone, Copy, Debug, PartialEq, Eq, Structural)]
pub enum SyncStage {
    Pulling,
    Probing,
    Resetting,
    CheckingOut,
}

/// Why a sync failed.
#[derive(Debug)]
pub enum SyncError {
    /// A git command exited unsuccessfully.
    Command(ExecError),
    /// Files other than the lock file have merge conflicts.
    Conflicts,
}

/// What a sync does after one of its commands finished.
pub enum SyncStep {
    /// Run this command next; it is the named stage.
    Next(SyncStage, Command),
    /// The sync is complete.
    Finished,
    Failed(SyncError),
}

/// The conflict probe as a command.
fn probe_command(reference: &str, elevate: bool) -> (r: Command)
    ensures
        words_of(r) == probe_argv(reference@),
        r.elevate == elevate && r.capture && !r.dry && !r.formatter,
{
    proof {
        reveal_strlit("git");
        reveal_strlit("-C");
        reveal_strlit("diff");
        reveal_strlit("--name-only");
        reveal_strlit("--diff-filter=U");
    }
    let c = Command::new("git").arg("-C").arg(reference).arg("diff").arg("--name-only").arg(
        "--diff-filter=U",
    ).message("Checking for conflicts").root(elevate).capture(true);
    assert(words_of(c) =~= probe_argv(reference@));
    c
}

/// Decides the sync's next command after the command of stage `done`
/// exited with `code` (and printed `stdout`, for the probe). A failed
/// command ends the sync: no probe follows a failed pull, no checkout a
/// failed reset. The probe runs only when inputs are about to be updated.
pub fn pull_step(
    reference: &str,
    update: bool,
    elevate: bool,
    done: SyncStage,
    program: &str,
    code: Option<i32>,
    stdout: &str,
) -> (r: SyncStep)
    ensures
        code != Some(0i32) ==> (r matches SyncStep::Failed(SyncError::Command(e)) && e.program@ == program@
            && e.code == code),
        code == Some(0i32) ==> match done {
            SyncStage::Pulling => if update {
                r matches SyncStep::Next(SyncStage::Probing, c) && words_of(c) == probe_argv(reference@)
                    && c.elevate == elevate && c.capture
            } else {
                r is Finished
            },
            SyncStage::Probing => match classify(stdout@) {
                Conflicts::Clean => r is Finished,
                Conflicts::LockFile => r matches SyncStep::Next(SyncStage::Resetting, c) && words_of(c)
                    == lock_reset_argvs(reference@)[0] && c.elevate == elevate && !c.capture,
                Conflicts::Other => r matches SyncStep::Failed(SyncError::Conflicts),
            },
            SyncStage::Resetting => r matches SyncStep::Next(SyncStage::CheckingOut, c) && words_of(c)
                == lock_reset_argvs(reference@)[1] && c.elevate == elevate && !c.capture,
            SyncStage::CheckingOut => r is Finished,
        },
{
    proof {
        reveal_strlit("reset");
        reveal_strlit("checkout");
    }
    match code {
        Some(0i32) => {},
        _ => {
            return SyncStep::Failed(SyncError::Command(ExecError { program: owned(program), code }));
        },
    }
    match done {
        SyncStage::Pulling => if update {
            SyncStep::Next(SyncStage::Probing, probe_command(reference, elevate))
        } else {
            SyncStep::Finished
        },
        SyncStage::Probing => match conflicts_of(stdout) {
            Conflicts::Clean => SyncStep::Finished,
            Conflicts::LockFile => SyncStep::Next(
                SyncStage::Resetting,
                lock_command(reference, "reset", "Resetting flake.lock", elevate),
            ),
            Conflicts::Other => SyncStep::Failed(SyncError::Conflicts),
        },
        SyncStage::Resetting => SyncStep::Next(
            SyncStage::CheckingOut,
            lock_command(reference, "checkout", "Checking out flake.lock", elevate),
        ),
        SyncStage::CheckingOut => SyncStep::Finished,
    }
}

/// The probe's output decides: empty means nothing to do, exactly the lock
/// file means reset and check it out, anything else is fatal.
pub proof fn conflict_outcomes(out: Seq<char>)
    ensures
        out.len() == 0 ==> classify(out) == Conflicts::Clean,
        out == lock_only() ==> classify(out) == Conflicts::LockFile,
        out.len() > 0 && out != lock_only() ==> classify(out) == Conflicts::Other,
{
    reveal_strlit("flake.lock\n");
}

} // verus!
