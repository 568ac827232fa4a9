use vstd::prelude::*;
use vstd::string::*;

use crate::text::{owned, push_all, push_str, views};

verus! {

/// One external invocation: program, arguments and how to run it.
pub struct Command {
    pub program: String,
    pub args: Vec<String>,
    /// A step label shown before the command runs.
    pub message: Option<String>,
    /// Run through the elevation program.
    pub elevate: bool,
    /// Print the command instead of running it.
    pub dry: bool,
    /// Capture standard output instead of streaming it.
    pub capture: bool,
    /// Pipe the output through the build-log formatter.
    pub formatter: bool,
}

/// A command that exited unsuccessfully.
#[derive(Debug)]
pub struct ExecError {
    pub program: String,
    /// The exit code; `None` when the process did not exit normally.
    pub code: Option<i32>,
}

/// The program that runs a command as the privileged user.
pub const ELEVATOR: &'static str = "sudo";

/// The argument vector actually started: the elevation program first when
/// the command is elevated.
pub open spec fn argv(c: Command) -> Seq<Seq<char>> {
    (if c.elevate {
        seq!["sudo"@]
    } else {
        seq![]
    }) + seq![c.program@] + views(c.args@)
}

/// The program and arguments, as built.
pub open spec fn words_of(c: Command) -> Seq<Seq<char>> {
    seq![c.program@] + views(c.args@)
}

/// The run counts as successful: it was a dry run, or it exited with code 0.
pub open spec fn succeeded(c: Command, code: Option<i32>) -> bool {
    c.dry || code == Some(0i32)
}

impl Command {
    pub fn new(program: &str) -> (r: Command)
        ensures
            r.program@ == program@,
            r.args@.len() == 0,
            r.message is None,
            !r.elevate && !r.dry && !r.capture && !r.formatter,
    {
        Command {
            program: owned(program),
            args: Vec::new(),
            message: None,
            elevate: false,
            dry: false,
            capture: false,
            formatter: false,
        }
    }

    pub fn arg(self, a: &str) -> (r: Command)
        ensures
            r.program@ == self.program@,
            views(r.args@) == views(self.args@).push(a@),
            r.message == self.message,
            r.elevate == self.elevate && r.dry == self.dry,
            r.capture == self.capture && r.formatter == self.formatter,
    {
        let mut c = self;
        push_str(&mut c.args, a);
        c
    }

    pub fn args(self, a: &Vec<String>) -> (r: Command)
        ensures
            r.program@ == self.program@,
            views(r.args@) == views(self.args@) + views(a@),
            r.message == self.message,
            r.elevate == self.elevate && r.dry == self.dry,
            r.capture == self.capture && r.formatter == self.formatter,
    {
        let mut c = self;
        push_all(&mut c.args, a);
        c
    }

    pub fn message(self, m: &str) -> (r: Command)
        ensures
            r.program@ == self.program@,
            r.args@ == self.args@,
            r.message matches Some(s) && s@ == m@,
            r.elevate == self.elevate && r.dry == self.dry,
            r.capture == self.capture && r.formatter == self.formatter,
    {
        let mut c = self;
        c.message = Some(owned(m));
        c
    }

    pub fn root(self, elevate: bool) -> (r: Command)
        ensures
            r.program@ == self.program@,
            r.args@ == self.args@,
            r.message == self.message,
            r.elevate == elevate && r.dry == self.dry,
            r.capture == self.capture && r.formatter == self.formatter,
    {
        let mut c = self;
        c.elevate = elevate;
        c
    }

    pub fn dry(self, dry: bool) -> (r: Command)
        ensures
            r.program@ == self.program@,
            r.args@ == self.args@,
            r.message == self.message,
            r.elevate == self.elevate && r.dry == dry,
            r.capture == self.capture && r.formatter == self.formatter,
    {
        let mut c = self;
        c.dry = dry;
        c
    }

    pub fn capture(self, capture: bool) -> (r: Command)
        ensures
            r.program@ == self.program@,
            r.args@ == self.args@,
            r.message == self.message,
            r.elevate == self.elevate && r.dry == self.dry,
            r.capture == capture && r.formatter == self.formatter,
    {
        let mut c = self;
        c.capture = capture;
        c
    }

    pub fn formatter(self, formatter: bool) -> (r: Command)
        ensures
            r.program@ == self.program@,
            r.args@ == self.args@,
            r.message == self.message,
            r.elevate == self.elevate && r.dry == self.dry,
            r.capture == self.capture && r.formatter == formatter,
    {
        let mut c = self;
        c.formatter = formatter;
        c
    }

    /// The argument vector to start, elevation program included.
    pub fn invocation(&self) -> (r: Vec<String>)
        ensures
            views(r@) == argv(*self),
    {
        proof {
            reveal_strlit("sudo");
        }
        let mut r: Vec<String> = Vec::new();
        if self.elevate {
            push_str(&mut r, ELEVATOR);
        }
        push_str(&mut r, self.program.as_str());
        push_all(&mut r, &self.args);
        assert(views(r@) =~= argv(*self));
        r
    }

    /// Whether the command is to be started at all.
    pub fn executes(&self) -> (r: bool)
        ensures
            r == !self.dry,
    {
        !self.dry
    }

    /// Judges a finished run by its exit code.
    pub fn check_exit(&self, code: Option<i32>) -> (r: Result<(), ExecError>)
        ensures
            r is Ok <==> succeeded(*self, code),
            r matches Err(e) ==> e.program@ == self.program@ && e.code == code,
    {
        if self.dry {
            return Ok(());
        }
        match code {
            Some(0i32) => Ok(()),
            _ => Err(ExecError { program: self.program.clone(), code }),
        }
    }
}

/// A plain command from an argument vector whose first entry is the program.
pub fn from_argv(argv: &Vec<String>) -> (r: Command)
    requires
        argv@.len() > 0,
    ensures
        words_of(r) == views(argv@),
        r.message is None,
        !r.elevate && !r.dry && !r.capture && !r.formatter,
{
    let mut c = Command::new(argv[0].as_str());
    let mut k: usize = 1;
    while k < argv.len()
        invariant
            1 <= k <= argv@.len(),
            words_of(c) == views(argv@).take(k as int),
            c.message is None,
            !c.elevate && !c.dry && !c.capture && !c.formatter,
        decreases argv@.len() - k,
    {
        c = c.arg(argv[k].as_str());
        assert(views(argv@).take(k as int + 1) =~= views(argv@).take(k as int).push(argv@[k as int]@));
        k = k + 1;
    }
    assert(views(argv@).take(argv@.len() as int) =~= views(argv@));
    c
}

/// The build invocation: `nix build <target> --out-link <out> [extra args]`,
/// with the structured log output the formatter reads when it is enabled.
pub open spec fn build_argv(target: Seq<char>, out: Seq<char>, extra: Seq<Seq<char>>, formatter: bool) -> Seq<Seq<char>> {
    seq!["nix"@, "build"@, target, "--out-link"@, out] + extra + (if formatter {
        seq!["--log-format"@, "internal-json"@, "--verbose"@]
    } else {
        seq![]
    })
}

/// Builds the command for `nix build`, routed through the log formatter when
/// `formatter` is set.
pub fn build_command(target: &str, out: &str, extra: &Vec<String>, formatter: bool, message: &str) -> (r: Command)
    ensures
        words_of(r) == build_argv(target@, out@, views(extra@), formatter),
        r.formatter == formatter,
        r.message matches Some(m) && m@ == message@,
        !r.elevate && !r.dry && !r.capture,
{
    proof {
        reveal_strlit("nix");
        reveal_strlit("build");
        reveal_strlit("--out-link");
        reveal_strlit("--log-format");
        reveal_strlit("internal-json");
        reveal_strlit("--verbose");
    }
    let mut c = Command::new("nix").arg("build").arg(target).arg("--out-link").arg(out).args(extra);
    if formatter {
        c = c.arg("--log-format").arg("internal-json").arg("--verbose");
    }
    let c = c.formatter(formatter).message(message);
    assert(words_of(c) =~= build_argv(target@, out@, views(extra@), formatter));
    c
}

} // verus!
