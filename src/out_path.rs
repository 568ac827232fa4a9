use vstd::prelude::*;
use vstd::string::*;

use crate::text::{join_path, joined, owned};

verus! {

/// Where the build result is linked: a path the caller chose, which is
/// never removed here, or a result entry inside a temporary directory owned
/// by the run, removed only when the run releases it at its very end.
pub enum OutPath {
    Given { path: String },
    Ephemeral { dir: String, result: String },
}

/// The name of the result link inside a temporary directory.
pub const RESULT_NAME: &'static str = "result";

impl OutPath {
    pub open spec fn path_view(self) -> Seq<char> {
        match self {
            OutPath::Given { path } => path@,
            OutPath::Ephemeral { result, .. } => result@,
        }
    }

    /// The directory that releasing this path removes, if any.
    pub open spec fn backing_view(self) -> Option<Seq<char>> {
        match self {
            OutPath::Given { .. } => None,
            OutPath::Ephemeral { dir, .. } => Some(dir@),
        }
    }

    /// Wraps a path chosen by the caller.
    pub fn given(path: &str) -> (r: OutPath)
        ensures
            r.path_view() == path@,
            r.backing_view() is None,
    {
        OutPath::Given { path: owned(path) }
    }

    /// The result entry inside a fresh temporary directory.
    pub fn ephemeral(dir: &str) -> (r: OutPath)
        ensures
            r.path_view() == joined(dir@, "result"@),
            r.backing_view() == Some(dir@),
    {
        proof {
            reveal_strlit("result");
        }
        OutPath::Ephemeral { dir: owned(dir), result: join_path(dir, RESULT_NAME) }
    }

    /// The usable path, whichever way it is stored.
    pub fn get_path(&self) -> (r: &String)
        ensures
            r@ == self.path_view(),
    {
        match self {
            OutPath::Given { path } => path,
            OutPath::Ephemeral { result, .. } => result,
        }
    }

    /// The directory to remove on release, if this path owns one.
    pub fn backing_dir(&self) -> (r: Option<String>)
        ensures
            match r {
                Some(d) => self.backing_view() == Some(d@),
                None => self.backing_view() is None,
            },
    {
        match self {
            OutPath::Given { .. } => None,
            OutPath::Ephemeral { dir, .. } => Some(owned(dir.as_str())),
        }
    }
}

} // verus!
