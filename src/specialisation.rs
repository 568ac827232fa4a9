use vstd::prelude::*;
use vstd::string::*;

use crate::text::{join_path, joined, owned};

verus! {

pub open spec fn opt_view(o: Option<String>) -> Option<Seq<char>> {
    match o {
        Some(s) => Some(s@),
        None => None,
    }
}

/// The specialisation to activate: none when specialisations are switched
/// off, else the one the running system has active, else the one asked for.
pub open spec fn resolved(
    no_specialisation: bool,
    current: Option<Seq<char>>,
    requested: Option<Seq<char>>,
) -> Option<Seq<char>> {
    if no_specialisation {
        None
    } else if current is Some {
        current
    } else {
        requested
    }
}

/// The profile handed to activation: the build output itself, or
/// `<output>/specialisation/<name>`.
pub open spec fn profile_of(out: Seq<char>, spec: Option<Seq<char>>) -> Seq<char> {
    match spec {
        None => out,
        Some(name) => joined(joined(out, "specialisation"@), name),
    }
}

fn copy_opt(o: &Option<String>) -> (r: Option<String>)
    ensures
        opt_view(r) == opt_view(*o),
{
    match o {
        Some(s) => Some(owned(s.as_str())),
        None => None,
    }
}

/// Resolves the specialisation to activate.
pub fn resolve(no_specialisation: bool, current: Option<String>, requested: &Option<String>) -> (r: Option<String>)
    ensures
        opt_view(r) == resolved(no_specialisation, opt_view(current), opt_view(*requested)),
{
    if no_specialisation {
        None
    } else if current.is_some() {
        current
    } else {
        copy_opt(requested)
    }
}

/// The path of the profile to diff and activate.
pub fn profile_path(out: &str, spec: &Option<String>) -> (r: String)
    ensures
        r@ == profile_of(out@, opt_view(*spec)),
{
    proof {
        reveal_strlit("specialisation");
    }
    match spec {
        None => owned(out),
        Some(name) => {
            let dir = join_path(out, "specialisation");
            join_path(dir.as_str(), name.as_str())
        },
    }
}

/// Switching specialisations off wins over everything; otherwise the active
/// one wins over the requested one, which wins over none.
pub proof fn resolution_order(no_specialisation: bool, current: Option<Seq<char>>, requested: Option<Seq<char>>)
    ensures
        no_specialisation ==> resolved(no_specialisation, current, requested) is None,
        !no_specialisation && current is Some ==> resolved(no_specialisation, current, requested) == current,
        !no_specialisation && current is None ==> resolved(no_specialisation, current, requested) == requested,
{
}

} // verus!
