use vstd::prelude::*;

verus! {

/// The effective identity of the running process.
#[derive(Clone, Copy, Debug, PartialEq, Eq, Structural)]
pub struct Identity {
    pub euid: u32,
    pub egid: u32,
}

/// Owner, group and permission bits of a filesystem object.
#[derive(Clone, Copy, Debug, PartialEq, Eq, Structural)]
pub struct Ownership {
    pub uid: u32,
    pub gid: u32,
    pub mode: u32,
}

/// The user id of the privileged user.
pub const ROOT_UID: u32 = 0;

pub open spec fn is_privileged(id: Identity) -> bool {
    id.euid == ROOT_UID
}

/// The group-write permission bit grants write access to the caller's group.
pub open spec fn group_may_write(id: Identity, own: Ownership) -> bool {
    id.egid == own.gid && own.mode & 0o020u32 != 0
}

/// The caller can write the object without elevation.
pub open spec fn may_write(id: Identity, own: Ownership) -> bool {
    is_privileged(id)
    || (id.euid == own.uid && own.mode & 0o200u32 != 0)
    || group_may_write(id, own)
    || own.mode & 0o002u32 != 0
}

/// Steps that touch the flake source (sync, input update) need elevation
/// only for an unprivileged caller on a source owned by the privileged user
/// whose group bits do not already let the caller write.
pub open spec fn source_needs_elevation(bypass: bool, id: Identity, owner: Option<Ownership>) -> bool {
    !bypass && !is_privileged(id) && match owner {
        Some(o) => o.uid == ROOT_UID && !group_may_write(id, o),
        None => false,
    }
}

/// The system profile is written directly only when the caller may write it.
pub open spec fn profile_needs_elevation(bypass: bool, id: Identity, owner: Option<Ownership>) -> bool {
    !bypass && match owner {
        Some(o) => !may_write(id, o),
        None => !is_privileged(id),
    }
}

/// Activation and bootloader steps always run elevated for an unprivileged caller.
pub open spec fn activation_needs_elevation(bypass: bool, id: Identity) -> bool {
    !bypass && !is_privileged(id)
}

pub fn is_root(id: Identity) -> (r: bool)
    ensures
        r == is_privileged(id),
{
    id.euid == ROOT_UID
}

pub fn group_writable(id: Identity, own: Ownership) -> (r: bool)
    ensures
        r == group_may_write(id, own),
{
    id.egid == own.gid && own.mode & 0o020u32 != 0
}

pub fn can_write(id: Identity, own: Ownership) -> (r: bool)
    ensures
        r == may_write(id, own),
{
    is_root(id) || (id.euid == own.uid && own.mode & 0o200u32 != 0) || group_writable(id, own)
        || own.mode & 0o002u32 != 0
}

/// Elevation for a step that reads or writes the flake source.
pub fn elevate_for_source(bypass: bool, id: Identity, owner: Option<Ownership>) -> (r: bool)
    ensures
        r == source_needs_elevation(bypass, id, owner),
{
    if bypass || is_root(id) {
        return false;
    }
    match owner {
        Some(o) => o.uid == ROOT_UID && !group_writable(id, o),
        None => false,
    }
}

/// Elevation for pointing the system profile at a new build.
pub fn elevate_for_profile(bypass: bool, id: Identity, owner: Option<Ownership>) -> (r: bool)
    ensures
        r == profile_needs_elevation(bypass, id, owner),
{
    if bypass {
        return false;
    }
    match owner {
        Some(o) => !can_write(id, o),
        None => !is_root(id),
    }
}

/// Elevation for activation and bootloader registration.
pub fn elevate_for_activation(bypass: bool, id: Identity) -> (r: bool)
    ensures
        r == activation_needs_elevation(bypass, id),
{
    !bypass && !is_root(id)
}

/// A privileged caller is never elevated, at any step.
pub proof fn privileged_never_elevates(bypass: bool, id: Identity, flake: Option<Ownership>, profile: Option<Ownership>)
    requires
        is_privileged(id),
    ensures
        !source_needs_elevation(bypass, id, flake),
        !profile_needs_elevation(bypass, id, profile),
        !activation_needs_elevation(bypass, id),
{
}

/// An unprivileged caller without the bypass flag is elevated for steps on a
/// flake source owned by the privileged user, unless the source's group bits
/// already let it write.
pub proof fn root_owned_source_elevates(id: Identity, flake: Ownership)
    requires
        !is_privileged(id),
        flake.uid == ROOT_UID,
        !group_may_write(id, flake),
    ensures
        source_needs_elevation(false, id, Some(flake)),
{
}

} // verus!
