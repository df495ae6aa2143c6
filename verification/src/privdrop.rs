//! The irreversible privilege-drop state machine.
//!
//! Device descriptors are opened with elevated privilege; once they are held,
//! no further privilege is needed, so every privilege is shed before the one
//! untrusted component — the script — runs.  The machine is linear, with no
//! rollback edges: supplementary groups are dropped first, then the group id,
//! then the root directory is changed, then the user id, and finally the
//! syscall-restriction policy is applied.  The caller performs each returned
//! action against the operating system and aborts on any failure; a partial
//! drop is a security failure, never a degraded-but-safe state.

use vstd::prelude::*;

verus! {

/// Where the process stands in the privilege-drop sequence.
#[derive(Clone, Copy, PartialEq, Eq, Structural, Debug)]
pub enum PrivState {
    /// Running with elevated privilege; nothing dropped yet.
    Privileged,
    /// Supplementary groups cleared.
    GroupsDropped,
    /// Group id set to the real, unprivileged group.
    GidDropped,
    /// Root directory changed to the input-device directory.
    Chrooted,
    /// User id set to the real, unprivileged user.
    UidDropped,
    /// Syscall-restriction policy applied; scripts may now run.
    Sandboxed,
}

/// One fallible transition the caller must perform against the OS.
#[derive(Clone, Copy, PartialEq, Eq, Structural, Debug)]
pub enum PrivAction {
    /// Drop all supplementary groups.
    DropGroups,
    /// Set the group id to the real group.
    SetGid,
    /// Change the root directory to the input-device directory.
    ChangeRoot,
    /// Set the user id to the real user.
    SetUid,
    /// Apply the OS-level syscall-restriction policy.
    ApplySandbox,
}

/// The next transition owed from state `s`, or `None` once the drop is done.
pub open spec fn spec_next_action(s: PrivState) -> Option<PrivAction> {
    match s {
        PrivState::Privileged => Some(PrivAction::DropGroups),
        PrivState::GroupsDropped => Some(PrivAction::SetGid),
        PrivState::GidDropped => Some(PrivAction::ChangeRoot),
        PrivState::Chrooted => Some(PrivAction::SetUid),
        PrivState::UidDropped => Some(PrivAction::ApplySandbox),
        PrivState::Sandboxed => None,
    }
}

/// The state reached once the action owed from `s` has succeeded.
pub open spec fn spec_next_state(s: PrivState) -> PrivState {
    match s {
        PrivState::Privileged => PrivState::GroupsDropped,
        PrivState::GroupsDropped => PrivState::GidDropped,
        PrivState::GidDropped => PrivState::Chrooted,
        PrivState::Chrooted => PrivState::UidDropped,
        PrivState::UidDropped => PrivState::Sandboxed,
        PrivState::Sandboxed => PrivState::Sandboxed,
    }
}

/// Every action still owed from state `s`, in the order it must run.
pub open spec fn remaining_actions(s: PrivState) -> Seq<PrivAction> {
    match s {
        PrivState::Privileged => seq![
            PrivAction::DropGroups,
            PrivAction::SetGid,
            PrivAction::ChangeRoot,
            PrivAction::SetUid,
            PrivAction::ApplySandbox,
        ],
        PrivState::GroupsDropped => seq![
            PrivAction::SetGid,
            PrivAction::ChangeRoot,
            PrivAction::SetUid,
            PrivAction::ApplySandbox,
        ],
        PrivState::GidDropped => seq![
            PrivAction::ChangeRoot,
            PrivAction::SetUid,
            PrivAction::ApplySandbox,
        ],
        PrivState::Chrooted => seq![PrivAction::SetUid, PrivAction::ApplySandbox],
        PrivState::UidDropped => seq![PrivAction::ApplySandbox],
        PrivState::Sandboxed => Seq::empty(),
    }
}

/// The state the sequence starts from.  An elevated process owes the whole
/// drop; an already-unprivileged one owes only the sandbox activation.
pub fn initial_state(privileged: bool) -> (r: PrivState)
    ensures
        r == if privileged {
            PrivState::Privileged
        } else {
            PrivState::UidDropped
        },
{
    if privileged {
        PrivState::Privileged
    } else {
        PrivState::UidDropped
    }
}

/// The next transition owed from `s`, or `None` once the drop is complete.
pub fn next_action(s: &PrivState) -> (r: Option<PrivAction>)
    ensures
        r == spec_next_action(*s),
{
    match s {
        PrivState::Privileged => Some(PrivAction::DropGroups),
        PrivState::GroupsDropped => Some(PrivAction::SetGid),
        PrivState::GidDropped => Some(PrivAction::ChangeRoot),
        PrivState::Chrooted => Some(PrivAction::SetUid),
        PrivState::UidDropped => Some(PrivAction::ApplySandbox),
        PrivState::Sandboxed => None,
    }
}

/// Advance past the action owed from `s` after it has succeeded.
pub fn advance(s: PrivState) -> (r: PrivState)
    ensures
        r == spec_next_state(s),
{
    match s {
        PrivState::Privileged => PrivState::GroupsDropped,
        PrivState::GroupsDropped => PrivState::GidDropped,
        PrivState::GidDropped => PrivState::Chrooted,
        PrivState::Chrooted => PrivState::UidDropped,
        PrivState::UidDropped => PrivState::Sandboxed,
        PrivState::Sandboxed => PrivState::Sandboxed,
    }
}

/// Whether untrusted script code may run: only once the whole drop sequence
/// has completed.
pub fn may_run_script(s: &PrivState) -> (r: bool)
    ensures
        r <==> *s == PrivState::Sandboxed,
{
    match s {
        PrivState::Sandboxed => true,
        _ => false,
    }
}

/// Performing the owed action consumes exactly the head of the remaining
/// sequence: a driver that repeatedly asks for the next action and advances
/// on success runs precisely `remaining_actions` of its starting state, in
/// order, with no step repeated, skipped or reordered.
pub proof fn lemma_step_consumes_head(s: PrivState)
    requires
        spec_next_action(s) is Some,
    ensures
        remaining_actions(s).len() > 0,
        remaining_actions(s)[0] == spec_next_action(s)->Some_0,
        remaining_actions(spec_next_state(s)) == remaining_actions(s).drop_first(),
{
    assert(remaining_actions(spec_next_state(s)) =~= remaining_actions(s).drop_first());
}

/// When started privileged, the four drop steps run in the fixed order —
/// groups, gid, chroot, uid — and sandbox activation comes after all of
/// them; nothing remains once the machine reaches its final state, which is
/// the only state from which scripts may run.
pub proof fn lemma_privileged_drop_order()
    ensures
        remaining_actions(PrivState::Privileged) =~= seq![
            PrivAction::DropGroups,
            PrivAction::SetGid,
            PrivAction::ChangeRoot,
            PrivAction::SetUid,
            PrivAction::ApplySandbox,
        ],
        remaining_actions(PrivState::UidDropped) =~= seq![PrivAction::ApplySandbox],
        remaining_actions(PrivState::Sandboxed) =~= Seq::<PrivAction>::empty(),
{
}

} // verus!
