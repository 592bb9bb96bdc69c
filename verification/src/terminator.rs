//! Process-group handling: how a child is set up before it is spawned, and
//! how a whole process tree is brought down with one request.

use vstd::prelude::*;

verus! {

/// The two families of operating systems the shell runs on.
#[derive(Clone, Copy, Debug, PartialEq, Eq, Structural)]
pub enum Platform {
    /// Process groups exist; a signal can reach a whole group.
    Unix,
    /// No process groups; only the direct child can be killed.
    Windows,
}

/// What to configure on a command before it is spawned.
#[derive(Clone, Copy, Debug, PartialEq, Eq, Structural)]
pub struct ChildSetup {
    /// The child dies when its handle is dropped.
    pub kill_on_drop: bool,
    /// The child becomes the leader of a new process group.
    pub new_process_group: bool,
}

/// How to bring a child down.
#[derive(Clone, Copy, Debug, PartialEq, Eq, Structural)]
pub enum KillAction {
    /// There is nothing to signal.
    Nothing,
    /// Send the termination signal to `target`, the negated id of the
    /// process group that the child leads.
    SignalGroup { target: i32 },
    /// Ask the operating system to kill the direct child only; its
    /// descendants may survive.
    KillChild,
}

/// The setup for a platform: always kill-on-drop, and a process group of
/// its own where the platform has them.
pub open spec fn child_setup_for(platform: Platform) -> ChildSetup {
    ChildSetup { kill_on_drop: true, new_process_group: platform == Platform::Unix }
}

/// Whether `pid` can name a process group: positive, and small enough for
/// its negation to be a signal target.
pub open spec fn is_group_id(pid: u32) -> bool {
    0 < pid && pid <= i32::MAX
}

/// The request that terminates the tree below the child `pid`.
pub open spec fn kill_action_for(platform: Platform, pid: u32) -> KillAction {
    match platform {
        Platform::Unix => if is_group_id(pid) {
            KillAction::SignalGroup { target: (-(pid as int)) as i32 }
        } else {
            KillAction::Nothing
        },
        Platform::Windows => KillAction::KillChild,
    }
}

/// Decides how a command is set up before it is spawned.
pub fn setup_child_process(platform: Platform) -> (r: ChildSetup)
    ensures
        r == child_setup_for(platform),
{
    match platform {
        Platform::Unix => ChildSetup { kill_on_drop: true, new_process_group: true },
        Platform::Windows => ChildSetup { kill_on_drop: true, new_process_group: false },
    }
}

/// Decides how the process tree below the child `pid` is terminated.
pub fn terminate_tree(platform: Platform, pid: u32) -> (r: KillAction)
    ensures
        r == kill_action_for(platform, pid),
        r matches KillAction::SignalGroup { target } ==> target < 0 && -target == pid,
{
    match platform {
        Platform::Unix => {
            if 0 < pid && pid <= 0x7fff_ffff {
                let id: i32 = pid as i32;
                KillAction::SignalGroup { target: -id }
            } else {
                KillAction::Nothing
            }
        },
        Platform::Windows => KillAction::KillChild,
    }
}

} // verus!
