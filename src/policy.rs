//! Which swipes move to which workspace.
use crate::direction::SwipeDir;
use crate::gesture::Swipe;
use crate::ipc::{decimal, switch_prefix, workspace_command};
use vstd::prelude::*;

verus! {

/// The number of fingers of a navigating swipe.
pub const NAV_FINGERS: i32 = 3;

/// The lowest workspace that navigation moves to.
pub const FIRST_WORKSPACE: u64 = 1;

/// The highest workspace that navigation moves to.
pub const LAST_WORKSPACE: u64 = 10;

/// The workspace that `swipe` moves to from `current`, if any: a three-finger swipe
/// west goes one down and a three-finger swipe east one up, as long as the target
/// stays within the first and last workspace.
pub open spec fn target_of(swipe: Swipe, current: int) -> Option<int> {
    if swipe.finger_count != NAV_FINGERS {
        None
    } else if swipe.dir == SwipeDir::W && current - 1 >= FIRST_WORKSPACE {
        Some(current - 1)
    } else if swipe.dir == SwipeDir::E && current + 1 <= LAST_WORKSPACE {
        Some(current + 1)
    } else {
        None
    }
}

/// The workspace to switch to after `swipe` while `current` is active.
pub fn navigation_target(swipe: &Swipe, current: u64) -> (r: Option<u64>)
    ensures
        r matches Some(t) ==> target_of(*swipe, current as int) == Some(t as int),
        r is None ==> target_of(*swipe, current as int) is None,
{
    if swipe.finger_count != NAV_FINGERS {
        return None;
    }
    match swipe.dir {
        SwipeDir::W => {
            if current > FIRST_WORKSPACE {
                Some(current - 1)
            } else {
                None
            }
        },
        SwipeDir::E => {
            if current < LAST_WORKSPACE {
                Some(current + 1)
            } else {
                None
            }
        },
        _ => None,
    }
}

/// The command payload to send after `swipe` while `current` is active: the switch
/// to its navigation target, or nothing where there is none.
pub fn navigation_command(swipe: &Swipe, current: u64) -> (r: Option<Vec<u8>>)
    ensures
        match target_of(*swipe, current as int) {
            Some(t) => r matches Some(c) && c@ == switch_prefix() + decimal(t as nat),
            None => r is None,
        },
{
    match navigation_target(swipe, current) {
        Some(t) => Some(workspace_command(t)),
        None => None,
    }
}

} // verus!
