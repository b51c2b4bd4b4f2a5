//! How the capture thread follows the VRChat window.
//!
//! VRChat may not be running yet when the bridge starts, and it may restart
//! while the bridge stays up. The capture thread looks for the window again
//! and again: when it is there it is captured until it goes away, and while it
//! is missing the wait is announced once, not on every look.

use vstd::prelude::*;

verus! {

/// What the capture thread does after one look for the window.
#[derive(Clone, Copy, Debug, PartialEq, Eq, Structural)]
pub enum WatchAction {
    /// The window is there: capture it until it closes, then let the reading
    /// fall back to darkness, since the scene is no longer visible.
    Capture,
    /// The window went missing: say once that the bridge is waiting for it.
    AnnounceWaiting,
    /// Still missing, and already announced: wait quietly.
    KeepWaiting,
}

/// The capture thread's memory between looks: whether the current absence of
/// the window has been announced.
pub struct WindowWatch {
    announced_missing: bool,
}

/// The action for one look, given whether the absence was announced already.
pub open spec fn action_for(announced: bool, found: bool) -> WatchAction {
    if found {
        WatchAction::Capture
    } else if announced {
        WatchAction::KeepWaiting
    } else {
        WatchAction::AnnounceWaiting
    }
}

/// How many waiting announcements a run of looks makes, starting from
/// `announced`; `looks[k]` says whether look `k` found the window.
pub open spec fn announcements(announced: bool, looks: Seq<bool>) -> nat
    decreases looks.len(),
{
    if looks.len() == 0 {
        0
    } else {
        let here: nat = if action_for(announced, looks[0]) == WatchAction::AnnounceWaiting {
            1
        } else {
            0
        };
        here + announcements(!looks[0], looks.drop_first())
    }
}

impl WindowWatch {
    /// Whether the current absence of the window has been announced.
    pub closed spec fn announced(&self) -> bool {
        self.announced_missing
    }

    /// Nothing announced yet.
    pub fn new() -> (res: Self)
        ensures
            !res.announced(),
    {
        WindowWatch { announced_missing: false }
    }

    /// Takes one look's outcome (`found`: a window matching the title is
    /// there) and returns what to do. Finding the window ends the absence;
    /// missing it is announced only on the first look of an absence.
    pub fn on_look(&mut self, found: bool) -> (res: WatchAction)
        ensures
            res == action_for(old(self).announced(), found),
            final(self).announced() == !found,
    {
        if found {
            self.announced_missing = false;
            WatchAction::Capture
        } else if self.announced_missing {
            WatchAction::KeepWaiting
        } else {
            self.announced_missing = true;
            WatchAction::AnnounceWaiting
        }
    }
}

/// However long the window stays missing, its absence is announced at most
/// once, and exactly once when it was not announced before.
pub proof fn lemma_absence_announced_once(announced: bool, looks: Seq<bool>)
    requires
        forall|k: int| 0 <= k < looks.len() ==> !#[trigger] looks[k],
    ensures
        announcements(announced, looks) <= 1,
        announced ==> announcements(announced, looks) == 0,
        !announced && looks.len() > 0 ==> announcements(announced, looks) == 1,
    decreases looks.len(),
{
    if looks.len() > 0 {
        let rest = looks.drop_first();
        assert forall|k: int| 0 <= k < rest.len() implies !#[trigger] rest[k] by {
            assert(rest[k] == looks[k + 1]);
        }
        lemma_absence_announced_once(true, rest);
    }
}

/// Finding the window re-arms the announcement: whatever was announced
/// before, the looks after a find announce exactly as from a fresh start.
pub proof fn lemma_finding_the_window_rearms_the_announcement(announced: bool, rest: Seq<bool>)
    ensures
        announcements(announced, seq![true] + rest) == announcements(false, rest),
{
    let looks = seq![true] + rest;
    assert(looks.drop_first() =~= rest);
    assert(looks[0]);
}

} // verus!
