//! The subclass bridge, which runs inside the foreign process: one saved
//! message procedure per process, swapped in on install and restored on
//! removal, and the routing of messages while it is installed.
use vstd::prelude::*;
use crate::geometry::WM_MOUSELEAVE;

verus! {

/// What the bridge's own message procedure does with a message.
#[derive(Clone, Copy, Debug, PartialEq, Eq, Structural)]
pub enum Route {
    /// Swallow the message and answer zero.
    Suppress,
    /// Hand the message to the saved original procedure.
    Original(isize),
    /// Hand the message to the system's default procedure.
    Default,
}

/// The bridge's single slot for the original message procedure of the
/// subclassed window.
#[derive(Debug)]
pub struct Bridge {
    saved: Option<isize>,
}

impl View for Bridge {
    type V = Option<isize>;

    closed spec fn view(&self) -> Option<isize> {
        self.saved
    }
}

/// The slot after an install over a window whose procedure reads `current`:
/// a zero procedure leaves the slot as it was; any other one is saved,
/// replacing what the slot held.
pub open spec fn slot_after_install(slot: Option<isize>, current: isize) -> Option<isize> {
    if current == 0 { slot } else { Some(current) }
}

/// The status of a successful install or removal: the low 32 bits of the
/// procedure pointer that the window held before.
pub open spec fn status_of(previous: isize) -> u32 {
    (previous as int % 0x1_0000_0000) as u32
}

/// The procedure that a removal puts back on the window: the saved one, if
/// any.
pub open spec fn restored_by_remove(slot: Option<isize>) -> Option<isize> {
    slot
}

/// How the bridge routes a message.
pub open spec fn route_of(slot: Option<isize>, msg: u32) -> Route {
    if msg == WM_MOUSELEAVE {
        Route::Suppress
    } else if slot is Some {
        Route::Original(slot->0)
    } else {
        Route::Default
    }
}

impl Bridge {
    /// A bridge with nothing saved.
    pub fn new() -> (b: Bridge)
        ensures
            b@ is None,
    {
        Bridge { saved: None }
    }

    /// The install entry point's decision on a window whose message procedure
    /// reads `current`: true when the bridge's procedure is to be set on the
    /// window, with `current` saved; false (status `INSTALL_FAILED`) when the
    /// procedure could not be read.
    pub fn set_subclass(&mut self, current: isize) -> (install: bool)
        ensures
            install == (current != 0),
            final(self)@ == slot_after_install(old(self)@, current),
    {
        if current == 0 {
            false
        } else {
            self.saved = Some(current);
            true
        }
    }

    /// The remove entry point's decision: the procedure to restore on the
    /// window, which leaves the slot empty; `None` (status zero) when nothing
    /// was saved.
    pub fn remove_subclass(&mut self) -> (restore: Option<isize>)
        ensures
            restore == restored_by_remove(old(self)@),
            final(self)@ is None,
    {
        let restore = self.saved;
        self.saved = None;
        restore
    }

    /// The bridge's message procedure: a mouse-leave is swallowed, any other
    /// message goes to the saved procedure, or to the default one when none
    /// is saved.
    pub fn subclass_proc(&self, msg: u32) -> (r: Route)
        ensures
            r == route_of(self@, msg),
    {
        if msg == WM_MOUSELEAVE {
            Route::Suppress
        } else {
            match self.saved {
                Some(p) => Route::Original(p),
                None => Route::Default,
            }
        }
    }
}

/// The status reported for a procedure pointer that a window held before.
pub fn status(previous: isize) -> (s: u32)
    ensures
        s == status_of(previous),
{
    let shifted: u128 = (previous as i128 + 0x8000_0000_0000_0000i128) as u128;
    proof {
        assert((previous as int + 0x8000_0000_0000_0000) % 0x1_0000_0000 == previous as int
            % 0x1_0000_0000) by (nonlinear_arith);
    }
    (shifted % 0x1_0000_0000) as u32
}

/// The test entry point of the companion module: adds six to its argument.
pub fn dll_add(left: u32) -> (r: u32)
    requires
        left <= u32::MAX - 6,
    ensures
        r == left + 6,
{
    left + 6
}

/// Installing the bridge over a window whose procedure reads `p` (not zero),
/// and then removing it, restores exactly `p` on the window and leaves the
/// slot empty, whatever the slot held before.
pub proof fn lemma_install_remove_round_trip(slot: Option<isize>, p: isize)
    requires
        p != 0,
    ensures
        restored_by_remove(slot_after_install(slot, p)) == Some(p),
{
}

} // verus!
