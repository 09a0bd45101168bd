//! The global mouse hook's callback and its handle: the callback only sorts
//! the message and offers a move to the bounded queue without waiting.
use vstd::prelude::*;
use crate::geometry::{WM_MOUSELEAVE, WM_MOUSEMOVE};
use crate::listeners::Event;

verus! {

/// The capacity of the queue between the hook callback and its consumer.
pub const QUEUE_CAPACITY: usize = 8;

/// The event name under which mouse moves are delivered.
pub const MOUSE_MOVE_EVENT: &'static str = "mousemove";

/// The bit that makes a window layered.
pub const WS_EX_LAYERED: u32 = 0x0008_0000;

/// The bit that makes a window transparent to mouse input.
pub const WS_EX_TRANSPARENT: u32 = 0x0000_0020;

/// crossbeam's `channel::Sender`, carried as an opaque value.
#[verifier::external_type_specification]
#[verifier::external_body]
#[verifier::reject_recursive_types(T)]
pub struct ExSender<T>(crossbeam::channel::Sender<T>);

/// How an offer to the queue went.
#[derive(Clone, Copy, Debug, PartialEq, Eq, Structural)]
pub enum Offer {
    Queued,
    Full,
    Closed,
}

/// Relies on crossbeam's `Sender::try_send`: it returns at once, the message
/// either queued or handed back because the channel is full or disconnected.
#[verifier::external_body]
fn offer(tx: &crossbeam::channel::Sender<Event>, e: Event) -> (r: Offer) {
    match tx.try_send(e) {
        Ok(()) => Offer::Queued,
        Err(crossbeam::channel::TrySendError::Full(_)) => Offer::Full,
        Err(crossbeam::channel::TrySendError::Disconnected(_)) => Offer::Closed,
    }
}

/// The kinds of message that the hook tells apart.
#[derive(Clone, Copy, Debug, PartialEq, Eq, Structural)]
pub enum HookKind {
    Move,
    Leave,
    Other,
}

/// What the hook callback did with a message; in every case the message is
/// then passed on to the next hook.
#[derive(Clone, Copy, Debug, PartialEq, Eq, Structural)]
pub enum HookAction {
    /// A move was queued for the consumer.
    Queued,
    /// A move was dropped: the queue was full or closed, or there is none.
    Dropped,
    /// A mouse leave, which is only logged.
    Leave,
    /// Anything else, or a code that says not to process the message.
    Pass,
}

/// The kind of a message: only a non-negative code asks for processing, and
/// the message identifier is the low 32 bits of `wparam`.
pub open spec fn kind_of(code: i32, wparam: u64) -> HookKind {
    if code < 0 {
        HookKind::Other
    } else if wparam as int % 0x1_0000_0000 == WM_MOUSEMOVE as int {
        HookKind::Move
    } else if wparam as int % 0x1_0000_0000 == WM_MOUSELEAVE as int {
        HookKind::Leave
    } else {
        HookKind::Other
    }
}

/// Sorts a message that the hook receives.
pub fn hook_kind(code: i32, wparam: u64) -> (k: HookKind)
    ensures
        k == kind_of(code, wparam),
{
    if code < 0 {
        HookKind::Other
    } else {
        let message: u64 = wparam % 0x1_0000_0000;
        if message == WM_MOUSEMOVE as u64 {
            HookKind::Move
        } else if message == WM_MOUSELEAVE as u64 {
            HookKind::Leave
        } else {
            HookKind::Other
        }
    }
}

/// The hook's action for a move, given how its offer to the queue went: only
/// a queued offer counts as delivered; a full or closed queue drops it.
pub fn settle(o: Offer) -> (a: HookAction)
    ensures
        o is Queued ==> a is Queued,
        !(o is Queued) ==> a is Dropped,
{
    match o {
        Offer::Queued => HookAction::Queued,
        _ => HookAction::Dropped,
    }
}

/// The hook callback: a move at `(x, y)` is offered to the queue without
/// waiting, and dropped if it does not fit; a leave is only reported; the rest
/// passes untouched.
pub fn hook_proc(
    code: i32,
    wparam: u64,
    x: i32,
    y: i32,
    tx: Option<&crossbeam::channel::Sender<Event>>,
) -> (a: HookAction)
    ensures
        kind_of(code, wparam) is Move && tx is Some ==> a is Queued || a is Dropped,
        kind_of(code, wparam) is Move && tx is None ==> a is Dropped,
        kind_of(code, wparam) is Leave ==> a is Leave,
        kind_of(code, wparam) is Other ==> a is Pass,
{
    match hook_kind(code, wparam) {
        HookKind::Move => match tx {
            Some(tx) => settle(offer(tx, Event::new(wparam, x, y))),
            None => HookAction::Dropped,
        },
        HookKind::Leave => HookAction::Leave,
        HookKind::Other => HookAction::Pass,
    }
}

/// The extended style that makes a window click-through (`ignore`) or gives
/// it back its mouse input: the layered and transparent bits are set or
/// cleared, the others kept.
pub fn ignore_cursor_events(ex_style: u32, ignore: bool) -> (r: u32)
    ensures
        ignore ==> r == ex_style | (WS_EX_LAYERED | WS_EX_TRANSPARENT),
        !ignore ==> r == ex_style & !(WS_EX_LAYERED | WS_EX_TRANSPARENT),
{
    if ignore {
        ex_style | (WS_EX_LAYERED | WS_EX_TRANSPARENT)
    } else {
        ex_style & !(WS_EX_LAYERED | WS_EX_TRANSPARENT)
    }
}

/// The handle of the installed global mouse hook, if any.
#[derive(Debug)]
pub struct MouseHook {
    handle: Option<u64>,
}

impl View for MouseHook {
    type V = Option<u64>;

    closed spec fn view(&self) -> Option<u64> {
        self.handle
    }
}

impl MouseHook {
    /// No hook installed.
    pub fn new() -> (h: MouseHook)
        ensures
            h@ is None,
    {
        MouseHook { handle: None }
    }

    /// Whether a hook has to be installed: not when one already is.
    pub fn set_mouse_hook(&self) -> (install: bool)
        ensures
            install == (self@ is None),
    {
        self.handle.is_none()
    }

    /// Records the handle of a newly installed hook; one already recorded is
    /// kept.
    pub fn installed(&mut self, handle: u64)
        ensures
            old(self)@ is None ==> final(self)@ == Some(handle),
            old(self)@ is Some ==> final(self)@ == old(self)@,
    {
        if self.handle.is_none() {
            self.handle = Some(handle);
        }
    }

    /// The handle of the hook to uninstall, if one is installed; afterwards
    /// none is recorded.
    pub fn unset_mouse_hook(&mut self) -> (handle: Option<u64>)
        ensures
            handle == old(self)@,
            final(self)@ is None,
    {
        let handle = self.handle;
        self.handle = None;
        handle
    }
}

} // verus!
