//! The listener table: one listener per event name, the last registration
//! winning, and the delivery of events to it.
use vstd::prelude::*;

verus! {

/// A raw mouse event from the global hook: the message that the hook saw and
/// the pointer's position in screen coordinates.
#[derive(Clone, Copy, Debug, PartialEq, Eq, Structural)]
pub struct Event {
    pub wparam: u64,
    pub x: i32,
    pub y: i32,
}

impl Event {
    pub fn new(wparam: u64, x: i32, y: i32) -> (e: Event)
        ensures
            e == (Event { wparam, x, y }),
    {
        Event { wparam, x, y }
    }
}

/// What a listener does with an event.
#[derive(Clone, Copy, Debug, PartialEq, Eq, Structural)]
pub enum Listener {
    /// Forward mouse moves into the client area of the window `target`.
    Forward { target: u64 },
}

/// A registration: the listener, and whether it is dropped after its first
/// delivery.
#[derive(Clone, Copy, Debug, PartialEq, Eq, Structural)]
pub struct Entry {
    pub listener: Listener,
    pub once: bool,
}

/// An event together with the listener it is delivered to.
#[derive(Clone, Copy, Debug, PartialEq, Eq, Structural)]
pub struct Delivery {
    pub listener: Listener,
    pub event: Event,
}

#[derive(Debug)]
struct Handler {
    name: String,
    entry: Entry,
}

/// The table of listeners, by event name.
pub struct MouseEvent {
    handlers: Vec<Handler>,
    table: Ghost<Map<Seq<char>, Entry>>,
}

impl View for MouseEvent {
    type V = Map<Seq<char>, Entry>;

    closed spec fn view(&self) -> Map<Seq<char>, Entry> {
        self.table@
    }
}

/// The table after an event named `name` is delivered: a listener registered
/// for one delivery is gone.
pub open spec fn after_emit(table: Map<Seq<char>, Entry>, name: Seq<char>) -> Map<Seq<char>, Entry> {
    if table.contains_key(name) && table[name].once { table.remove(name) } else { table }
}

/// The listener that an event named `name` reaches, if any.
pub open spec fn reached(table: Map<Seq<char>, Entry>, name: Seq<char>) -> Option<Listener> {
    if table.contains_key(name) { Some(table[name].listener) } else { None }
}

impl MouseEvent {
    pub closed spec fn wf(&self) -> bool {
        let h = self.handlers@;
        &&& forall|i: int, j: int|
            0 <= i < h.len() && 0 <= j < h.len() && i != j ==> #[trigger] h[i].name@ != #[trigger] h[j].name@
        &&& forall|i: int|
            0 <= i < h.len() ==> self.table@.contains_key(#[trigger] h[i].name@) && self.table@[h[i].name@]
                == h[i].entry
        &&& forall|k: Seq<char>|
            #[trigger] self.table@.contains_key(k) ==> exists|i: int| 0 <= i < h.len() && h[i].name@ == k
    }

    /// An empty table.
    pub fn new() -> (m: MouseEvent)
        ensures
            m.wf(),
            m@ == Map::<Seq<char>, Entry>::empty(),
    {
        MouseEvent { handlers: Vec::new(), table: Ghost(Map::empty()) }
    }

    fn find(&self, name: &String) -> (r: Option<usize>)
        requires
            self.wf(),
        ensures
            r matches Some(i) ==> i < self.handlers@.len() && self.handlers@[i as int].name@ == name@,
            r is None ==> !self@.contains_key(name@),
    {
        let mut i: usize = 0;
        while i < self.handlers.len()
            invariant
                i <= self.handlers@.len(),
                forall|k: int| 0 <= k < i ==> (#[trigger] self.handlers@[k]).name@ != name@,
            decreases self.handlers@.len() - i,
        {
            if self.handlers[i].name == *name {
                return Some(i);
            }
            i = i + 1;
        }
        None
    }

    fn put(&mut self, event_name: &str, entry: Entry)
        requires
            old(self).wf(),
        ensures
            final(self).wf(),
            final(self)@ == old(self)@.insert(event_name@, entry),
    {
        let name: String = event_name.to_owned();
        let found = self.find(&name);
        let ghost old_h = self.handlers@;
        proof {
            self.table@ = self.table@.insert(event_name@, entry);
        }
        match found {
            Some(i) => {
                self.handlers.set(i, Handler { name, entry });
                proof {
                    let h = self.handlers@;
                    assert forall|k: Seq<char>| #[trigger] self.table@.contains_key(k) implies exists|j: int|
                        0 <= j < h.len() && h[j].name@ == k by {
                        if k != event_name@ {
                            let j = choose|j: int| 0 <= j < old_h.len() && old_h[j].name@ == k;
                            assert(h[j].name@ == k);
                        } else {
                            assert(h[i as int].name@ == k);
                        }
                    }
                }
            },
            None => {
                self.handlers.push(Handler { name, entry });
                proof {
                    let h = self.handlers@;
                    assert(h[old_h.len() as int].name@ == event_name@);
                    assert forall|k: Seq<char>| #[trigger] self.table@.contains_key(k) implies exists|j: int|
                        0 <= j < h.len() && h[j].name@ == k by {
                        if k != event_name@ {
                            let j = choose|j: int| 0 <= j < old_h.len() && old_h[j].name@ == k;
                            assert(h[j].name@ == k);
                        } else {
                            assert(h[old_h.len() as int].name@ == k);
                        }
                    }
                }
            },
        }
    }

    /// Registers `listener` for `event_name`, replacing any listener that was
    /// registered for that name.
    pub fn listen(&mut self, event_name: &str, listener: Listener)
        requires
            old(self).wf(),
        ensures
            final(self).wf(),
            final(self)@ == old(self)@.insert(event_name@, Entry { listener, once: false }),
    {
        self.put(event_name, Entry { listener, once: false });
    }

    /// Registers `listener` for one delivery of `event_name`, replacing any
    /// listener that was registered for that name.
    pub fn once(&mut self, event_name: &str, listener: Listener)
        requires
            old(self).wf(),
        ensures
            final(self).wf(),
            final(self)@ == old(self)@.insert(event_name@, Entry { listener, once: true }),
    {
        self.put(event_name, Entry { listener, once: true });
    }

    /// Removes the listener of `event_name`, if there is one.
    pub fn unlisten(&mut self, event_name: &str)
        requires
            old(self).wf(),
        ensures
            final(self).wf(),
            final(self)@ == old(self)@.remove(event_name@),
    {
        let name: String = event_name.to_owned();
        let found = self.find(&name);
        match found {
            Some(i) => {
                let ghost old_h = self.handlers@;
                self.handlers.remove(i);
                proof {
                    self.table@ = self.table@.remove(event_name@);
                    let h = self.handlers@;
                    assert forall|k: Seq<char>| #[trigger] self.table@.contains_key(k) implies exists|j: int|
                        0 <= j < h.len() && h[j].name@ == k by {
                        let j = choose|j: int| 0 <= j < old_h.len() && old_h[j].name@ == k;
                        assert(j != i);
                        if j < i {
                            assert(h[j].name@ == k);
                        } else {
                            assert(h[j - 1].name@ == k);
                        }
                    }
                }
            },
            None => {
                proof {
                    assert(self.table@.remove(event_name@) =~= self.table@);
                }
            },
        }
    }

    /// Delivers `event` under `event_name`: the result names the listener
    /// to run on it, if one is registered; one registered for a single
    /// delivery is removed.
    pub fn emit(&mut self, event_name: &str, event: Event) -> (r: Option<Delivery>)
        requires
            old(self).wf(),
        ensures
            final(self).wf(),
            final(self)@ == after_emit(old(self)@, event_name@),
            r matches Some(d) ==> d.event == event && reached(old(self)@, event_name@) == Some(d.listener),
            r is None <==> reached(old(self)@, event_name@) is None,
    {
        let name: String = event_name.to_owned();
        match self.find(&name) {
            Some(i) => {
                let entry = self.handlers[i].entry;
                if entry.once {
                    self.unlisten(event_name);
                }
                Some(Delivery { listener: entry.listener, event })
            },
            None => None,
        }
    }
}

/// A second registration for a name replaces the first: the table is the one
/// that the second registration alone would give, and events of that name
/// reach only the second listener.
pub proof fn lemma_listener_replaced(
    table: Map<Seq<char>, Entry>,
    name: Seq<char>,
    first: Listener,
    second: Listener,
)
    ensures
        table.insert(name, Entry { listener: first, once: false }).insert(
            name,
            Entry { listener: second, once: false },
        ) == table.insert(name, Entry { listener: second, once: false }),
        reached(
            table.insert(name, Entry { listener: first, once: false }).insert(
                name,
                Entry { listener: second, once: false },
            ),
            name,
        ) == Some(second),
{
    assert(table.insert(name, Entry { listener: first, once: false }).insert(
        name,
        Entry { listener: second, once: false },
    ) =~= table.insert(name, Entry { listener: second, once: false }));
}

} // verus!
