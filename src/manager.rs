//! The injection manager: which windows have the bridge installed, and the
//! install and remove sessions that bring a window in and out of that table.
use vstd::prelude::*;
use crate::remote::{count, Action, BridgeError, Ledger, Reply, RemoteCall, RemoteLoad};

verus! {

broadcast use vstd::std_specs::hash::group_hash_axioms;

/// A module loaded in a foreign process: its handle and its base file name.
#[derive(Debug)]
pub struct ModuleEntry {
    pub handle: u64,
    pub base_name: Vec<u8>,
}

/// Whether two byte strings are equal.
pub fn bytes_equal(a: &Vec<u8>, b: &Vec<u8>) -> (r: bool)
    ensures
        r == (a@ == b@),
{
    if a.len() != b.len() {
        return false;
    }
    let mut i: usize = 0;
    while i < a.len()
        invariant
            a@.len() == b@.len(),
            i <= a@.len(),
            forall|k: int| 0 <= k < i ==> a@[k] == b@[k],
        decreases a@.len() - i,
    {
        if a[i] != b[i] {
            return false;
        }
        i = i + 1;
    }
    proof {
        assert(a@ =~= b@);
    }
    true
}

/// The position of the first module, among those with a name, named `name`.
pub open spec fn first_named(modules: Seq<ModuleEntry>, name: Seq<u8>, i: int) -> bool {
    &&& 0 <= i < modules.len()
    &&& modules[i].base_name@.len() > 0 && modules[i].base_name@ == name
    &&& forall|k: int| 0 <= k < i ==> !(modules[k].base_name@.len() > 0 && modules[k].base_name@ == name)
}

/// Looks up a loaded module by base name in the list of a process's modules.
/// Modules whose name could not be read (an empty name) never match.
pub fn get_module_from_process(modules: &Vec<ModuleEntry>, module_name: &Vec<u8>) -> (r: Option<u64>)
    ensures
        r is Some <==> exists|i: int| first_named(modules@, module_name@, i),
        r is Some ==> exists|i: int|
            first_named(modules@, module_name@, i) && r == Some(#[trigger] modules@[i].handle),
{
    let mut i: usize = 0;
    while i < modules.len()
        invariant
            i <= modules@.len(),
            forall|k: int|
                0 <= k < i ==> !(#[trigger] modules@[k].base_name@.len() > 0 && modules@[k].base_name@
                    == module_name@),
        decreases modules@.len() - i,
    {
        if modules[i].base_name.len() > 0 && bytes_equal(&modules[i].base_name, module_name) {
            proof {
                assert(first_named(modules@, module_name@, i as int));
            }
            return Some(modules[i].handle);
        }
        i = i + 1;
    }
    proof {
        assert forall|j: int| !first_named(modules@, module_name@, j) by {
            if 0 <= j < modules@.len() {
                assert(!(modules@[j].base_name@.len() > 0 && modules@[j].base_name@ == module_name@));
            }
        }
    }
    None
}

/// Whether a byte separates the components of a path.
pub open spec fn is_separator(b: u8) -> bool {
    b == 0x2f || b == 0x5c
}

/// The base file name of a path: what follows its last separator.
pub open spec fn base_name_of(path: Seq<u8>, start: int) -> bool {
    &&& 0 <= start <= path.len()
    &&& start > 0 ==> is_separator(path[start - 1])
    &&& forall|k: int| start <= k < path.len() ==> !is_separator(#[trigger] path[k])
}

/// The base file name of `path`, the name under which the module shows in a
/// process's module list.
pub fn base_name(path: &Vec<u8>) -> (r: Vec<u8>)
    ensures
        exists|start: int| base_name_of(path@, start) && r@ == path@.subrange(start, path@.len() as int),
{
    let mut start: usize = path.len();
    while start > 0 && !(path[start - 1] == 0x2f || path[start - 1] == 0x5c)
        invariant
            start <= path@.len(),
            forall|k: int| start <= k < path@.len() ==> !is_separator(#[trigger] path@[k]),
        decreases start,
    {
        start = start - 1;
    }
    let mut r: Vec<u8> = Vec::new();
    let mut i: usize = start;
    while i < path.len()
        invariant
            start <= i <= path@.len(),
            r@ == path@.subrange(start as int, i as int),
        decreases path@.len() - i,
    {
        r.push(path[i]);
        i = i + 1;
    }
    proof {
        assert(base_name_of(path@, start as int));
    }
    r
}

/// The table of windows whose bridge is installed, each with the handle of
/// the process that owns its target window.
pub struct SubClassHwnd {
    inners: std::collections::HashMap<usize, u64>,
    dll_path: Vec<u8>,
}

impl View for SubClassHwnd {
    type V = Map<usize, u64>;

    closed spec fn view(&self) -> Map<usize, u64> {
        self.inners@
    }
}

impl SubClassHwnd {
    /// The path of the companion module.
    pub closed spec fn path(&self) -> Seq<u8> {
        self.dll_path@
    }

    /// An empty table for the companion module at `dll_path`.
    pub fn new(dll_path: Vec<u8>) -> (s: SubClassHwnd)
        ensures
            s@ == Map::<usize, u64>::empty(),
            s.path() == dll_path@,
    {
        SubClassHwnd { inners: std::collections::HashMap::new(), dll_path }
    }

    /// Starts an install of the bridge for `hwnd`. A window already in the
    /// table needs nothing: the session is over at once, with success.
    pub fn reject_dll(&self, hwnd: usize) -> (r: (InstallSession, Request))
        ensures
            r.0.wf(),
            r.0.hwnd == hwnd,
            r.0.dll_path@ == self.path(),
            r.0.load.stage is Start,
            r.0.load.path@ == crate::remote::with_nul(self.path()),
            exists|start: int|
                base_name_of(self.path(), start) && r.0.module_name@ == self.path().subrange(
                    start,
                    self.path().len() as int,
                ),
            r.0.handles@.opened == 0,
            needs_install(self@, hwnd) ==> r.0.stage is Descending && r.0.depth == 0 && r.1 == (
            Request::ChildOf { window: hwnd as u64 }),
            !needs_install(self@, hwnd) ==> r.0.stage is Done && r.0.outcome == Ok::<(), BridgeError>(())
                && r.1 == Request::Done(Ok(())),
    {
        let load = RemoteLoad::hook_sub(&self.dll_path);
        let call = RemoteCall::call_remote_function(self.dll_path.clone(), "set_subclass".to_owned(), None);
        let registered = self.inners.contains_key(&hwnd);
        let session = InstallSession {
            hwnd,
            dll_path: self.dll_path.clone(),
            module_name: base_name(&self.dll_path),
            target: 0,
            depth: 0,
            stage: if registered { SessionStage::Done } else { SessionStage::Descending },
            process: None,
            load,
            call,
            outcome: Ok(()),
            handles: Ghost(HandleLedger { opened: 0, closed: 0, handed: 0 }),
        };
        if registered {
            (session, Request::Done(Ok(())))
        } else {
            (session, Request::ChildOf { window: hwnd as u64 })
        }
    }

    /// Starts a removal of the bridge for `hwnd`. A window that is not in the
    /// table needs nothing: the session is over at once, with success.
    pub fn unhook_sub(&self, hwnd: usize) -> (r: (RemoveSession, Request))
        ensures
            r.0.wf(),
            r.0.hwnd == hwnd,
            r.0.dll_path@ == self.path(),
            r.0.handles@.taken == 0,
            needs_remove(self@, hwnd) ==> r.0.stage is Descending && r.0.depth == 0 && r.1 == (
            Request::ChildOf { window: hwnd as u64 }),
            !needs_remove(self@, hwnd) ==> r.0.stage is Done && r.0.outcome == Ok::<(), BridgeError>(())
                && r.1 == Request::Done(Ok(())),
    {
        let call = RemoteCall::call_remote_function(self.dll_path.clone(), "remove_subclass".to_owned(), None);
        let registered = self.inners.contains_key(&hwnd);
        let session = RemoveSession {
            hwnd,
            dll_path: self.dll_path.clone(),
            target: 0,
            depth: 0,
            stage: if registered { SessionStage::Descending } else { SessionStage::Done },
            process: None,
            call,
            outcome: Ok(()),
            handles: Ghost(TakenLedger { taken: 0, closed: 0 }),
        };
        if registered {
            (session, Request::ChildOf { window: hwnd as u64 })
        } else {
            (session, Request::Done(Ok(())))
        }
    }

    /// Whether the bridge is recorded as installed for `hwnd`.
    pub fn is_registered(&self, hwnd: usize) -> (r: bool)
        ensures
            r == self@.contains_key(hwnd),
    {
        self.inners.contains_key(&hwnd)
    }
}


/// How many first-child steps lead from the given window down to the window
/// whose messages are forwarded, in the host toolkit's window hierarchy.
pub const TARGET_DEPTH: usize = 4;

/// The status with which the bridge's install entry point reports a window
/// whose message procedure it could not read.
pub const INSTALL_FAILED: u32 = 102;

/// What a session asks its driver to do next.
#[derive(Debug)]
pub enum Request {
    /// Find the first child of `window`; reply with its handle.
    ChildOf { window: u64 },
    /// Open, with full access, the process that owns `window`; reply with the
    /// process handle.
    OpenOwner { window: u64 },
    /// List the modules loaded in `process`; answer with the list.
    ListModules { process: u64 },
    /// Perform a request of a remote machine inside `process`.
    Remote { process: u64, action: Action },
    /// Close a process handle; the reply is not read.
    CloseProcess { process: u64 },
    /// The session is over, with this result.
    Done(Result<(), BridgeError>),
}

/// What the driver hands back to a session.
#[derive(Debug)]
pub enum Answer {
    Os(Reply),
    Modules(Vec<ModuleEntry>),
}

/// The reply carried by an answer; a module list where a reply was due counts
/// as a refusal.
pub open spec fn reply_of(a: Answer) -> Reply {
    match a {
        Answer::Os(r) => r,
        Answer::Modules(_) => Reply::Refused,
    }
}

fn take_reply(a: Answer) -> (r: Reply)
    ensures
        r == reply_of(a),
{
    match a {
        Answer::Os(r) => r,
        Answer::Modules(_) => Reply::Refused,
    }
}

/// Where a session stands.
#[derive(Clone, Copy, Debug, PartialEq, Eq, Structural)]
pub enum SessionStage {
    Descending,
    Opening,
    Listing,
    Loading,
    Calling,
    Closing,
    Done,
}

/// How many process handles a session opened, closed, and handed to the table.
pub struct HandleLedger {
    pub opened: nat,
    pub closed: nat,
    pub handed: nat,
}

/// The name of the bridge's install entry point.
pub open spec fn install_symbol() -> Seq<char> {
    "set_subclass"@
}

/// The name of the bridge's remove entry point.
pub open spec fn remove_symbol() -> Seq<char> {
    "remove_subclass"@
}

/// Whether an install for `hwnd` has work to do: only a window that is not in
/// the table.
pub open spec fn needs_install(table: Map<usize, u64>, hwnd: usize) -> bool {
    !table.contains_key(hwnd)
}

/// Whether a remove for `hwnd` has work to do: only a window that is in the
/// table.
pub open spec fn needs_remove(table: Map<usize, u64>, hwnd: usize) -> bool {
    table.contains_key(hwnd)
}

/// The table after a successful install of `hwnd` with the owner `process`.
pub open spec fn after_install(table: Map<usize, u64>, hwnd: usize, process: u64) -> Map<usize, u64> {
    if table.contains_key(hwnd) { table } else { table.insert(hwnd, process) }
}

/// An install of the bridge for one window: it walks down to the target
/// window, opens its owner process, injects the companion module unless it is
/// already loaded there, calls the install entry point on the target, and
/// records the window with the process handle.
pub struct InstallSession {
    pub hwnd: usize,
    pub dll_path: Vec<u8>,
    pub module_name: Vec<u8>,
    pub target: u64,
    pub depth: usize,
    pub stage: SessionStage,
    pub process: Option<u64>,
    pub load: RemoteLoad,
    pub call: RemoteCall,
    pub outcome: Result<(), BridgeError>,
    pub handles: Ghost<HandleLedger>,
}

impl InstallSession {
    pub open spec fn wf(&self) -> bool {
        &&& self.handles@.opened == self.handles@.closed + self.handles@.handed + count(self.process)
        &&& self.handles@.handed <= 1
        &&& self.load.wf()
        &&& self.call.wf()
        &&& self.load.path@ == crate::remote::with_nul(self.dll_path@)
        &&& self.depth <= TARGET_DEPTH
        &&& self.stage is Descending ==> self.depth < TARGET_DEPTH && self.process is None
            && self.handles@.opened == 0
        &&& self.stage is Opening ==> self.process is None && self.handles@.opened == 0
        &&& (self.stage is Listing || self.stage is Loading || self.stage is Calling)
            ==> self.process is Some && self.handles@.handed == 0
        &&& (self.stage is Descending || self.stage is Opening || self.stage is Listing)
            ==> self.load.stage is Start
        &&& self.stage is Loading ==> self.load.stage !is Start
        &&& self.stage is Calling ==> self.call.stage !is Start && self.call.symbol@ == install_symbol()
            && self.call.arg == Some(self.target) && self.call.dll_path@ == self.dll_path@
        &&& (self.stage is Closing || self.stage is Done) ==> self.process is None
        &&& !(self.stage is Loading) ==> self.load.held.is_empty()
        &&& !(self.stage is Calling) ==> self.call.held.is_empty()
    }


    /// Calls the install entry point on the target window.
    fn start_call(&mut self) -> (r: Request)
        requires
            old(self).wf(),
            old(self).process is Some,
            old(self).handles@.handed == 0,
            old(self).load.held.is_empty(),
        ensures
            final(self).wf(),
            final(self).stage is Calling,
            final(self).process == old(self).process,
            final(self).hwnd == old(self).hwnd,
            final(self).dll_path == old(self).dll_path,
            final(self).module_name == old(self).module_name,
            final(self).target == old(self).target,
            final(self).outcome == old(self).outcome,
            final(self).handles == old(self).handles,
            final(self).load == old(self).load,
            final(self).call.arg == Some(old(self).target),
            final(self).call.stage is Loading,
            final(self).call.ledger@ == (Ledger { allocs: 0, frees: 0, spawns: 0, closes: 0, loads: 0, unloads: 0 }),
            r matches Request::Remote { process, action } && process == old(self).process->0 && (
            action matches Action::LoadLocal { path } && path@ == old(self).dll_path@),
    {
        let symbol: String = "set_subclass".to_owned();
        self.call = RemoteCall::call_remote_function(self.dll_path.clone(), symbol, Some(self.target));
        self.stage = SessionStage::Calling;
        let action = self.call.step(Reply::Refused);
        Request::Remote { process: self.process.unwrap(), action }
    }

    /// Takes the driver's answer to the last request and answers with the
    /// next one; `registry` is touched only to record the window at the end.
    pub fn step(&mut self, registry: &mut SubClassHwnd, answer: Answer) -> (r: Request)
        requires
            old(self).wf(),
        ensures
            final(self).wf(),
            final(self).hwnd == old(self).hwnd,
            final(self).dll_path == old(self).dll_path,
            final(self).module_name == old(self).module_name,
            !(old(self).stage is Descending) ==> final(self).target == old(self).target,
            final(registry).path() == old(registry).path(),
            final(self).handles@.opened == old(self).handles@.opened + (if old(self).stage is Opening
                && reply_of(answer) is Granted { 1nat } else { 0 }),
            final(self).handles@.closed == old(self).handles@.closed + (if r is CloseProcess { 1nat } else { 0 }),
            final(self).handles@.handed == old(self).handles@.handed + (if final(registry)@ != old(registry)@ {
                1nat
            } else {
                0
            }),
            final(registry)@ == old(registry)@ || (old(self).stage is Calling && !(final(self).stage is Calling)
                && old(self).process is Some && final(self).outcome == Ok::<(), BridgeError>(())
                && final(registry)@ == after_install(old(registry)@, old(self).hwnd, old(self).process->0)),
            !(old(self).stage is Calling && !(final(self).stage is Calling)) ==> final(registry)@ == old(
            registry)@,
            final(self).outcome is Err ==> final(registry)@ == old(registry)@,
            r is Done ==> final(self).stage is Done && r == Request::Done(final(self).outcome),
            old(self).stage is Descending && reply_of(answer) is Granted && old(self).depth + 1
                < TARGET_DEPTH ==> final(self).stage is Descending && final(self).depth == old(self).depth
                + 1 && r == (Request::ChildOf { window: reply_of(answer)->Granted_0 }),
            old(self).stage is Descending && reply_of(answer) is Granted && old(self).depth + 1
                == TARGET_DEPTH ==> final(self).stage is Opening && final(self).target == reply_of(answer)->Granted_0
                && r == (Request::OpenOwner { window: reply_of(answer)->Granted_0 }),
            old(self).stage is Descending && !(reply_of(answer) is Granted) ==> r == Request::Done(
                Err(BridgeError::Window),
            ),
            old(self).stage is Opening && reply_of(answer) is Granted ==> final(self).stage is Listing
                && final(self).process == Some(reply_of(answer)->Granted_0) && r == (
            Request::ListModules { process: reply_of(answer)->Granted_0 }),
            old(self).stage is Opening && !(reply_of(answer) is Granted) ==> r == Request::Done(
                Err(BridgeError::Access),
            ),
            old(self).stage is Listing && answer is Modules && (exists|i: int|
                first_named(answer->Modules_0@, old(self).module_name@, i)) ==> final(self).stage is Calling
                && final(self).process == old(self).process && final(self).load == old(self).load
                && final(self).call.arg == Some(old(self).target) && final(self).call.stage is Loading
                && final(self).call.ledger@ == (Ledger { allocs: 0, frees: 0, spawns: 0, closes: 0, loads: 0, unloads: 0 }) && (r matches Request::Remote {
                process, action } && process == old(self).process->0 && (action matches Action::LoadLocal {
                path } && path@ == old(self).dll_path@)),
            old(self).stage is Listing && !(answer is Modules && (exists|i: int|
                first_named(answer->Modules_0@, old(self).module_name@, i))) ==> final(self).stage is Loading
                && final(self).process == old(self).process && (r matches Request::Remote { process, action }
                && process == old(self).process->0 && old(self).load.next(Reply::Refused, final(self).load, action)),
            old(self).stage is Loading ==> final(self).stage is Loading || final(self).stage is Calling
                || final(self).stage is Closing,
            old(self).stage is Loading && final(self).stage is Loading ==> final(self).process == old(self).process
                && (r matches Request::Remote { process, action } && process == old(self).process->0
                && !(action is Finished) && old(self).load.next(reply_of(answer), final(self).load, action)),
            old(self).stage is Loading && !(final(self).stage is Loading) ==> final(self).load.finished()
                && old(self).load.next(reply_of(answer), final(self).load, Action::Finished(final(self).load.outcome)),
            old(self).stage is Loading && !(final(self).stage is Loading) && final(self).load.outcome is Ok
                ==> final(self).stage is Calling && final(self).process == old(self).process
                && final(self).call.arg == Some(old(self).target) && final(self).call.stage is Loading
                && final(self).call.ledger@ == (Ledger { allocs: 0, frees: 0, spawns: 0, closes: 0, loads: 0, unloads: 0 }) && (r matches Request::Remote {
                process, action } && process == old(self).process->0 && (action matches Action::LoadLocal {
                path } && path@ == old(self).dll_path@)),
            old(self).stage is Loading && !(final(self).stage is Loading) && final(self).load.outcome is Err
                ==> final(self).stage is Closing && final(self).outcome == Err::<(), BridgeError>(
                final(self).load.outcome->Err_0,
            ) && r == (Request::CloseProcess { process: old(self).process->0 }),
            old(self).stage is Calling ==> final(self).stage is Calling || final(self).stage is Closing
                || final(self).stage is Done,
            old(self).stage is Calling && final(self).stage is Calling ==> final(self).process == old(self).process
                && final(self).load == old(self).load && (r matches Request::Remote { process, action }
                && process == old(self).process->0 && !(action is Finished) && old(self).call.next(
                reply_of(answer),
                final(self).call,
                action,
            )),
            old(self).stage is Calling && !(final(self).stage is Calling) ==> final(self).call.finished()
                && old(self).call.next(reply_of(answer), final(self).call, Action::Finished(final(self).call.outcome)),
            old(self).stage is Calling && !(final(self).stage is Calling) && final(self).call.outcome is Err
                ==> final(self).stage is Closing && final(self).outcome == Err::<(), BridgeError>(
                final(self).call.outcome->Err_0,
            ) && r == (Request::CloseProcess { process: old(self).process->0 }),
            old(self).stage is Calling && !(final(self).stage is Calling) && final(self).call.outcome == Ok::<
                u32,
                BridgeError,
            >(INSTALL_FAILED) ==> final(self).stage is Closing && final(self).outcome == Err::<(), BridgeError>(
                BridgeError::Install,
            ) && r == (Request::CloseProcess { process: old(self).process->0 }),
            old(self).stage is Calling && !(final(self).stage is Calling) && final(self).call.outcome is Ok
                && final(self).call.outcome != Ok::<u32, BridgeError>(INSTALL_FAILED) ==> final(self).outcome
                == Ok::<(), BridgeError>(()) && final(registry)@ == after_install(
                old(registry)@,
                old(self).hwnd,
                old(self).process->0,
            ),
            old(self).stage is Calling && !(final(self).stage is Calling) && final(self).call.outcome is Ok
                && final(self).call.outcome != Ok::<u32, BridgeError>(INSTALL_FAILED) && old(registry)@.contains_key(
                old(self).hwnd,
            ) ==> final(self).stage is Closing && r == (Request::CloseProcess { process: old(self).process->0 }),
            old(self).stage is Calling && !(final(self).stage is Calling) && final(self).call.outcome is Ok
                && final(self).call.outcome != Ok::<u32, BridgeError>(INSTALL_FAILED) && !old(registry)@.contains_key(
                old(self).hwnd,
            ) ==> r == Request::Done(Ok(())),
            old(self).stage is Closing || old(self).stage is Done ==> final(self).stage is Done && r
                == Request::Done(old(self).outcome),
    {
        match self.stage {
            SessionStage::Descending => {
                match take_reply(answer) {
                    Reply::Granted(child) => {
                        self.depth = self.depth + 1;
                        if self.depth < TARGET_DEPTH {
                            Request::ChildOf { window: child }
                        } else {
                            self.target = child;
                            self.stage = SessionStage::Opening;
                            Request::OpenOwner { window: child }
                        }
                    },
                    _ => self.fail(BridgeError::Window),
                }
            },
            SessionStage::Opening => {
                match take_reply(answer) {
                    Reply::Granted(p) => {
                        self.process = Some(p);
                        proof {
                            self.handles@.opened = self.handles@.opened + 1;
                        }
                        self.stage = SessionStage::Listing;
                        Request::ListModules { process: p }
                    },
                    _ => self.fail(BridgeError::Access),
                }
            },
            SessionStage::Listing => {
                let resident: bool = match &answer {
                    Answer::Modules(list) => get_module_from_process(list, &self.module_name).is_some(),
                    Answer::Os(_) => false,
                };
                if resident {
                    self.start_call()
                } else {
                    self.stage = SessionStage::Loading;
                    let action = self.load.step(Reply::Refused);
                    Request::Remote { process: self.process.unwrap(), action }
                }
            },
            SessionStage::Loading => {
                let action = self.load.step(take_reply(answer));
                match action {
                    Action::Finished(Ok(_)) => self.start_call(),
                    Action::Finished(Err(e)) => self.fail(e),
                    _ => Request::Remote { process: self.process.unwrap(), action },
                }
            },
            SessionStage::Calling => {
                let action = self.call.step(take_reply(answer));
                match action {
                    Action::Finished(Ok(code)) => {
                        if code == INSTALL_FAILED {
                            self.fail(BridgeError::Install)
                        } else {
                            self.register(registry)
                        }
                    },
                    Action::Finished(Err(e)) => self.fail(e),
                    _ => Request::Remote { process: self.process.unwrap(), action },
                }
            },
            _ => {
                self.stage = SessionStage::Done;
                Request::Done(self.outcome)
            },
        }
    }

    /// Records the window with its process handle. Where the window was
    /// recorded meanwhile, the handle of this session is closed instead.
    fn register(&mut self, registry: &mut SubClassHwnd) -> (r: Request)
        requires
            old(self).wf(),
            old(self).stage is Calling,
            old(self).call.held.is_empty(),
        ensures
            final(self).wf(),
            final(self).outcome == Ok::<(), BridgeError>(()),
            final(self).process is None,
            final(self).hwnd == old(self).hwnd,
            final(self).dll_path == old(self).dll_path,
            final(self).module_name == old(self).module_name,
            final(self).target == old(self).target,
            final(self).load == old(self).load,
            final(self).call == old(self).call,
            final(registry).path() == old(registry).path(),
            final(registry)@ == after_install(old(registry)@, old(self).hwnd, old(self).process->0),
            final(self).handles@.opened == old(self).handles@.opened,
            final(self).handles@.handed == old(self).handles@.handed + (if final(registry)@ != old(registry)@ {
                1nat
            } else {
                0
            }),
            final(self).handles@.closed == old(self).handles@.closed + (if r is CloseProcess { 1nat } else { 0 }),
            old(registry)@.contains_key(old(self).hwnd) ==> final(self).stage is Closing && r == (
            Request::CloseProcess { process: old(self).process->0 }),
            !old(registry)@.contains_key(old(self).hwnd) ==> final(self).stage is Done && r == Request::Done(
                Ok(()),
            ),
    {
        let p: u64 = self.process.unwrap();
        self.process = None;
        self.outcome = Ok(());
        if registry.inners.contains_key(&self.hwnd) {
            self.stage = SessionStage::Closing;
            proof {
                self.handles@.closed = self.handles@.closed + 1;
            }
            Request::CloseProcess { process: p }
        } else {
            registry.inners.insert(self.hwnd, p);
            proof {
                assert(registry@ != old(registry)@) by {
                    assert(registry@.contains_key(self.hwnd));
                }
                self.handles@.handed = self.handles@.handed + 1;
            }
            self.stage = SessionStage::Done;
            Request::Done(Ok(()))
        }
    }

    /// Ends the session with `e`, closing the process handle if one is open.
    fn fail(&mut self, e: BridgeError) -> (r: Request)
        requires
            old(self).wf(),
            old(self).handles@.handed == 0,
            !(old(self).stage is Closing) && !(old(self).stage is Done),
            old(self).load.held.is_empty(),
            old(self).call.held.is_empty(),
        ensures
            final(self).wf(),
            final(self).outcome == Err::<(), BridgeError>(e),
            final(self).process is None,
            final(self).hwnd == old(self).hwnd,
            final(self).dll_path == old(self).dll_path,
            final(self).module_name == old(self).module_name,
            final(self).target == old(self).target,
            final(self).load == old(self).load,
            final(self).call == old(self).call,
            final(self).handles@.opened == old(self).handles@.opened,
            final(self).handles@.handed == old(self).handles@.handed,
            final(self).handles@.closed == old(self).handles@.closed + count(old(self).process),
            old(self).process is Some ==> final(self).stage is Closing && r == (Request::CloseProcess {
                process: old(self).process->0,
            }),
            old(self).process is None ==> final(self).stage is Done && r == Request::Done(Err(e)),
    {
        self.outcome = Err(e);
        match self.process {
            Some(p) => {
                self.process = None;
                self.stage = SessionStage::Closing;
                proof {
                    self.handles@.closed = self.handles@.closed + 1;
                }
                Request::CloseProcess { process: p }
            },
            None => {
                self.stage = SessionStage::Done;
                Request::Done(Err(e))
            },
        }
    }
}


/// How many process handles a removal took from the table and closed.
pub struct TakenLedger {
    pub taken: nat,
    pub closed: nat,
}

/// A removal of the bridge for one window: it walks down to the target
/// window, takes the window's entry out of the table, calls the remove entry
/// point on the target, and closes the process handle whatever that call
/// gave. It passes through the stages `Descending`, `Calling`, `Closing` and
/// `Done` only.
pub struct RemoveSession {
    pub hwnd: usize,
    pub dll_path: Vec<u8>,
    pub target: u64,
    pub depth: usize,
    pub stage: SessionStage,
    pub process: Option<u64>,
    pub call: RemoteCall,
    pub outcome: Result<(), BridgeError>,
    pub handles: Ghost<TakenLedger>,
}

impl RemoveSession {
    pub open spec fn wf(&self) -> bool {
        &&& self.handles@.taken == self.handles@.closed + count(self.process)
        &&& self.handles@.taken <= 1
        &&& self.call.wf()
        &&& self.depth <= TARGET_DEPTH
        &&& self.stage is Descending ==> self.depth < TARGET_DEPTH && self.handles@.taken == 0
        &&& self.stage is Calling ==> self.process is Some && self.call.stage !is Start
            && self.call.symbol@ == remove_symbol() && self.call.arg == Some(self.target)
            && self.call.dll_path@ == self.dll_path@
        &&& !(self.stage is Calling) ==> self.process is None
        &&& !(self.stage is Calling) ==> self.call.held.is_empty()
        &&& self.stage is Descending || self.stage is Calling || self.stage is Closing
            || self.stage is Done
    }

    /// Takes the driver's answer to the last request and answers with the
    /// next one; `registry` is touched only to take the window's entry out.
    pub fn step(&mut self, registry: &mut SubClassHwnd, answer: Answer) -> (r: Request)
        requires
            old(self).wf(),
        ensures
            final(self).wf(),
            final(self).hwnd == old(self).hwnd,
            final(self).dll_path == old(self).dll_path,
            !(old(self).stage is Descending) ==> final(self).target == old(self).target,
            final(registry).path() == old(registry).path(),
            final(self).handles@.closed == old(self).handles@.closed + (if r is CloseProcess { 1nat } else { 0 }),
            final(self).handles@.taken == old(self).handles@.taken + (if final(self).process is Some
                && old(self).process is None { 1nat } else { 0 }),
            final(registry)@ == old(registry)@ || (old(self).stage is Descending && old(self).depth + 1
                == TARGET_DEPTH && reply_of(answer) is Granted && final(registry)@ == old(registry)@.remove(
                old(self).hwnd,
            )),
            !(old(self).stage is Descending && old(self).depth + 1 == TARGET_DEPTH && reply_of(
                answer,
            ) is Granted) ==> final(registry)@ == old(registry)@,
            r is Done ==> final(self).stage is Done && r == Request::Done(final(self).outcome),
            old(self).stage is Descending && reply_of(answer) is Granted && old(self).depth + 1
                < TARGET_DEPTH ==> final(self).stage is Descending && final(self).depth == old(self).depth
                + 1 && r == (Request::ChildOf { window: reply_of(answer)->Granted_0 }),
            old(self).stage is Descending && reply_of(answer) is Granted && old(self).depth + 1
                == TARGET_DEPTH ==> final(self).target == reply_of(answer)->Granted_0 && final(registry)@
                == old(registry)@.remove(old(self).hwnd),
            old(self).stage is Descending && reply_of(answer) is Granted && old(self).depth + 1
                == TARGET_DEPTH && old(registry)@.contains_key(old(self).hwnd) ==> final(self).stage is Calling
                && final(self).process == Some(old(registry)@[old(self).hwnd]) && final(self).call.stage is Loading
                && final(self).call.arg == Some(reply_of(answer)->Granted_0) && final(self).call.ledger@
                == (Ledger { allocs: 0, frees: 0, spawns: 0, closes: 0, loads: 0, unloads: 0 }) && (r matches Request::Remote { process, action } && process == old(
            registry)@[old(self).hwnd] && (action matches Action::LoadLocal { path } && path@
                == old(self).dll_path@)),
            old(self).stage is Descending && reply_of(answer) is Granted && old(self).depth + 1
                == TARGET_DEPTH && !old(registry)@.contains_key(old(self).hwnd) ==> r == Request::Done(
                Ok(()),
            ),
            old(self).stage is Descending && !(reply_of(answer) is Granted) ==> final(registry)@ == old(
            registry)@ && r == Request::Done(Err(BridgeError::Window)),
            old(self).stage is Calling ==> final(self).stage is Calling || final(self).stage is Closing,
            old(self).stage is Calling && final(self).stage is Calling ==> final(self).process == old(self).process
                && (r matches Request::Remote { process, action } && process == old(self).process->0
                && !(action is Finished) && old(self).call.next(reply_of(answer), final(self).call, action)),
            old(self).stage is Calling && final(self).stage is Closing ==> final(self).call.finished()
                && old(self).call.next(reply_of(answer), final(self).call, Action::Finished(final(self).call.outcome))
                && r == (Request::CloseProcess { process: old(self).process->0 }),
            old(self).stage is Calling && final(self).stage is Closing && final(self).call.outcome is Ok
                ==> final(self).outcome == Ok::<(), BridgeError>(()),
            old(self).stage is Calling && final(self).stage is Closing && final(self).call.outcome is Err
                ==> final(self).outcome == Err::<(), BridgeError>(final(self).call.outcome->Err_0),
            old(self).stage is Closing || old(self).stage is Done ==> final(self).stage is Done && r
                == Request::Done(old(self).outcome),
    {
        match self.stage {
            SessionStage::Descending => {
                match take_reply(answer) {
                    Reply::Granted(child) => {
                        self.depth = self.depth + 1;
                        if self.depth < TARGET_DEPTH {
                            Request::ChildOf { window: child }
                        } else {
                            self.target = child;
                            match registry.inners.remove(&self.hwnd) {
                                Some(p) => {
                                    self.process = Some(p);
                                    proof {
                                        self.handles@.taken = self.handles@.taken + 1;
                                    }
                                    self.call = RemoteCall::call_remote_function(
                                        self.dll_path.clone(),
                                        "remove_subclass".to_owned(),
                                        Some(child),
                                    );
                                    self.stage = SessionStage::Calling;
                                    let action = self.call.step(Reply::Refused);
                                    Request::Remote { process: p, action }
                                },
                                None => {
                                    self.stage = SessionStage::Done;
                                    self.outcome = Ok(());
                                    Request::Done(Ok(()))
                                },
                            }
                        }
                    },
                    _ => {
                        self.stage = SessionStage::Done;
                        self.outcome = Err(BridgeError::Window);
                        Request::Done(Err(BridgeError::Window))
                    },
                }
            },
            SessionStage::Calling => {
                let action = self.call.step(take_reply(answer));
                match action {
                    Action::Finished(result) => {
                        self.outcome = match result {
                            Ok(_) => Ok(()),
                            Err(e) => Err(e),
                        };
                        let p: u64 = self.process.unwrap();
                        self.process = None;
                        proof {
                            self.handles@.closed = self.handles@.closed + 1;
                        }
                        self.stage = SessionStage::Closing;
                        Request::CloseProcess { process: p }
                    },
                    _ => Request::Remote { process: self.process.unwrap(), action },
                }
            },
            _ => {
                self.stage = SessionStage::Done;
                Request::Done(self.outcome)
            },
        }
    }
}

/// A second install of a window needs nothing once the first one succeeded,
/// and leaves the table with the single entry that the first one made.
pub proof fn lemma_install_twice(table: Map<usize, u64>, hwnd: usize, first: u64, second: u64)
    ensures
        !needs_install(after_install(table, hwnd, first), hwnd),
        after_install(after_install(table, hwnd, first), hwnd, second) == after_install(table, hwnd, first),
        after_install(table, hwnd, first).contains_key(hwnd),
{
}

/// A remove of a window that is not in the table needs nothing and leaves the
/// table as it was.
pub proof fn lemma_remove_unregistered(table: Map<usize, u64>, hwnd: usize)
    requires
        !table.contains_key(hwnd),
    ensures
        !needs_remove(table, hwnd),
        table.remove(hwnd) == table,
{
    assert(table.remove(hwnd) =~= table);
}

/// An install session that is over, with success or not, holds nothing:
/// each process handle it opened was closed or handed to the table (at most
/// one), and its loader and its invoker freed every foreign buffer, closed
/// every thread and unloaded every module they were granted.
pub proof fn lemma_install_handles(s: InstallSession)
    requires
        s.wf(),
        s.stage is Done,
    ensures
        s.handles@.opened == s.handles@.closed + s.handles@.handed,
        s.handles@.handed <= 1,
        s.load.ledger@.allocs == s.load.ledger@.frees,
        s.load.ledger@.spawns == s.load.ledger@.closes,
        s.call.ledger@.allocs == s.call.ledger@.frees,
        s.call.ledger@.spawns == s.call.ledger@.closes,
        s.call.ledger@.loads == s.call.ledger@.unloads,
{
}

/// A remove session that is over, with success or not, has closed the
/// process handle it took from the table, if it took one, and its invoker
/// freed, closed and unloaded everything it was granted.
pub proof fn lemma_remove_handles(s: RemoveSession)
    requires
        s.wf(),
        s.stage is Done,
    ensures
        s.handles@.taken == s.handles@.closed,
        s.call.ledger@.allocs == s.call.ledger@.frees,
        s.call.ledger@.spawns == s.call.ledger@.closes,
        s.call.ledger@.loads == s.call.ledger@.unloads,
{
}

} // verus!
