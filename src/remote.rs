//! The remote module loader and the remote invoker, each as a state machine.
//!
//! A machine never touches another process itself: each `step` takes the
//! reply to the operation it asked for last and answers with the next
//! operation to perform. Every buffer, thread and module that a reply grants
//! is held by the machine until it asks for its release, and a machine reports
//! `Finished` only once it holds nothing.
use vstd::prelude::*;

verus! {

/// Why an operation on another process failed.
#[derive(Clone, Copy, Debug, PartialEq, Eq, Structural)]
pub enum BridgeError {
    /// The target window could not be resolved.
    Window,
    /// The owning process could not be opened.
    Access,
    /// Injecting the companion module failed.
    Loader,
    /// A remote call could not be carried out.
    Invocation,
    /// The bridge could not read the window's message procedure.
    Install,
}

/// The answer of the operating system to the last operation asked for.
#[derive(Clone, Copy, Debug, PartialEq, Eq, Structural)]
pub enum Reply {
    /// The operation succeeded and produced this handle or address (zero where
    /// it produces none).
    Granted(u64),
    /// A remote thread ran to completion with this exit code.
    Exited(u32),
    /// The operation failed.
    Refused,
}

/// An operation that a machine asks its driver to perform.
#[derive(Debug)]
pub enum Action {
    /// Allocate `size` bytes in the foreign process; reply with the address.
    AllocForeign { size: usize, executable: bool },
    /// Copy `bytes` to `buffer` in the foreign process.
    WriteForeign { buffer: u64, bytes: Vec<u8> },
    /// Release a foreign buffer; the reply is not read.
    FreeForeign { buffer: u64 },
    /// Resolve the system module-loader entry point; reply with its address.
    ResolveLoaderEntry,
    /// Load the module at `path` into this process; reply with its handle.
    LoadLocal { path: Vec<u8> },
    /// Resolve `symbol` in a locally loaded module; reply with its address.
    ResolveSymbol { library: u64, symbol: String },
    /// Unload a locally loaded module; the reply is not read.
    UnloadLocal { library: u64 },
    /// Start a thread in the foreign process; reply with its handle.
    SpawnRemote { start: u64, param: Option<u64> },
    /// Wait for a remote thread to end; reply with its exit code.
    JoinRemote { thread: u64 },
    /// Release a thread handle; the reply is not read.
    CloseThread { thread: u64 },
    /// The operation is over, with this result.
    Finished(Result<u32, BridgeError>),
}

/// The resources that a machine holds at a given moment.
#[derive(Clone, Copy, Debug, PartialEq, Eq, Structural)]
pub struct Held {
    pub buffer: Option<u64>,
    pub thread: Option<u64>,
    pub library: Option<u64>,
}

/// How many resources of each kind were granted to a machine and released by it.
pub struct Ledger {
    pub allocs: nat,
    pub frees: nat,
    pub spawns: nat,
    pub closes: nat,
    pub loads: nat,
    pub unloads: nat,
}

pub open spec fn count(o: Option<u64>) -> nat {
    if o is Some { 1 } else { 0 }
}

/// The release that comes next for what `h` holds: the buffer first, then the
/// thread, then the module; once nothing is held, `Finished(outcome)`.
pub open spec fn release_of(h: Held, outcome: Result<u32, BridgeError>) -> Action {
    if h.buffer is Some {
        Action::FreeForeign { buffer: h.buffer->0 }
    } else if h.thread is Some {
        Action::CloseThread { thread: h.thread->0 }
    } else if h.library is Some {
        Action::UnloadLocal { library: h.library->0 }
    } else {
        Action::Finished(outcome)
    }
}

/// What `h` holds after its next release.
pub open spec fn released(h: Held) -> Held {
    if h.buffer is Some {
        Held { buffer: None, ..h }
    } else if h.thread is Some {
        Held { thread: None, ..h }
    } else {
        Held { library: None, ..h }
    }
}

/// The ledger after a step that was granted `allocs` buffers, `spawns`
/// threads and `loads` modules, and that asks for `r`, which may be a release.
pub open spec fn ledger_after(l: Ledger, r: Action, allocs: nat, spawns: nat, loads: nat) -> Ledger {
    Ledger {
        allocs: l.allocs + allocs,
        frees: l.frees + (if r is FreeForeign { 1nat } else { 0 }),
        spawns: l.spawns + spawns,
        closes: l.closes + (if r is CloseThread { 1nat } else { 0 }),
        loads: l.loads + loads,
        unloads: l.unloads + (if r is UnloadLocal { 1nat } else { 0 }),
    }
}

impl Held {
    pub open spec fn is_empty(self) -> bool {
        self.buffer is None && self.thread is None && self.library is None
    }

    /// Every grant is matched by a release or is still held.
    pub open spec fn balanced(self, l: Ledger) -> bool {
        &&& l.allocs == l.frees + count(self.buffer)
        &&& l.spawns == l.closes + count(self.thread)
        &&& l.loads == l.unloads + count(self.library)
    }

    pub fn empty() -> (h: Held)
        ensures
            h.is_empty(),
    {
        Held { buffer: None, thread: None, library: None }
    }

    /// Asks for the release of one held resource, or reports `outcome` when
    /// nothing is held.
    pub fn release_next(&mut self, outcome: Result<u32, BridgeError>) -> (r: Action)
        ensures
            r == release_of(*old(self), outcome),
            *final(self) == released(*old(self)),
    {
        if let Some(b) = self.buffer {
            self.buffer = None;
            Action::FreeForeign { buffer: b }
        } else if let Some(t) = self.thread {
            self.thread = None;
            Action::CloseThread { thread: t }
        } else if let Some(m) = self.library {
            self.library = None;
            Action::UnloadLocal { library: m }
        } else {
            Action::Finished(outcome)
        }
    }
}

proof fn lemma_release_balanced(h: Held, l: Ledger, o: Result<u32, BridgeError>)
    requires
        h.balanced(l),
    ensures
        released(h).balanced(ledger_after(l, release_of(h, o), 0, 0, 0)),
        release_of(h, o) is Finished ==> h.is_empty(),
{
}

/// Where the remote module loader stands.
#[derive(Clone, Copy, Debug, PartialEq, Eq, Structural)]
pub enum LoadStage {
    Start,
    Allocating,
    Writing,
    Resolving,
    Spawning,
    Joining,
    Releasing,
}

/// Injects the companion module into a foreign process: it writes the module's
/// null-terminated path into foreign scratch memory and runs the system
/// module loader on it in a remote thread, whose exit code is the module handle.
pub struct RemoteLoad {
    /// The module path, with its terminating zero.
    pub path: Vec<u8>,
    pub stage: LoadStage,
    pub held: Held,
    pub outcome: Result<u32, BridgeError>,
    pub ledger: Ghost<Ledger>,
}

/// The bytes of a path followed by its terminating zero.
pub open spec fn with_nul(path: Seq<u8>) -> Seq<u8> {
    path.push(0u8)
}

impl RemoteLoad {
    pub open spec fn wf(&self) -> bool {
        &&& self.held.balanced(self.ledger@)
        &&& self.path@.len() > 0
        &&& self.held.library is None
        &&& (self.stage is Start || self.stage is Allocating) ==> self.held.is_empty()
        &&& (self.stage is Writing || self.stage is Resolving || self.stage is Spawning)
            ==> self.held.buffer is Some && self.held.thread is None
        &&& self.stage is Joining ==> self.held.buffer is Some && self.held.thread is Some
    }

    /// Whether the operation is over: the result is known and nothing is held.
    pub open spec fn finished(&self) -> bool {
        self.stage is Releasing && self.held.is_empty()
    }

    /// The operation's result is `o`, and the step asks for the next release,
    /// or reports `o` once nothing is held.
    pub open spec fn settles(self, post: Self, r: Action, o: Result<u32, BridgeError>) -> bool {
        &&& post.stage is Releasing
        &&& post.outcome == o
        &&& post.held == released(self.held)
        &&& r == release_of(self.held, o)
    }

    /// One step of the loader: from this state and `reply`, the state `post`
    /// and the request `r`.
    ///
    /// The loader asks, in order, for scratch memory sized to the path, for
    /// the path to be written there, for the loader entry point, for a remote
    /// thread that runs it on the scratch memory, and for that thread's exit
    /// code. A refusal at any of these ends the operation with `Loader`. Then
    /// the scratch memory and the thread are released, one per step, and
    /// `Finished` reports the exit code, or the error.
    pub open spec fn next(self, reply: Reply, post: Self, r: Action) -> bool {
        &&& post.path == self.path
        &&& post.ledger@ == ledger_after(
            self.ledger@,
            r,
            if self.stage is Allocating && reply is Granted { 1nat } else { 0 },
            if self.stage is Spawning && reply is Granted { 1nat } else { 0 },
            0,
        )
        &&& match (self.stage, reply) {
            (LoadStage::Start, _) => post.stage is Allocating && post.held == self.held && post.outcome
                == self.outcome && r == (Action::AllocForeign {
                size: self.path@.len() as usize,
                executable: true,
            }),
            (LoadStage::Allocating, Reply::Granted(b)) => post.stage is Writing && post.held == (Held {
                buffer: Some(b),
                ..self.held
            }) && post.outcome == self.outcome && (r matches Action::WriteForeign { buffer, bytes }
                && buffer == b && bytes@ == self.path@),
            (LoadStage::Writing, Reply::Granted(_)) => post.stage is Resolving && post.held == self.held
                && post.outcome == self.outcome && r == Action::ResolveLoaderEntry,
            (LoadStage::Resolving, Reply::Granted(a)) => post.stage is Spawning && post.held == self.held
                && post.outcome == self.outcome && r == (Action::SpawnRemote {
                start: a,
                param: self.held.buffer,
            }),
            (LoadStage::Spawning, Reply::Granted(t)) => post.stage is Joining && post.held == (Held {
                thread: Some(t),
                ..self.held
            }) && post.outcome == self.outcome && r == (Action::JoinRemote { thread: t }),
            (LoadStage::Joining, Reply::Exited(c)) => self.settles(post, r, Ok(c)),
            (LoadStage::Releasing, _) => self.settles(post, r, self.outcome),
            _ => self.settles(post, r, Err(BridgeError::Loader)),
        }
    }

    /// A loader for the module at `dll_path`, before its first request.
    pub fn hook_sub(dll_path: &Vec<u8>) -> (m: RemoteLoad)
        ensures
            m.wf(),
            m.stage is Start,
            m.path@ == with_nul(dll_path@),
            m.ledger@ == (Ledger { allocs: 0, frees: 0, spawns: 0, closes: 0, loads: 0, unloads: 0 }),
    {
        let mut path: Vec<u8> = Vec::new();
        let mut i: usize = 0;
        while i < dll_path.len()
            invariant
                i <= dll_path@.len(),
                path@ == dll_path@.subrange(0, i as int),
            decreases dll_path@.len() - i,
        {
            path.push(dll_path[i]);
            i = i + 1;
        }
        path.push(0u8);
        proof {
            assert(dll_path@.subrange(0, dll_path@.len() as int) == dll_path@);
        }
        RemoteLoad {
            path,
            stage: LoadStage::Start,
            held: Held::empty(),
            outcome: Err(BridgeError::Loader),
            ledger: Ghost(Ledger { allocs: 0, frees: 0, spawns: 0, closes: 0, loads: 0, unloads: 0 }),
        }
    }

    /// Takes the reply to the last request and answers with the next one, as
    /// `next` states.
    pub fn step(&mut self, reply: Reply) -> (r: Action)
        requires
            old(self).wf(),
        ensures
            final(self).wf(),
            old(self).next(reply, *final(self), r),
            r is Finished ==> final(self).finished() && r == Action::Finished(final(self).outcome),
    {
        match (self.stage, reply) {
            (LoadStage::Start, _) => {
                self.stage = LoadStage::Allocating;
                Action::AllocForeign { size: self.path.len(), executable: true }
            },
            (LoadStage::Allocating, Reply::Granted(buffer)) => {
                self.stage = LoadStage::Writing;
                self.held.buffer = Some(buffer);
                proof {
                    self.ledger@.allocs = self.ledger@.allocs + 1;
                }
                Action::WriteForeign { buffer, bytes: self.path.clone() }
            },
            (LoadStage::Writing, Reply::Granted(_)) => {
                self.stage = LoadStage::Resolving;
                Action::ResolveLoaderEntry
            },
            (LoadStage::Resolving, Reply::Granted(start)) => {
                self.stage = LoadStage::Spawning;
                Action::SpawnRemote { start, param: self.held.buffer }
            },
            (LoadStage::Spawning, Reply::Granted(thread)) => {
                self.stage = LoadStage::Joining;
                self.held.thread = Some(thread);
                proof {
                    self.ledger@.spawns = self.ledger@.spawns + 1;
                }
                Action::JoinRemote { thread }
            },
            (LoadStage::Joining, Reply::Exited(code)) => self.settle(Ok(code)),
            (LoadStage::Releasing, _) => {
                let o = self.outcome;
                self.settle(o)
            },
            (_, _) => self.settle(Err(BridgeError::Loader)),
        }
    }

    /// Sets the result to `o` and asks for the next release.
    fn settle(&mut self, o: Result<u32, BridgeError>) -> (r: Action)
        requires
            old(self).wf(),
        ensures
            final(self).wf(),
            old(self).settles(*final(self), r, o),
            final(self).path == old(self).path,
            final(self).ledger@ == ledger_after(old(self).ledger@, r, 0, 0, 0),
            r is Finished ==> final(self).finished() && r == Action::Finished(final(self).outcome),
    {
        proof {
            lemma_release_balanced(self.held, self.ledger@, o);
        }
        let ghost pre = self.held;
        self.stage = LoadStage::Releasing;
        self.outcome = o;
        let r = self.held.release_next(o);
        proof {
            self.ledger@ = ledger_after(self.ledger@, release_of(pre, o), 0, 0, 0);
        }
        r
    }
}

/// The size of the one argument that a remote call passes: a window handle.
pub const ARG_SIZE: usize = 8;

/// The first `n` bytes of `v`, least significant first.
pub open spec fn le_bytes(v: nat, n: nat) -> Seq<u8>
    decreases n,
{
    if n == 0 {
        Seq::empty()
    } else {
        seq![(v % 256) as u8].add(le_bytes(v / 256, (n - 1) as nat))
    }
}

/// The little-endian bytes of `v`.
pub fn arg_bytes(v: u64) -> (b: Vec<u8>)
    ensures
        b@ == le_bytes(v as nat, ARG_SIZE as nat),
{
    let mut b: Vec<u8> = Vec::new();
    let mut rest: u64 = v;
    let mut i: usize = 0;
    while i < ARG_SIZE
        invariant
            i <= ARG_SIZE,
            b@.add(le_bytes(rest as nat, (ARG_SIZE - i) as nat)) == le_bytes(v as nat, ARG_SIZE as nat),
        decreases ARG_SIZE - i,
    {
        let ghost before = b@;
        let byte: u8 = (rest % 256) as u8;
        b.push(byte);
        proof {
            let tail = le_bytes(rest as nat / 256, (ARG_SIZE - i - 1) as nat);
            assert(le_bytes(rest as nat, (ARG_SIZE - i) as nat) == seq![byte].add(tail));
            assert(before.add(seq![byte].add(tail)) == b@.add(tail));
        }
        rest = rest / 256;
        i = i + 1;
    }
    proof {
        assert(b@.add(Seq::<u8>::empty()) == b@);
    }
    b
}

/// Where the remote invoker stands.
#[derive(Clone, Copy, Debug, PartialEq, Eq, Structural)]
pub enum CallStage {
    Start,
    Loading,
    Resolving,
    Allocating,
    Writing,
    Spawning,
    Joining,
    Releasing,
}

/// Calls an exported function of a module in a foreign process with at most
/// one argument: the module is loaded locally to resolve the symbol, the
/// argument is written into foreign memory, and a remote thread runs the
/// symbol on it; the thread's exit code is the result.
pub struct RemoteCall {
    pub dll_path: Vec<u8>,
    pub symbol: String,
    pub arg: Option<u64>,
    pub stage: CallStage,
    /// The resolved address of the symbol, once known.
    pub entry: u64,
    pub held: Held,
    pub outcome: Result<u32, BridgeError>,
    pub ledger: Ghost<Ledger>,
}

impl RemoteCall {
    pub open spec fn wf(&self) -> bool {
        &&& self.held.balanced(self.ledger@)
        &&& (self.stage is Start || self.stage is Loading) ==> self.held.is_empty()
        &&& (self.stage is Resolving || self.stage is Allocating) ==> self.held.library is Some
            && self.held.buffer is None && self.held.thread is None
        &&& self.stage is Allocating ==> self.arg is Some
        &&& self.stage is Writing ==> self.held.library is Some && self.held.buffer is Some
            && self.held.thread is None && self.arg is Some
        &&& self.stage is Spawning ==> self.held.library is Some && self.held.thread is None && (
        self.held.buffer is Some <==> self.arg is Some)
        &&& self.stage is Joining ==> self.held.library is Some && self.held.thread is Some
    }

    /// Whether the operation is over: the result is known and nothing is held.
    pub open spec fn finished(&self) -> bool {
        self.stage is Releasing && self.held.is_empty()
    }

    /// An invoker of `symbol` in the module at `dll_path`, before its first
    /// request.
    pub fn call_remote_function(dll_path: Vec<u8>, symbol: String, arg: Option<u64>) -> (m: RemoteCall)
        ensures
            m.wf(),
            m.stage is Start,
            m.dll_path == dll_path,
            m.symbol == symbol,
            m.arg == arg,
            m.ledger@ == (Ledger { allocs: 0, frees: 0, spawns: 0, closes: 0, loads: 0, unloads: 0 }),
    {
        RemoteCall {
            dll_path,
            symbol,
            arg,
            stage: CallStage::Start,
            entry: 0,
            held: Held::empty(),
            outcome: Err(BridgeError::Invocation),
            ledger: Ghost(Ledger { allocs: 0, frees: 0, spawns: 0, closes: 0, loads: 0, unloads: 0 }),
        }
    }

    /// The operation's result is `o`, and the step asks for the next release,
    /// or reports `o` once nothing is held.
    pub open spec fn settles(self, post: Self, r: Action, o: Result<u32, BridgeError>) -> bool {
        &&& post.stage is Releasing
        &&& post.outcome == o
        &&& post.held == released(self.held)
        &&& r == release_of(self.held, o)
    }

    /// One step of the invoker: from this state and `reply`, the state `post`
    /// and the request `r`.
    ///
    /// The invoker asks, in order, for the module to be loaded locally, for
    /// the symbol's address in it, for foreign memory and the argument's bytes
    /// in it (only where there is an argument), for a remote thread that runs
    /// the symbol, and for its exit code. A symbol that cannot be resolved
    /// gives the result zero, not an error; any other refusal ends the
    /// operation with `Invocation`. Then the argument's memory, the thread and
    /// the local module are released, one per step, and `Finished` reports the
    /// result.
    pub open spec fn next(self, reply: Reply, post: Self, r: Action) -> bool {
        &&& post.dll_path == self.dll_path
        &&& post.symbol == self.symbol
        &&& post.arg == self.arg
        &&& post.entry == (if self.stage is Resolving && reply is Granted {
            reply->Granted_0
        } else {
            self.entry
        })
        &&& post.ledger@ == ledger_after(
            self.ledger@,
            r,
            if self.stage is Allocating && reply is Granted { 1nat } else { 0 },
            if self.stage is Spawning && reply is Granted { 1nat } else { 0 },
            if self.stage is Loading && reply is Granted { 1nat } else { 0 },
        )
        &&& match (self.stage, reply) {
            (CallStage::Start, _) => post.stage is Loading && post.held == self.held && post.outcome
                == self.outcome && (r matches Action::LoadLocal { path } && path@ == self.dll_path@),
            (CallStage::Loading, Reply::Granted(m)) => post.stage is Resolving && post.held == (Held {
                library: Some(m),
                ..self.held
            }) && post.outcome == self.outcome && (r matches Action::ResolveSymbol { library, symbol }
                && library == m && symbol@ == self.symbol@),
            (CallStage::Resolving, Reply::Granted(a)) => post.held == self.held && post.outcome
                == self.outcome && if self.arg is Some {
                post.stage is Allocating && r == (Action::AllocForeign {
                    size: ARG_SIZE,
                    executable: false,
                })
            } else {
                post.stage is Spawning && r == (Action::SpawnRemote { start: a, param: None })
            },
            (CallStage::Resolving, _) => self.settles(post, r, Ok(0)),
            (CallStage::Allocating, Reply::Granted(b)) => post.stage is Writing && post.held == (Held {
                buffer: Some(b),
                ..self.held
            }) && post.outcome == self.outcome && (r matches Action::WriteForeign { buffer, bytes }
                && buffer == b && bytes@ == le_bytes(self.arg->0 as nat, ARG_SIZE as nat)),
            (CallStage::Writing, Reply::Granted(_)) => post.stage is Spawning && post.held == self.held
                && post.outcome == self.outcome && r == (Action::SpawnRemote {
                start: self.entry,
                param: self.held.buffer,
            }),
            (CallStage::Spawning, Reply::Granted(t)) => post.stage is Joining && post.held == (Held {
                thread: Some(t),
                ..self.held
            }) && post.outcome == self.outcome && r == (Action::JoinRemote { thread: t }),
            (CallStage::Joining, Reply::Exited(c)) => self.settles(post, r, Ok(c)),
            (CallStage::Releasing, _) => self.settles(post, r, self.outcome),
            _ => self.settles(post, r, Err(BridgeError::Invocation)),
        }
    }

    /// Takes the reply to the last request and answers with the next one, as
    /// `next` states.
    pub fn step(&mut self, reply: Reply) -> (r: Action)
        requires
            old(self).wf(),
        ensures
            final(self).wf(),
            old(self).next(reply, *final(self), r),
            r is Finished ==> final(self).finished() && r == Action::Finished(final(self).outcome),
    {
        match (self.stage, reply) {
            (CallStage::Start, _) => {
                self.stage = CallStage::Loading;
                Action::LoadLocal { path: self.dll_path.clone() }
            },
            (CallStage::Loading, Reply::Granted(library)) => {
                self.stage = CallStage::Resolving;
                self.held.library = Some(library);
                proof {
                    self.ledger@.loads = self.ledger@.loads + 1;
                }
                Action::ResolveSymbol { library, symbol: self.symbol.clone() }
            },
            (CallStage::Resolving, Reply::Granted(entry)) => {
                self.entry = entry;
                if self.arg.is_some() {
                    self.stage = CallStage::Allocating;
                    Action::AllocForeign { size: ARG_SIZE, executable: false }
                } else {
                    self.stage = CallStage::Spawning;
                    Action::SpawnRemote { start: entry, param: None }
                }
            },
            (CallStage::Resolving, _) => self.settle(Ok(0)),
            (CallStage::Allocating, Reply::Granted(buffer)) => {
                self.stage = CallStage::Writing;
                self.held.buffer = Some(buffer);
                proof {
                    self.ledger@.allocs = self.ledger@.allocs + 1;
                }
                let v: u64 = match self.arg {
                    Some(v) => v,
                    None => 0,
                };
                Action::WriteForeign { buffer, bytes: arg_bytes(v) }
            },
            (CallStage::Writing, Reply::Granted(_)) => {
                self.stage = CallStage::Spawning;
                Action::SpawnRemote { start: self.entry, param: self.held.buffer }
            },
            (CallStage::Spawning, Reply::Granted(thread)) => {
                self.stage = CallStage::Joining;
                self.held.thread = Some(thread);
                proof {
                    self.ledger@.spawns = self.ledger@.spawns + 1;
                }
                Action::JoinRemote { thread }
            },
            (CallStage::Joining, Reply::Exited(code)) => self.settle(Ok(code)),
            (CallStage::Releasing, _) => {
                let o = self.outcome;
                self.settle(o)
            },
            (_, _) => self.settle(Err(BridgeError::Invocation)),
        }
    }

    /// Sets the result to `o` and asks for the next release.
    fn settle(&mut self, o: Result<u32, BridgeError>) -> (r: Action)
        requires
            old(self).wf(),
        ensures
            final(self).wf(),
            old(self).settles(*final(self), r, o),
            final(self).dll_path == old(self).dll_path,
            final(self).symbol == old(self).symbol,
            final(self).arg == old(self).arg,
            final(self).entry == old(self).entry,
            final(self).ledger@ == ledger_after(old(self).ledger@, r, 0, 0, 0),
            r is Finished ==> final(self).finished() && r == Action::Finished(final(self).outcome),
    {
        proof {
            lemma_release_balanced(self.held, self.ledger@, o);
        }
        let ghost pre = self.held;
        self.stage = CallStage::Releasing;
        self.outcome = o;
        let r = self.held.release_next(o);
        proof {
            self.ledger@ = ledger_after(self.ledger@, release_of(pre, o), 0, 0, 0);
        }
        r
    }
}

/// Whatever the replies were, a loader that has finished has freed every
/// foreign buffer it was granted and closed every thread it started.
pub proof fn lemma_load_balanced(m: RemoteLoad)
    requires
        m.wf(),
        m.finished(),
    ensures
        m.ledger@.allocs == m.ledger@.frees,
        m.ledger@.spawns == m.ledger@.closes,
{
}

/// Whatever the replies were, an invoker that has finished has freed every
/// foreign buffer it was granted, closed every thread it started and unloaded
/// every module it loaded.
pub proof fn lemma_call_balanced(m: RemoteCall)
    requires
        m.wf(),
        m.finished(),
    ensures
        m.ledger@.allocs == m.ledger@.frees,
        m.ledger@.spawns == m.ledger@.closes,
        m.ledger@.loads == m.ledger@.unloads,
{
}

} // verus!
