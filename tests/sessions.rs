use std::collections::HashMap;

use mouse_forward::bridge::{status, Bridge};
use mouse_forward::manager::{
    base_name, get_module_from_process, Answer, ModuleEntry, Request, SubClassHwnd, INSTALL_FAILED,
};
use mouse_forward::remote::{arg_bytes, Action, BridgeError, RemoteCall, RemoteLoad, Reply};

const LOADER: u64 = 0x7ffa_0000;
const SET_ENTRY: u64 = 0x1000;
const REMOVE_ENTRY: u64 = 0x2000;
const BRIDGE_PROC: isize = 0x5555_0000;
const DLL_PATH: &str = "C:\\app\\sub_dll\\sub_dll.dll";

/// A foreign process and its window, simulated, counting every resource.
struct FakeOs {
    next: u64,
    memory: HashMap<u64, Vec<u8>>,
    exits: HashMap<u64, u32>,
    allocs: usize,
    frees: usize,
    spawns: usize,
    closes: usize,
    loads: usize,
    unloads: usize,
    opens: usize,
    process_closes: usize,
    loader_runs: usize,
    resident: bool,
    exported: bool,
    bridge: Bridge,
    window_proc: isize,
    fallible: usize,
    fail_at: Option<usize>,
}

impl FakeOs {
    fn new(window_proc: isize) -> FakeOs {
        FakeOs {
            next: 0x10_0000,
            memory: HashMap::new(),
            exits: HashMap::new(),
            allocs: 0,
            frees: 0,
            spawns: 0,
            closes: 0,
            loads: 0,
            unloads: 0,
            opens: 0,
            process_closes: 0,
            loader_runs: 0,
            resident: false,
            exported: true,
            bridge: Bridge::new(),
            window_proc,
            fallible: 0,
            fail_at: None,
        }
    }

    fn handle(&mut self) -> u64 {
        self.next += 0x100;
        self.next
    }

    fn fails(&mut self) -> bool {
        let k = self.fallible;
        self.fallible += 1;
        self.fail_at == Some(k)
    }

    fn serve(&mut self, r: &Request) -> Answer {
        match r {
            Request::ChildOf { window } => {
                if self.fails() {
                    Answer::Os(Reply::Refused)
                } else {
                    Answer::Os(Reply::Granted(window + 1))
                }
            }
            Request::OpenOwner { .. } => {
                if self.fails() {
                    Answer::Os(Reply::Refused)
                } else {
                    self.opens += 1;
                    Answer::Os(Reply::Granted(self.handle()))
                }
            }
            Request::ListModules { .. } => {
                let mut list = vec![ModuleEntry { handle: 1, base_name: b"ntdll.dll".to_vec() }];
                list.push(ModuleEntry { handle: 2, base_name: Vec::new() });
                if self.resident {
                    list.push(ModuleEntry { handle: 3, base_name: b"sub_dll.dll".to_vec() });
                }
                Answer::Modules(list)
            }
            Request::Remote { action, .. } => Answer::Os(self.act(action)),
            Request::CloseProcess { .. } => {
                self.process_closes += 1;
                Answer::Os(Reply::Granted(0))
            }
            Request::Done(_) => panic!("a finished session asks nothing"),
        }
    }

    fn act(&mut self, a: &Action) -> Reply {
        match a {
            Action::AllocForeign { size, .. } => {
                if self.fails() {
                    return Reply::Refused;
                }
                self.allocs += 1;
                let b = self.handle();
                self.memory.insert(b, vec![0; *size]);
                Reply::Granted(b)
            }
            Action::WriteForeign { buffer, bytes } => {
                if self.fails() {
                    return Reply::Refused;
                }
                let m = self.memory.get_mut(buffer).expect("write to a live buffer");
                assert_eq!(m.len(), bytes.len());
                m.copy_from_slice(bytes);
                Reply::Granted(0)
            }
            Action::FreeForeign { buffer } => {
                assert!(self.memory.remove(buffer).is_some());
                self.frees += 1;
                Reply::Granted(0)
            }
            Action::ResolveLoaderEntry => {
                if self.fails() {
                    Reply::Refused
                } else {
                    Reply::Granted(LOADER)
                }
            }
            Action::LoadLocal { .. } => {
                if self.fails() {
                    return Reply::Refused;
                }
                self.loads += 1;
                Reply::Granted(self.handle())
            }
            Action::ResolveSymbol { symbol, .. } => {
                if self.fails() || !self.exported {
                    Reply::Refused
                } else if symbol == "set_subclass" {
                    Reply::Granted(SET_ENTRY)
                } else if symbol == "remove_subclass" {
                    Reply::Granted(REMOVE_ENTRY)
                } else {
                    Reply::Refused
                }
            }
            Action::UnloadLocal { .. } => {
                self.unloads += 1;
                Reply::Granted(0)
            }
            Action::SpawnRemote { start, param } => {
                if self.fails() {
                    return Reply::Refused;
                }
                self.spawns += 1;
                if let Some(p) = param {
                    assert!(self.memory.contains_key(p));
                }
                let code = if *start == LOADER {
                    self.loader_runs += 1;
                    self.resident = true;
                    0x7100_0000
                } else if *start == SET_ENTRY {
                    let current = self.window_proc;
                    if self.bridge.set_subclass(current) {
                        let previous = self.window_proc;
                        self.window_proc = BRIDGE_PROC;
                        status(previous)
                    } else {
                        INSTALL_FAILED
                    }
                } else if *start == REMOVE_ENTRY {
                    match self.bridge.remove_subclass() {
                        Some(p) => {
                            let previous = self.window_proc;
                            self.window_proc = p;
                            status(previous)
                        }
                        None => 0,
                    }
                } else {
                    panic!("unknown entry point")
                };
                let t = self.handle();
                self.exits.insert(t, code);
                Reply::Granted(t)
            }
            Action::JoinRemote { thread } => {
                if self.fails() {
                    Reply::Refused
                } else {
                    Reply::Exited(self.exits[thread])
                }
            }
            Action::CloseThread { thread } => {
                assert!(self.exits.remove(thread).is_some());
                self.closes += 1;
                Reply::Granted(0)
            }
            Action::Finished(_) => panic!("sessions never hand on a finish"),
        }
    }

    fn balanced(&self) -> bool {
        self.allocs == self.frees
            && self.spawns == self.closes
            && self.loads == self.unloads
            && self.memory.is_empty()
            && self.exits.is_empty()
    }
}

fn install(reg: &mut SubClassHwnd, os: &mut FakeOs, hwnd: usize) -> Result<(), BridgeError> {
    let (mut s, mut req) = reg.reject_dll(hwnd);
    loop {
        if let Request::Done(r) = req {
            return r;
        }
        let answer = os.serve(&req);
        req = s.step(reg, answer);
    }
}

fn remove(reg: &mut SubClassHwnd, os: &mut FakeOs, hwnd: usize) -> Result<(), BridgeError> {
    let (mut s, mut req) = reg.unhook_sub(hwnd);
    loop {
        if let Request::Done(r) = req {
            return r;
        }
        let answer = os.serve(&req);
        req = s.step(reg, answer);
    }
}

fn registry() -> SubClassHwnd {
    SubClassHwnd::new(DLL_PATH.as_bytes().to_vec())
}

#[test]
fn install_twice_loads_the_module_once() {
    let mut reg = registry();
    let mut os = FakeOs::new(0x7ff6_1234_5678);
    assert_eq!(install(&mut reg, &mut os, 0x40), Ok(()));
    assert_eq!(install(&mut reg, &mut os, 0x40), Ok(()));
    assert_eq!(os.loader_runs, 1);
    assert_eq!(os.opens, 1);
    assert!(reg.is_registered(0x40));
    assert!(os.balanced());
    assert_eq!(os.process_closes, 0);
}

#[test]
fn remove_of_unregistered_window_is_a_no_op() {
    let mut reg = registry();
    let mut os = FakeOs::new(0x1234);
    assert_eq!(remove(&mut reg, &mut os, 0x40), Ok(()));
    assert_eq!(os.fallible, 0);
    assert_eq!(os.spawns, 0);
    assert!(!reg.is_registered(0x40));
}

#[test]
fn install_then_remove_restores_the_window_procedure() {
    let original: isize = 0x7ff6_1234_5678;
    let mut reg = registry();
    let mut os = FakeOs::new(original);
    assert_eq!(install(&mut reg, &mut os, 0x40), Ok(()));
    assert_eq!(os.window_proc, BRIDGE_PROC);
    assert_eq!(remove(&mut reg, &mut os, 0x40), Ok(()));
    assert_eq!(os.window_proc, original);
    assert!(!reg.is_registered(0x40));
    assert_eq!(os.opens, os.process_closes);
    assert!(os.balanced());
}

#[test]
fn resident_module_is_not_loaded_again() {
    let mut reg = registry();
    let mut os = FakeOs::new(0x1000);
    os.resident = true;
    assert_eq!(install(&mut reg, &mut os, 0x40), Ok(()));
    assert_eq!(os.loader_runs, 0);
    assert_eq!(os.window_proc, BRIDGE_PROC);
}

#[test]
fn unreadable_window_procedure_fails_the_install() {
    let mut reg = registry();
    let mut os = FakeOs::new(0);
    assert_eq!(install(&mut reg, &mut os, 0x40), Err(BridgeError::Install));
    assert!(!reg.is_registered(0x40));
    assert_eq!(os.opens, os.process_closes);
    assert!(os.balanced());
}

#[test]
fn missing_entry_point_is_a_soft_failure() {
    let mut reg = registry();
    let mut os = FakeOs::new(0x1000);
    os.exported = false;
    assert_eq!(install(&mut reg, &mut os, 0x40), Ok(()));
    assert!(reg.is_registered(0x40));
    assert_eq!(os.window_proc, 0x1000);
    assert!(os.balanced());
}

#[test]
fn each_failure_point_gives_its_error() {
    let mut reg = registry();
    let mut os = FakeOs::new(0x1000);
    os.fail_at = Some(2);
    assert_eq!(install(&mut reg, &mut os, 0x40), Err(BridgeError::Window));
    let mut os = FakeOs::new(0x1000);
    os.fail_at = Some(4);
    assert_eq!(install(&mut reg, &mut os, 0x40), Err(BridgeError::Access));
    let mut os = FakeOs::new(0x1000);
    os.fail_at = Some(5);
    assert_eq!(install(&mut reg, &mut os, 0x40), Err(BridgeError::Loader));
    assert_eq!(os.opens, os.process_closes);
    let mut os = FakeOs::new(0x1000);
    os.resident = true;
    os.fail_at = Some(5);
    assert_eq!(install(&mut reg, &mut os, 0x40), Err(BridgeError::Invocation));
    assert_eq!(os.opens, os.process_closes);
    assert!(!reg.is_registered(0x40));
}

#[test]
fn every_failure_point_balances_foreign_resources() {
    for k in 0..20 {
        for resident in [false, true] {
            let mut reg = registry();
            let mut os = FakeOs::new(0x7ff6_0000_1000);
            os.resident = resident;
            os.fail_at = Some(k);
            let r = install(&mut reg, &mut os, 0x40);
            assert!(os.balanced(), "install failing at {}", k);
            assert_eq!(r.is_ok(), reg.is_registered(0x40));
            let held = if reg.is_registered(0x40) { 1 } else { 0 };
            assert_eq!(os.opens, os.process_closes + held);

            let mut os2 = FakeOs::new(0);
            os2.fail_at = Some(k);
            let was = reg.is_registered(0x40);
            let _ = remove(&mut reg, &mut os2, 0x40);
            assert!(os2.balanced(), "remove failing at {}", k);
            if was && !reg.is_registered(0x40) {
                assert_eq!(os2.process_closes, 1);
            }
        }
    }
}

#[test]
fn remove_closes_the_process_even_when_the_call_fails() {
    let mut reg = registry();
    let mut os = FakeOs::new(0x1000);
    assert_eq!(install(&mut reg, &mut os, 0x40), Ok(()));
    let mut os2 = FakeOs::new(0x1000);
    os2.fail_at = Some(4);
    assert_eq!(remove(&mut reg, &mut os2, 0x40), Err(BridgeError::Invocation));
    assert_eq!(os2.process_closes, 1);
    assert!(!reg.is_registered(0x40));
    assert!(os2.balanced());
}

#[test]
fn loader_asks_for_each_step_in_order() {
    let path = b"C:\\m.dll".to_vec();
    let mut m = RemoteLoad::hook_sub(&path);
    match m.step(Reply::Refused) {
        Action::AllocForeign { size, executable } => {
            assert_eq!(size, path.len() + 1);
            assert!(executable);
        }
        other => panic!("{:?}", other),
    }
    match m.step(Reply::Granted(0x500)) {
        Action::WriteForeign { buffer, bytes } => {
            assert_eq!(buffer, 0x500);
            assert_eq!(bytes, b"C:\\m.dll\0".to_vec());
        }
        other => panic!("{:?}", other),
    }
    assert!(matches!(m.step(Reply::Granted(0)), Action::ResolveLoaderEntry));
    assert!(matches!(m.step(Reply::Granted(LOADER)), Action::SpawnRemote { start: LOADER, param: Some(0x500) }));
    assert!(matches!(m.step(Reply::Granted(0x600)), Action::JoinRemote { thread: 0x600 }));
    assert!(matches!(m.step(Reply::Exited(77)), Action::FreeForeign { buffer: 0x500 }));
    assert!(matches!(m.step(Reply::Granted(0)), Action::CloseThread { thread: 0x600 }));
    assert!(matches!(m.step(Reply::Granted(0)), Action::Finished(Ok(77))));
}

#[test]
fn loader_that_cannot_create_a_thread_frees_its_buffer() {
    let mut m = RemoteLoad::hook_sub(&b"x.dll".to_vec());
    m.step(Reply::Refused);
    m.step(Reply::Granted(0x500));
    m.step(Reply::Granted(0));
    m.step(Reply::Granted(LOADER));
    assert!(matches!(m.step(Reply::Refused), Action::FreeForeign { buffer: 0x500 }));
    assert!(matches!(m.step(Reply::Granted(0)), Action::Finished(Err(BridgeError::Loader))));
}

#[test]
fn invoker_without_argument_spawns_without_parameter() {
    let mut m = RemoteCall::call_remote_function(b"m.dll".to_vec(), "f".to_string(), None);
    assert!(matches!(m.step(Reply::Refused), Action::LoadLocal { .. }));
    match m.step(Reply::Granted(0x900)) {
        Action::ResolveSymbol { library, symbol } => {
            assert_eq!(library, 0x900);
            assert_eq!(symbol, "f");
        }
        other => panic!("{:?}", other),
    }
    assert!(matches!(m.step(Reply::Granted(0x1000)), Action::SpawnRemote { start: 0x1000, param: None }));
    assert!(matches!(m.step(Reply::Granted(0x600)), Action::JoinRemote { thread: 0x600 }));
    assert!(matches!(m.step(Reply::Exited(3)), Action::CloseThread { thread: 0x600 }));
    assert!(matches!(m.step(Reply::Granted(0)), Action::UnloadLocal { library: 0x900 }));
    assert!(matches!(m.step(Reply::Granted(0)), Action::Finished(Ok(3))));
}

#[test]
fn invoker_with_missing_symbol_returns_zero() {
    let mut m = RemoteCall::call_remote_function(b"m.dll".to_vec(), "f".to_string(), Some(5));
    m.step(Reply::Refused);
    m.step(Reply::Granted(0x900));
    assert!(matches!(m.step(Reply::Refused), Action::UnloadLocal { library: 0x900 }));
    assert!(matches!(m.step(Reply::Granted(0)), Action::Finished(Ok(0))));
}

#[test]
fn invoker_that_cannot_load_locally_fails() {
    let mut m = RemoteCall::call_remote_function(b"m.dll".to_vec(), "f".to_string(), Some(5));
    m.step(Reply::Refused);
    assert!(matches!(m.step(Reply::Refused), Action::Finished(Err(BridgeError::Invocation))));
}

#[test]
fn argument_is_written_little_endian() {
    assert_eq!(arg_bytes(0x0102_0304_0506_0708), vec![8, 7, 6, 5, 4, 3, 2, 1]);
    assert_eq!(arg_bytes(0), vec![0; 8]);
}

#[test]
fn module_lookup_matches_the_first_named_entry() {
    let list = vec![
        ModuleEntry { handle: 1, base_name: Vec::new() },
        ModuleEntry { handle: 2, base_name: b"a.dll".to_vec() },
        ModuleEntry { handle: 3, base_name: b"sub_dll.dll".to_vec() },
        ModuleEntry { handle: 4, base_name: b"sub_dll.dll".to_vec() },
    ];
    assert_eq!(get_module_from_process(&list, &b"sub_dll.dll".to_vec()), Some(3));
    assert_eq!(get_module_from_process(&list, &b"b.dll".to_vec()), None);
    assert_eq!(get_module_from_process(&list, &Vec::new()), None);
}

#[test]
fn base_name_follows_the_last_separator() {
    assert_eq!(base_name(&DLL_PATH.as_bytes().to_vec()), b"sub_dll.dll".to_vec());
    assert_eq!(base_name(&b"a/b/c.dll".to_vec()), b"c.dll".to_vec());
    assert_eq!(base_name(&b"c.dll".to_vec()), b"c.dll".to_vec());
    assert_eq!(base_name(&b"dir\\".to_vec()), Vec::<u8>::new());
}
