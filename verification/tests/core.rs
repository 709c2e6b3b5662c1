use std::cell::RefCell;
use std::rc::Rc;

use reneko::ChatEvent;
use reneko::action::Action;
use reneko::engine::{apply_load_result, dispatch, process_event};
use reneko::extension::{LoadedExtension, Plugin};
use reneko::loader::{
    FactoryResult, LoadError, ModuleHost, entry_stage, load, loader_name, open_stage,
};
use reneko::registry::Registry;

struct FakePlugin {
    id: String,
    reply: Option<String>,
    log: Rc<RefCell<Vec<String>>>,
}

impl Plugin for FakePlugin {
    fn process_privmsg(&self, _source: &str, _target: &str, _message: &str) -> Option<String> {
        self.log.borrow_mut().push(self.id.clone());
        self.reply.clone()
    }
}

#[derive(Clone, Copy, PartialEq)]
enum HostMode {
    OpenFails,
    NoSymbol,
    Refuses,
    Ready,
}

struct FakeHost {
    mode: HostMode,
    log: Rc<RefCell<Vec<String>>>,
}

impl ModuleHost for FakeHost {
    type Handle = u32;
    type Inst = FakePlugin;

    fn open_module(&self, _path: &str) -> Option<u32> {
        if self.mode == HostMode::OpenFails { None } else { Some(7) }
    }

    fn resolve_entry(&self, _handle: &u32) -> bool {
        self.mode == HostMode::Refuses || self.mode == HostMode::Ready
    }

    fn invoke_entry(&self, _handle: &u32) -> FactoryResult<FakePlugin> {
        if self.mode == HostMode::Refuses {
            FactoryResult::Refused("bad config".to_string())
        } else {
            FactoryResult::Ready(FakePlugin {
                id: "loaded".to_string(),
                reply: Some("pong".to_string()),
                log: self.log.clone(),
            })
        }
    }
}

fn event(target: &str, message: &str) -> ChatEvent {
    ChatEvent::new("alice".to_string(), target.to_string(), message.to_string())
}

fn fake_entry(id: &str, reply: Option<&str>, log: &Rc<RefCell<Vec<String>>>) -> LoadedExtension<u32, FakePlugin> {
    LoadedExtension {
        instance: FakePlugin {
            id: id.to_string(),
            reply: reply.map(|r| r.to_string()),
            log: log.clone(),
        },
        handle: 0,
    }
}

#[test]
fn dispatch_invokes_in_registration_order() {
    let log = Rc::new(RefCell::new(Vec::new()));
    let mut reg: Registry<u32, FakePlugin> = Registry::new();
    reg.add(fake_entry("A", Some("A"), &log));
    reg.add(fake_entry("B", Some("B"), &log));
    reg.add(fake_entry("C", Some("C"), &log));
    let rs = dispatch(&reg, &event("#chan", "hi"));
    assert_eq!(*log.borrow(), vec!["A".to_string(), "B".to_string(), "C".to_string()]);
    assert_eq!(rs, vec![Some("A".to_string()), Some("B".to_string()), Some("C".to_string())]);
}

#[test]
fn load_missing_symbol_is_reported_and_registry_unchanged() {
    let log = Rc::new(RefCell::new(Vec::new()));
    let host = FakeHost { mode: HostMode::NoSymbol, log: log.clone() };
    let r = load(&host, "mod.so");
    assert!(matches!(r, Err(LoadError::SymbolNotFound)));
    let mut reg: Registry<u32, FakePlugin> = Registry::new();
    let out = process_event(&host, &mut reg, "!", &event("#chan", "!load mod.so"));
    assert_eq!(reg.len(), 0);
    assert!(out.replies.is_empty());
    match &out.admin[..] {
        [Action::SendMessage { target, text }] => {
            assert_eq!(target, "#chan");
            assert_eq!(text, "Failed to load plugin: entry symbol not found");
        }
        other => panic!("unexpected admin actions: {}", other.len()),
    }
}

#[test]
fn load_refused_factory_keeps_reason_and_registry_unchanged() {
    let log = Rc::new(RefCell::new(Vec::new()));
    let host = FakeHost { mode: HostMode::Refuses, log: log.clone() };
    match load(&host, "mod.so") {
        Err(LoadError::Initialization(reason)) => assert_eq!(reason, "bad config"),
        _ => panic!("expected an initialization error"),
    }
    let mut reg: Registry<u32, FakePlugin> = Registry::new();
    let out = process_event(&host, &mut reg, "!", &event("#chan", "!load mod.so"));
    assert_eq!(reg.len(), 0);
    match &out.admin[..] {
        [Action::SendMessage { target, text }] => {
            assert_eq!(target, "#chan");
            assert_eq!(text, "Failed to load plugin: bad config");
        }
        other => panic!("unexpected admin actions: {}", other.len()),
    }
}

#[test]
fn load_open_failure_is_reported_and_registry_unchanged() {
    let log = Rc::new(RefCell::new(Vec::new()));
    let host = FakeHost { mode: HostMode::OpenFails, log: log.clone() };
    assert!(matches!(load(&host, "gone.so"), Err(LoadError::LibraryOpen)));
    let mut reg: Registry<u32, FakePlugin> = Registry::new();
    let out = process_event(&host, &mut reg, "!", &event("#chan", "!load gone.so"));
    assert_eq!(reg.len(), 0);
    match &out.admin[..] {
        [Action::SendMessage { target, text }] => {
            assert_eq!(target, "#chan");
            assert_eq!(text, "Failed to load plugin: could not open module");
        }
        other => panic!("unexpected admin actions: {}", other.len()),
    }
}

#[test]
fn successful_load_adds_one_entry_and_handler_runs_once_afterwards() {
    let log = Rc::new(RefCell::new(Vec::new()));
    let host = FakeHost { mode: HostMode::Ready, log: log.clone() };
    let mut reg: Registry<u32, FakePlugin> = Registry::new();
    let out = process_event(&host, &mut reg, "!", &event("#chan", "!load mod.so"));
    assert_eq!(reg.len(), 1);
    assert!(out.admin.is_empty());
    assert!(out.replies.is_empty());
    assert!(log.borrow().is_empty());
    let out = process_event(&host, &mut reg, "!", &event("#chan", "hello"));
    assert_eq!(*log.borrow(), vec!["loaded".to_string()]);
    match &out.replies[..] {
        [Action::SendMessage { target, text }] => {
            assert_eq!(target, "#chan");
            assert_eq!(text, "pong");
        }
        other => panic!("unexpected reply actions: {}", other.len()),
    }
}

#[test]
fn replies_are_relayed_to_the_event_target_and_silence_sends_nothing() {
    let log = Rc::new(RefCell::new(Vec::new()));
    let host = FakeHost { mode: HostMode::Ready, log: log.clone() };
    let mut reg: Registry<u32, FakePlugin> = Registry::new();
    reg.add(fake_entry("quiet", None, &log));
    reg.add(fake_entry("ponger", Some("pong"), &log));
    let out = process_event(&host, &mut reg, "!", &event("#chan", "ping"));
    match &out.replies[..] {
        [Action::SendMessage { target, text }] => {
            assert_eq!(target, "#chan");
            assert_eq!(text, "pong");
        }
        other => panic!("unexpected reply actions: {}", other.len()),
    }
    assert_eq!(*log.borrow(), vec!["quiet".to_string(), "ponger".to_string()]);
}

#[test]
fn dispatch_and_admin_both_run_for_the_same_event() {
    let log = Rc::new(RefCell::new(Vec::new()));
    let host = FakeHost { mode: HostMode::Ready, log: log.clone() };
    let mut reg: Registry<u32, FakePlugin> = Registry::new();
    reg.add(fake_entry("A", Some("seen"), &log));
    let out = process_event(&host, &mut reg, "!", &event("#chan", "!join #other"));
    assert_eq!(*log.borrow(), vec!["A".to_string()]);
    match &out.replies[..] {
        [Action::SendMessage { target, text }] => {
            assert_eq!(target, "#chan");
            assert_eq!(text, "seen");
        }
        other => panic!("unexpected reply actions: {}", other.len()),
    }
    match &out.admin[..] {
        [Action::SendJoin { channel }] => assert_eq!(channel, "#other"),
        other => panic!("unexpected admin actions: {}", other.len()),
    }
}

#[test]
fn registry_keeps_insertion_order() {
    let log = Rc::new(RefCell::new(Vec::new()));
    let mut reg: Registry<u32, FakePlugin> = Registry::new();
    assert_eq!(reg.len(), 0);
    reg.add(fake_entry("first", None, &log));
    reg.add(fake_entry("second", None, &log));
    assert_eq!(reg.len(), 2);
    assert_eq!(reg.get(0).instance.id, "first");
    assert_eq!(reg.get(1).instance.id, "second");
}

#[test]
fn no_operation_ever_removes_a_registry_entry() {
    let log = Rc::new(RefCell::new(Vec::new()));
    let host = FakeHost { mode: HostMode::Ready, log: log.clone() };
    let mut reg: Registry<u32, FakePlugin> = Registry::new();
    reg.add(fake_entry("first", None, &log));
    let mut len_before = reg.len();
    let messages = [
        "!load one.so",
        "plain conversation",
        "!quit   ",
        "!load two.so",
        "!bogus",
        "!say #chan hi",
    ];
    for message in messages {
        process_event(&host, &mut reg, "!", &event("#chan", message));
        assert!(reg.len() >= len_before);
        len_before = reg.len();
    }
    assert_eq!(reg.len(), 3);
    assert_eq!(reg.entries().len(), 3);
    assert_eq!(reg.get(0).instance.id, "first");
    assert_eq!(reg.entries()[1].instance.id, "loaded");
}

#[test]
fn stage_decisions_map_each_failure_distinctly() {
    assert!(matches!(open_stage::<u32>(None), Err(LoadError::LibraryOpen)));
    assert!(matches!(open_stage(Some(5u32)), Ok(5)));
    assert!(matches!(entry_stage(5u32, false), Err(LoadError::SymbolNotFound)));
    assert!(matches!(entry_stage(5u32, true), Ok(5)));
}

#[test]
fn applying_a_load_result_appends_on_success_and_reports_on_failure() {
    let log = Rc::new(RefCell::new(Vec::new()));
    let mut reg: Registry<u32, FakePlugin> = Registry::new();
    let act = apply_load_result(&mut reg, "#chan", Ok(fake_entry("new", None, &log)));
    assert!(act.is_none());
    assert_eq!(reg.len(), 1);
    assert_eq!(reg.get(0).instance.id, "new");
    let act = apply_load_result(&mut reg, "#chan", Err(LoadError::SymbolNotFound));
    assert_eq!(reg.len(), 1);
    match act {
        Some(Action::SendMessage { target, text }) => {
            assert_eq!(target, "#chan");
            assert_eq!(text, "Failed to load plugin: entry symbol not found");
        }
        _ => panic!("expected a load failure report"),
    }
}

#[test]
fn entry_symbol_name_is_fixed() {
    assert_eq!(loader_name(), "init_plugin");
}

#[test]
fn load_error_descriptions_are_exact() {
    assert_eq!(
        LoadError::LibraryOpen.describe(),
        "Failed to load plugin: could not open module"
    );
    assert_eq!(
        LoadError::SymbolNotFound.describe(),
        "Failed to load plugin: entry symbol not found"
    );
    assert_eq!(
        LoadError::Initialization("no database".to_string()).describe(),
        "Failed to load plugin: no database"
    );
}
