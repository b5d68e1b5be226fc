use std::collections::HashMap;

use lovely::intercept::{intercept, Interception};
use lovely::loader::{has_nul, load_module, LoadError, LoadPhase, ModuleLoad};
use lovely::sink::{override_print, PrintPhase, PrintSink};
use lovely::vm::{LuaCall, LuaReply, GLOBALS_INDEX, MULTRET};

#[derive(Clone, Debug, PartialEq)]
enum Value {
    Nil,
    Str(Vec<u8>),
    Num(i64),
    Table,
    Package,
    Loaded,
    Chunk(String),
}

/// A stand-in VM: it compiles `return <n>` and `<var> = <n>` and nothing else.
struct TestVm {
    stack: Vec<Value>,
    loaded: HashMap<String, Value>,
    globals: HashMap<String, i64>,
    log: Vec<String>,
    calls: Vec<LuaCall>,
}

impl TestVm {
    fn new(stack: Vec<Value>) -> TestVm {
        TestVm { stack, loaded: HashMap::new(), globals: HashMap::new(), log: vec![], calls: vec![] }
    }

    fn slot(&self, index: isize) -> usize {
        if index > 0 {
            (index - 1) as usize
        } else {
            (self.stack.len() as isize + index) as usize
        }
    }

    fn call(&mut self, call: &LuaCall) -> LuaReply {
        self.calls.push(call.clone());
        match call {
            LuaCall::GetTop => LuaReply::Top(self.stack.len() as isize),
            LuaCall::GetField { index, key } => {
                let v = if *index == GLOBALS_INDEX {
                    assert_eq!(key, "package");
                    Value::Package
                } else {
                    assert_eq!(self.stack[self.slot(*index)], Value::Package);
                    assert_eq!(key, "loaded");
                    Value::Loaded
                };
                self.stack.push(v);
                LuaReply::Done
            }
            LuaCall::SetField { index, key } => {
                assert_eq!(self.stack[self.slot(*index)], Value::Loaded);
                let v = self.stack.pop().unwrap();
                self.loaded.insert(key.clone(), v);
                LuaReply::Done
            }
            LuaCall::SetTop { index } => {
                let n = if *index >= 0 { *index } else { self.stack.len() as isize + index + 1 };
                self.stack.resize(n as usize, Value::Nil);
                LuaReply::Done
            }
            LuaCall::LoadBuffer { source, .. } => {
                let ok = source.starts_with("return ") || source.contains(" = ");
                if ok {
                    self.stack.push(Value::Chunk(source.clone()));
                    LuaReply::Status(0)
                } else {
                    self.stack.push(Value::Str(b"syntax error".to_vec()));
                    LuaReply::Status(3)
                }
            }
            LuaCall::PCall { nargs, nresults, errfunc } => {
                assert_eq!((*nargs, *nresults, *errfunc), (0, MULTRET, 0));
                match self.stack.pop().unwrap() {
                    Value::Chunk(src) => {
                        if let Some(n) = src.strip_prefix("return ") {
                            self.stack.push(Value::Num(n.trim().parse().unwrap()));
                        } else {
                            let (var, n) = src.split_once(" = ").unwrap();
                            self.globals.insert(var.to_string(), n.trim().parse().unwrap());
                        }
                        LuaReply::Status(0)
                    }
                    _ => {
                        self.stack.push(Value::Str(b"attempt to call a string value".to_vec()));
                        LuaReply::Status(2)
                    }
                }
            }
            LuaCall::ToLString { index } => {
                let v = if self.stack.is_empty() { Value::Nil } else { self.stack[self.slot(*index)].clone() };
                LuaReply::Text(match v {
                    Value::Str(b) => Some(b),
                    Value::Num(n) => Some(n.to_string().into_bytes()),
                    _ => None,
                })
            }
            LuaCall::Log { line } => {
                self.log.push(line.clone());
                LuaReply::Done
            }
            LuaCall::Finish { .. } => LuaReply::Done,
        }
    }

    fn run_load(&mut self, mut load: ModuleLoad) -> isize {
        let mut reply = LuaReply::Started;
        loop {
            let call = load.step(&reply);
            if let LuaCall::Finish { value } = call {
                assert_eq!(load.phase(), LoadPhase::Finished);
                self.calls.push(call);
                return value;
            }
            reply = self.call(&call);
        }
    }

    fn run_print(&mut self, mut sink: PrintSink) -> isize {
        let mut reply = LuaReply::Started;
        loop {
            let call = sink.step(&reply);
            if let LuaCall::Finish { value } = call {
                assert_eq!(sink.phase(), PrintPhase::Finished);
                return value;
            }
            reply = self.call(&call);
        }
    }
}

fn s(text: &str) -> Value {
    Value::Str(text.as_bytes().to_vec())
}

#[test]
fn load_registers_module_and_restores_stack() {
    let mut vm = TestVm::new(vec![s("caller"), Value::Num(7)]);
    let status = vm.run_load(load_module("main", "return 1").unwrap());
    assert_eq!(status, 0);
    assert_eq!(vm.stack, vec![s("caller"), Value::Num(7)]);
    assert_eq!(vm.loaded.get("main"), Some(&Value::Num(1)));
}

#[test]
fn load_compiles_under_at_prefixed_chunk_name() {
    let mut vm = TestVm::new(vec![]);
    vm.run_load(load_module("game", "return 5").unwrap());
    assert!(vm.calls.contains(&LuaCall::LoadBuffer {
        source: "return 5".to_string(),
        chunk_name: "@game".to_string(),
    }));
    assert!(vm.calls.contains(&LuaCall::SetField { index: 2, key: "game".to_string() }));
    assert_eq!(vm.calls.last(), Some(&LuaCall::Finish { value: 0 }));
}

#[test]
fn load_twice_keeps_the_last_value() {
    let mut vm = TestVm::new(vec![s("x")]);
    vm.run_load(load_module("m", "return 1").unwrap());
    vm.run_load(load_module("m", "return 2").unwrap());
    assert_eq!(vm.loaded.get("m"), Some(&Value::Num(2)));
    assert_eq!(vm.stack, vec![s("x")]);
}

#[test]
fn load_failure_stores_error_and_returns_status() {
    let mut vm = TestVm::new(vec![Value::Num(3)]);
    let status = vm.run_load(load_module("bad", "this is not lua").unwrap());
    assert_eq!(status, 2);
    assert_eq!(vm.loaded.get("bad"), Some(&s("attempt to call a string value")));
    assert_eq!(vm.stack, vec![Value::Num(3)]);
}

#[test]
fn load_rejects_nul_in_name() {
    assert_eq!(load_module("a\0b", "return 1").err(), Some(LoadError::NulInName));
}

#[test]
fn load_rejects_nul_in_source() {
    assert_eq!(load_module("ab", "return\0 1").err(), Some(LoadError::NulInSource));
}

#[test]
fn has_nul_finds_zero_bytes() {
    assert!(has_nul(b"ab\0"));
    assert!(!has_nul(b"abc"));
    assert!(!has_nul(b""));
}

#[test]
fn intercept_forwards_when_not_rewritten() {
    assert!(matches!(intercept("main", None), Ok(Interception::Forward)));
}

#[test]
fn intercept_loads_rewritten_source() {
    let load = match intercept("mod", Some("x = 2")) {
        Ok(Interception::Load(l)) => l,
        _ => panic!("expected a load"),
    };
    let mut vm = TestVm::new(vec![]);
    let status = vm.run_load(load);
    assert_eq!(status, 0);
    assert_eq!(vm.globals.get("x"), Some(&2));
    assert!(vm.calls.contains(&LuaCall::LoadBuffer {
        source: "x = 2".to_string(),
        chunk_name: "@mod".to_string(),
    }));
    assert!(vm.loaded.contains_key("mod"));
    assert!(vm.stack.is_empty());
}

#[test]
fn intercept_rejects_nul_in_rewrite() {
    assert_eq!(intercept("mod", Some("x\0")).err(), Some(LoadError::NulInSource));
}

#[test]
fn print_joins_arguments_in_order() {
    let mut vm = TestVm::new(vec![s("a"), s("b"), s("c")]);
    let results = vm.run_print(override_print());
    assert_eq!(results, 0);
    assert!(vm.stack.is_empty());
    assert_eq!(vm.log, vec!["[G] a\t[G] b\t[G] c".to_string()]);
}

#[test]
fn print_uses_nil_for_non_strings() {
    let mut vm = TestVm::new(vec![s("x"), Value::Table, Value::Num(42)]);
    vm.run_print(override_print());
    assert!(vm.stack.is_empty());
    assert_eq!(vm.log, vec!["[G] x\t[G] nil\t[G] 42".to_string()]);
}

#[test]
fn print_single_argument_has_no_tab() {
    let mut vm = TestVm::new(vec![s("hello world")]);
    vm.run_print(override_print());
    assert_eq!(vm.log, vec!["[G] hello world".to_string()]);
}

#[test]
fn print_without_arguments_logs_empty_line() {
    let mut vm = TestVm::new(vec![]);
    assert_eq!(vm.run_print(override_print()), 0);
    assert_eq!(vm.log, vec![String::new()]);
}

#[test]
fn print_replaces_invalid_utf8() {
    let mut vm = TestVm::new(vec![Value::Str(vec![b'o', 0xff, b'k'])]);
    vm.run_print(override_print());
    assert_eq!(vm.log, vec!["[G] o\u{FFFD}k".to_string()]);
}

#[test]
fn print_consumes_exactly_its_arguments() {
    let mut vm = TestVm::new(vec![Value::Nil, s("p"), s("q")]);
    vm.run_print(override_print());
    assert_eq!(vm.stack.len(), 0);
    assert_eq!(vm.log, vec!["[G] nil\t[G] p\t[G] q".to_string()]);
}
