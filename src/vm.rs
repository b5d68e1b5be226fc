//! The calls that the machines ask the host to make on a Lua VM, the replies
//! the host hands back, and a model of what each call does to the VM.
use vstd::prelude::*;

verus! {

/// Pseudo-index of the table of globals.
pub const GLOBALS_INDEX: isize = -10002;

/// `nresults` value asking a protected call to keep every result.
pub const MULTRET: isize = -1;

/// One call into the Lua C API, to be made by the host on the VM handle it holds.
#[derive(Clone, Debug, PartialEq, Eq)]
pub enum LuaCall {
    /// `lua_gettop`: reply `Top` with the stack depth.
    GetTop,
    /// `lua_getfield`: push `t[key]` where `t` is the table at `index`.
    GetField { index: isize, key: String },
    /// `lua_setfield`: `t[key] = top`, where `t` is the table at `index`; pops the top.
    SetField { index: isize, key: String },
    /// `lua_settop`: truncate or pad the stack to `index`.
    SetTop { index: isize },
    /// The original chunk loader: compile `source` under `chunk_name`, push the
    /// function or an error value; reply `Status`.
    LoadBuffer { source: String, chunk_name: String },
    /// `lua_pcall`; reply `Status`.
    PCall { nargs: isize, nresults: isize, errfunc: isize },
    /// `lua_tolstring`; reply `Text` with the bytes, or `None` when the value
    /// cannot be turned into a string.
    ToLString { index: isize },
    /// Hand one line to the host's log.
    Log { line: String },
    /// Return to the VM with `value` (a result count or a status).
    Finish { value: isize },
}

/// What the host saw when it made the previous call.
#[derive(Clone, Debug, PartialEq, Eq)]
pub enum LuaReply {
    /// Nothing has been called yet.
    Started,
    /// The call returned nothing of interest.
    Done,
    /// Reply to `GetTop`.
    Top(isize),
    /// Reply to `LoadBuffer` and `PCall`.
    Status(isize),
    /// Reply to `ToLString`.
    Text(Option<Vec<u8>>),
}

/// A call, with its strings as character sequences.
pub enum CallModel {
    GetTop,
    GetField { index: int, key: Seq<char> },
    SetField { index: int, key: Seq<char> },
    SetTop { index: int },
    LoadBuffer { source: Seq<char>, chunk_name: Seq<char> },
    PCall { nargs: int, nresults: int, errfunc: int },
    ToLString { index: int },
    Log { line: Seq<char> },
    Finish { value: int },
}

/// A reply, with its bytes as a sequence.
pub enum ReplyModel {
    Started,
    Done,
    Top(int),
    Status(int),
    Text(Option<Seq<u8>>),
}

impl View for LuaCall {
    type V = CallModel;

    open spec fn view(&self) -> CallModel {
        match self {
            LuaCall::GetTop => CallModel::GetTop,
            LuaCall::GetField { index, key } => CallModel::GetField { index: *index as int, key: key@ },
            LuaCall::SetField { index, key } => CallModel::SetField { index: *index as int, key: key@ },
            LuaCall::SetTop { index } => CallModel::SetTop { index: *index as int },
            LuaCall::LoadBuffer { source, chunk_name } => CallModel::LoadBuffer {
                source: source@,
                chunk_name: chunk_name@,
            },
            LuaCall::PCall { nargs, nresults, errfunc } => CallModel::PCall {
                nargs: *nargs as int,
                nresults: *nresults as int,
                errfunc: *errfunc as int,
            },
            LuaCall::ToLString { index } => CallModel::ToLString { index: *index as int },
            LuaCall::Log { line } => CallModel::Log { line: line@ },
            LuaCall::Finish { value } => CallModel::Finish { value: *value as int },
        }
    }
}

impl View for LuaReply {
    type V = ReplyModel;

    open spec fn view(&self) -> ReplyModel {
        match self {
            LuaReply::Started => ReplyModel::Started,
            LuaReply::Done => ReplyModel::Done,
            LuaReply::Top(t) => ReplyModel::Top(*t as int),
            LuaReply::Status(s) => ReplyModel::Status(*s as int),
            LuaReply::Text(None) => ReplyModel::Text(None),
            LuaReply::Text(Some(b)) => ReplyModel::Text(Some(b@)),
        }
    }
}

/// A value in a VM slot, as far as the machines can tell values apart.
pub enum Val {
    Nil,
    /// A string, or a number, which Lua turns into a string on demand.
    Str(Seq<u8>),
    /// The `package` table.
    Package,
    /// The `package.loaded` table.
    Loaded,
    /// Any other value (a table, a compiled chunk, a boolean, ...).
    Other(int),
}

/// The bytes that `lua_tolstring` gives for a value, if any.
pub open spec fn string_of(v: Val) -> Option<Seq<u8>> {
    match v {
        Val::Str(b) => Some(b),
        _ => None,
    }
}

/// The state of a VM that the machines can observe.
pub struct VmModel {
    /// The current frame's stack; index 1 is its first element.
    pub stack: Seq<Val>,
    /// `package.loaded`.
    pub loaded: Map<Seq<char>, Val>,
    /// The lines handed to the host's log.
    pub log: Seq<Seq<char>>,
}

/// What the VM decides on its own when a chunk is compiled or run.
pub struct Outcome {
    /// The value that the loader pushes: the compiled chunk, or an error.
    pub value: Val,
    /// The status that the loader or the protected call returns.
    pub status: int,
    /// The values that a protected call leaves.
    pub results: Seq<Val>,
}

/// A protected call that fails leaves exactly one value, its error.
pub open spec fn admissible(out: Outcome) -> bool {
    out.status != 0 ==> out.results.len() == 1
}

/// The 0-based stack position that a valid acceptable index names.
pub open spec fn slot(m: VmModel, index: int) -> int {
    if index > 0 {
        index - 1
    } else {
        m.stack.len() + index
    }
}

/// `index` names an existing stack slot (not a pseudo-index).
pub open spec fn valid_index(m: VmModel, index: int) -> bool {
    0 <= slot(m, index) < m.stack.len() && index != 0 && index > -(m.stack.len() + 1)
}

/// The value at an acceptable index; one past the top reads as nil.
pub open spec fn value_at(m: VmModel, index: int) -> Val {
    if valid_index(m, index) {
        m.stack[slot(m, index)]
    } else {
        Val::Nil
    }
}

/// What `GetField` pushes, when the model knows it.
pub open spec fn field_of(m: VmModel, index: int, key: Seq<char>) -> Option<Val> {
    if index == GLOBALS_INDEX as int {
        if key == package_key() { Some(Val::Package) } else { None }
    } else if valid_index(m, index) && value_at(m, index) == Val::Package {
        if key == loaded_key() { Some(Val::Loaded) } else { None }
    } else if valid_index(m, index) && value_at(m, index) == Val::Loaded {
        Some(if m.loaded.contains_key(key) { m.loaded[key] } else { Val::Nil })
    } else {
        None
    }
}

pub open spec fn package_key() -> Seq<char> {
    seq!['p', 'a', 'c', 'k', 'a', 'g', 'e']
}

pub open spec fn loaded_key() -> Seq<char> {
    seq!['l', 'o', 'a', 'd', 'e', 'd']
}

/// The stack after `lua_settop(index)`, if `index` is in range.
pub open spec fn set_top(stack: Seq<Val>, index: int) -> Option<Seq<Val>> {
    let n = if index >= 0 { index } else { stack.len() + index + 1 };
    if n < 0 {
        None
    } else if n <= stack.len() {
        Some(stack.subrange(0, n))
    } else {
        Some(stack + Seq::new((n - stack.len()) as nat, |i: int| Val::Nil))
    }
}

/// What one call does to the VM and what it replies, given what the VM decides
/// on its own; `None` where the call breaks the C API's preconditions.
pub open spec fn apply(m: VmModel, call: CallModel, out: Outcome) -> Option<(VmModel, ReplyModel)> {
    match call {
        CallModel::GetTop => Some((m, ReplyModel::Top(m.stack.len() as int))),
        CallModel::GetField { index, key } => match field_of(m, index, key) {
            Some(v) => Some((VmModel { stack: m.stack.push(v), ..m }, ReplyModel::Done)),
            None => None,
        },
        CallModel::SetField { index, key } => if m.stack.len() > 0 && valid_index(m, index)
            && value_at(m, index) == Val::Loaded {
            Some((
                VmModel {
                    stack: m.stack.drop_last(),
                    loaded: m.loaded.insert(key, m.stack.last()),
                    ..m
                },
                ReplyModel::Done,
            ))
        } else {
            None
        },
        CallModel::SetTop { index } => match set_top(m.stack, index) {
            Some(s) => Some((VmModel { stack: s, ..m }, ReplyModel::Done)),
            None => None,
        },
        CallModel::LoadBuffer { source, chunk_name } => Some((
            VmModel { stack: m.stack.push(out.value), ..m },
            ReplyModel::Status(out.status),
        )),
        CallModel::PCall { nargs, nresults, errfunc } => if nargs == 0 && nresults == MULTRET as int
            && errfunc == 0 && m.stack.len() > 0 && admissible(out) {
            Some((
                VmModel { stack: m.stack.drop_last() + out.results, ..m },
                ReplyModel::Status(out.status),
            ))
        } else {
            None
        },
        CallModel::ToLString { index } => Some((m, ReplyModel::Text(string_of(value_at(m, index))))),
        CallModel::Log { line } => Some((VmModel { log: m.log.push(line), ..m }, ReplyModel::Done)),
        CallModel::Finish { value } => Some((m, ReplyModel::Done)),
    }
}

} // verus!
