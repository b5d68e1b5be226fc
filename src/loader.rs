//! Installing a module compiled from source text into `package.loaded`,
//! leaving the caller's stack as it found it.
use vstd::prelude::*;
use vstd::string::*;
use crate::vm::{
    CallModel, Outcome, Val, VmModel, admissible, apply, GLOBALS_INDEX, LuaCall, LuaReply, MULTRET, ReplyModel, loaded_key, package_key,
};

verus! {

/// Why a module cannot be handed to the VM.
#[derive(PartialEq, Eq, Structural, Clone, Copy, Debug)]
pub enum LoadError {
    /// The module name holds a NUL byte, which a C string cannot carry.
    NulInName,
    /// The source holds a NUL byte.
    NulInSource,
}

/// The call that the loader made last, whose reply it is waiting for.
#[derive(PartialEq, Eq, Structural, Clone, Copy, Debug)]
pub enum LoadPhase {
    Begin,
    AskedTop,
    AskedPackage,
    AskedLoaded,
    AskedTable,
    AskedCompile,
    AskedRun,
    AskedStore,
    AskedRestore,
    Finished,
}

/// One run of the module loader.
pub struct ModuleLoad {
    name: String,
    source: String,
    chunk_name: String,
    phase: LoadPhase,
    saved_top: isize,
    table_index: isize,
    status: isize,
}

pub struct LoadModel {
    pub name: Seq<char>,
    pub source: Seq<char>,
    pub phase: LoadPhase,
    pub saved_top: int,
    pub table_index: int,
    pub status: int,
}

impl View for ModuleLoad {
    type V = LoadModel;

    closed spec fn view(&self) -> LoadModel {
        LoadModel {
            name: self.name@,
            source: self.source@,
            phase: self.phase,
            saved_top: self.saved_top as int,
            table_index: self.table_index as int,
            status: self.status as int,
        }
    }
}

/// The name under which a module's chunk is compiled: `@` and the module name,
/// so that error messages show the name as a file name.
pub open spec fn chunk_name_of(name: Seq<char>) -> Seq<char> {
    seq!['@'] + name
}

/// The reply that the loader expects in each phase.
pub open spec fn expects(phase: LoadPhase, r: ReplyModel) -> bool {
    match phase {
        LoadPhase::Begin => true,
        LoadPhase::AskedTop => r is Top,
        LoadPhase::AskedTable => r is Top,
        LoadPhase::AskedCompile => r is Status,
        LoadPhase::AskedRun => r is Status,
        LoadPhase::Finished => false,
        _ => r is Done,
    }
}

/// The loader's next state and call, given the reply to its previous call.
pub open spec fn next(l: LoadModel, r: ReplyModel) -> (LoadModel, CallModel) {
    match l.phase {
        LoadPhase::Begin => (LoadModel { phase: LoadPhase::AskedTop, ..l }, CallModel::GetTop),
        LoadPhase::AskedTop => (
            LoadModel { phase: LoadPhase::AskedPackage, saved_top: r->Top_0, ..l },
            CallModel::GetField { index: GLOBALS_INDEX as int, key: package_key() },
        ),
        LoadPhase::AskedPackage => (
            LoadModel { phase: LoadPhase::AskedLoaded, ..l },
            CallModel::GetField { index: -1, key: loaded_key() },
        ),
        LoadPhase::AskedLoaded => (LoadModel { phase: LoadPhase::AskedTable, ..l }, CallModel::GetTop),
        LoadPhase::AskedTable => (
            LoadModel { phase: LoadPhase::AskedCompile, table_index: r->Top_0, ..l },
            CallModel::LoadBuffer { source: l.source, chunk_name: chunk_name_of(l.name) },
        ),
        LoadPhase::AskedCompile => (
            LoadModel { phase: LoadPhase::AskedRun, ..l },
            CallModel::PCall { nargs: 0, nresults: MULTRET as int, errfunc: 0 },
        ),
        LoadPhase::AskedRun => (
            LoadModel { phase: LoadPhase::AskedStore, status: r->Status_0, ..l },
            CallModel::SetField { index: l.table_index, key: l.name },
        ),
        LoadPhase::AskedStore => (
            LoadModel { phase: LoadPhase::AskedRestore, ..l },
            CallModel::SetTop { index: l.saved_top },
        ),
        _ => (LoadModel { phase: LoadPhase::Finished, ..l }, CallModel::Finish { value: l.status }),
    }
}

/// True when `b` holds a NUL byte.
pub fn has_nul(b: &[u8]) -> (r: bool)
    ensures
        r == b@.contains(0u8),
{
    let mut i: usize = 0;
    while i < b.len()
        invariant
            0 <= i <= b@.len(),
            forall|j: int| 0 <= j < i ==> b@[j] != 0u8,
        decreases b@.len() - i,
    {
        if b[i] == 0u8 {
            assert(b@[i as int] == 0u8);
            return true;
        }
        i = i + 1;
    }
    false
}

/// Starts loading `source` as the module `name`.
///
/// Driven to its end by `ModuleLoad::step`, the loader compiles `source` as the
/// chunk `@name`, runs it with a protected call keeping every result, stores the
/// value on top of the stack afterwards in `package.loaded[name]` (the error
/// value too, when the run failed), restores the stack depth it started from and
/// finishes with the protected call's status.
pub fn load_module(name: &str, source: &str) -> (r: Result<ModuleLoad, LoadError>)
    ensures
        name.spec_bytes().contains(0u8) ==> r == Err::<ModuleLoad, LoadError>(LoadError::NulInName),
        !name.spec_bytes().contains(0u8) && source.spec_bytes().contains(0u8) ==> r == Err::<
            ModuleLoad,
            LoadError,
        >(LoadError::NulInSource),
        !name.spec_bytes().contains(0u8) && !source.spec_bytes().contains(0u8) ==> r is Ok
            && r->Ok_0@ == start_load(name@, source@) && r->Ok_0.wf(),
{
    if has_nul(name.as_bytes()) {
        return Err(LoadError::NulInName);
    }
    if has_nul(source.as_bytes()) {
        return Err(LoadError::NulInSource);
    }
    let mut chunk_name = String::from_str("@");
    chunk_name.append(name);
    proof {
        reveal_strlit("@");
        assert(chunk_name@ =~= chunk_name_of(name@));
    }
    Ok(
        ModuleLoad {
            name: name.to_owned(),
            source: source.to_owned(),
            chunk_name,
            phase: LoadPhase::Begin,
            saved_top: 0,
            table_index: 0,
            status: 0,
        },
    )
}

impl ModuleLoad {
    pub closed spec fn wf(&self) -> bool {
        self.chunk_name@ == chunk_name_of(self.name@)
    }

    /// The phase the loader is in.
    pub fn phase(&self) -> (r: LoadPhase)
        ensures
            r == self@.phase,
    {
        self.phase
    }

    /// Takes the reply to the previous call and returns the next call to make.
    pub fn step(&mut self, reply: &LuaReply) -> (call: LuaCall)
        requires
            old(self).wf(),
            expects(old(self)@.phase, reply@),
        ensures
            final(self).wf(),
            (final(self)@, call@) == next(old(self)@, reply@),
    {
        match self.phase {
            LoadPhase::Begin => {
                self.phase = LoadPhase::AskedTop;
                LuaCall::GetTop
            },
            LoadPhase::AskedTop => {
                if let LuaReply::Top(t) = reply {
                    self.saved_top = *t;
                }
                self.phase = LoadPhase::AskedPackage;
                let key = String::from_str("package");
                proof {
                    reveal_strlit("package");
                    assert(key@ =~= package_key());
                }
                LuaCall::GetField { index: GLOBALS_INDEX, key }
            },
            LoadPhase::AskedPackage => {
                self.phase = LoadPhase::AskedLoaded;
                let key = String::from_str("loaded");
                proof {
                    reveal_strlit("loaded");
                    assert(key@ =~= loaded_key());
                }
                LuaCall::GetField { index: -1, key }
            },
            LoadPhase::AskedLoaded => {
                self.phase = LoadPhase::AskedTable;
                LuaCall::GetTop
            },
            LoadPhase::AskedTable => {
                if let LuaReply::Top(f) = reply {
                    self.table_index = *f;
                }
                self.phase = LoadPhase::AskedCompile;
                LuaCall::LoadBuffer { source: self.source.clone(), chunk_name: self.chunk_name.clone() }
            },
            LoadPhase::AskedCompile => {
                self.phase = LoadPhase::AskedRun;
                LuaCall::PCall { nargs: 0, nresults: MULTRET, errfunc: 0 }
            },
            LoadPhase::AskedRun => {
                if let LuaReply::Status(s) = reply {
                    self.status = *s;
                }
                self.phase = LoadPhase::AskedStore;
                LuaCall::SetField { index: self.table_index, key: self.name.clone() }
            },
            LoadPhase::AskedStore => {
                self.phase = LoadPhase::AskedRestore;
                LuaCall::SetTop { index: self.saved_top }
            },
            _ => {
                self.phase = LoadPhase::Finished;
                LuaCall::Finish { value: self.status }
            },
        }
    }
}

/// The loader run against the model VM, starting from phase `l` with reply
/// `r` pending, for at most `fuel` calls. The chunk loader decides `compile`,
/// the protected call decides `run`. `None` when a call breaks the C API's
/// preconditions or the fuel runs out.
pub open spec fn drive_load(
    l: LoadModel,
    m: VmModel,
    r: ReplyModel,
    compile: Outcome,
    run: Outcome,
    fuel: nat,
) -> Option<(LoadModel, VmModel)>
    decreases fuel,
{
    if l.phase == LoadPhase::Finished {
        Some((l, m))
    } else if fuel == 0 {
        None
    } else {
        let (l2, call) = next(l, r);
        let out = if call is LoadBuffer { compile } else { run };
        match apply(m, call, out) {
            Some((m2, r2)) => drive_load(l2, m2, r2, compile, run, (fuel - 1) as nat),
            None => None,
        }
    }
}

/// A fresh loader for `name` and `source`, as `load_module` returns it.
pub open spec fn start_load(name: Seq<char>, source: Seq<char>) -> LoadModel {
    LoadModel { name, source, phase: LoadPhase::Begin, saved_top: 0, table_index: 0, status: 0 }
}

/// The value that a load leaves in `package.loaded[name]`: the last value the
/// chunk returned, its error when it failed, and the `package.loaded` table
/// itself when it returned nothing.
pub open spec fn stored_value(run: Outcome) -> Val {
    if run.results.len() > 0 {
        run.results.last()
    } else {
        Val::Loaded
    }
}

/// The model VM after loading `source` as `name`.
pub open spec fn loaded_after(
    name: Seq<char>,
    source: Seq<char>,
    m: VmModel,
    compile: Outcome,
    run: Outcome,
) -> Option<(LoadModel, VmModel)> {
    drive_load(start_load(name, source), m, ReplyModel::Started, compile, run, 10)
}

/// Loading a module, whatever the compiler and the chunk do, leaves the stack
/// exactly as it was, binds the name in `package.loaded` to what the chunk left
/// on top (its error value when it failed) and changes no other binding, and
/// finishes with the protected call's status.
pub proof fn lemma_load_module(
    name: Seq<char>,
    source: Seq<char>,
    m: VmModel,
    compile: Outcome,
    run: Outcome,
)
    requires
        admissible(run),
    ensures
        loaded_after(name, source, m, compile, run) is Some,
        ({
            let (l, m2) = loaded_after(name, source, m, compile, run)->Some_0;
            &&& l.phase == LoadPhase::Finished
            &&& l.status == run.status
            &&& m2.stack == m.stack
            &&& m2.loaded == m.loaded.insert(name, stored_value(run))
            &&& m2.log == m.log
            &&& run.status != 0 ==> m2.loaded[name] == run.results[0]
        }),
{
    reveal_with_fuel(drive_load, 11);
    let n = m.stack.len();
    let s1 = m.stack.push(Val::Package).push(Val::Loaded).push(compile.value);
    let s2 = m.stack.push(Val::Package).push(Val::Loaded) + run.results;
    assert(s1.drop_last() + run.results =~= s2);
    let s3 = s2.drop_last();
    assert(s3.subrange(0, n as int) =~= m.stack);
}

/// Loading the same name twice keeps only the second result.
pub proof fn lemma_load_twice(
    name: Seq<char>,
    source: Seq<char>,
    source2: Seq<char>,
    m: VmModel,
    compile: Outcome,
    run: Outcome,
    compile2: Outcome,
    run2: Outcome,
)
    requires
        admissible(run),
        admissible(run2),
    ensures
        ({
            let m1 = loaded_after(name, source, m, compile, run)->Some_0.1;
            let m2 = loaded_after(name, source2, m1, compile2, run2)->Some_0.1;
            &&& m2.loaded[name] == stored_value(run2)
            &&& m2.stack == m.stack
        }),
{
    lemma_load_module(name, source, m, compile, run);
    let m1 = loaded_after(name, source, m, compile, run)->Some_0.1;
    lemma_load_module(name, source2, m1, compile2, run2);
}

} // verus!
