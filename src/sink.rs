//! The replacement for Lua's `print`: it drains its arguments from the stack
//! and hands them to the host's log as one tab-separated line.
use vstd::prelude::*;
use vstd::string::*;
use vstd::utf8::{decode_utf8, valid_utf8};
use crate::vm::{CallModel, Outcome, LuaCall, LuaReply, ReplyModel, Val, VmModel, apply, string_of};

verus! {

/// What `String::from_utf8_lossy` makes of a byte sequence.
pub uninterp spec fn lossy_utf8(b: Seq<u8>) -> Seq<char>;

/// Relies on `String::from_utf8_lossy`: bytes that are valid UTF-8 decode as
/// such, any other sequence decodes with replacement characters.
#[verifier::external_body]
fn decode_lossy(b: &[u8]) -> (r: String)
    ensures
        r@ == lossy_utf8(b@),
        valid_utf8(b@) ==> r@ == decode_utf8(b@),
{
    String::from_utf8_lossy(b).into_owned()
}

/// The tag in front of each argument in the line.
pub open spec fn marker() -> Seq<char> {
    seq!['[', 'G', ']', ' ']
}

/// What stands for an argument that is not a string.
pub open spec fn nil_text() -> Seq<char> {
    seq!['n', 'i', 'l']
}

pub open spec fn tab() -> Seq<char> {
    seq!['\t']
}

/// The text of one argument, given what `lua_tolstring` gave for it.
pub open spec fn segment(text: Option<Seq<u8>>) -> Seq<char> {
    match text {
        Some(b) => marker() + lossy_utf8(b),
        None => marker() + nil_text(),
    }
}

/// The line for `args`, left to right, separated by tabs.
pub open spec fn line_of(args: Seq<Val>) -> Seq<char>
    decreases args.len(),
{
    if args.len() == 0 {
        Seq::empty()
    } else if args.len() == 1 {
        segment(string_of(args[0]))
    } else {
        segment(string_of(args[0])) + tab() + line_of(args.drop_first())
    }
}

/// The call that the sink made last, whose reply it is waiting for.
#[derive(PartialEq, Eq, Structural, Clone, Copy, Debug)]
pub enum PrintPhase {
    Begin,
    AskedCount,
    AskedText,
    AskedPop,
    AskedLog,
    Finished,
}

/// One call of the print sink.
pub struct PrintSink {
    phase: PrintPhase,
    argc: isize,
    remaining: isize,
    line: String,
}

pub struct PrintModel {
    pub phase: PrintPhase,
    pub argc: int,
    pub remaining: int,
    pub line: Seq<char>,
}

impl View for PrintSink {
    type V = PrintModel;

    closed spec fn view(&self) -> PrintModel {
        PrintModel {
            phase: self.phase,
            argc: self.argc as int,
            remaining: self.remaining as int,
            line: self.line@,
        }
    }
}

/// The reply that the sink expects in each phase.
pub open spec fn print_expects(phase: PrintPhase, r: ReplyModel) -> bool {
    match phase {
        PrintPhase::Begin => true,
        PrintPhase::AskedCount => r is Top,
        PrintPhase::AskedText => r is Text,
        PrintPhase::Finished => false,
        _ => r is Done,
    }
}

/// With `p.remaining` arguments left: read the top one, or log the line.
pub open spec fn drain(p: PrintModel) -> (PrintModel, CallModel) {
    if p.remaining > 0 {
        (PrintModel { phase: PrintPhase::AskedText, ..p }, CallModel::ToLString { index: -1 })
    } else {
        (PrintModel { phase: PrintPhase::AskedLog, ..p }, CallModel::Log { line: p.line })
    }
}

/// The sink's next state and call, given the reply to its previous call.
///
/// Arguments are read from the top of the stack, the last one first, and each
/// is popped once read; each new segment goes in front of the line.
pub open spec fn print_next(p: PrintModel, r: ReplyModel) -> (PrintModel, CallModel) {
    match p.phase {
        PrintPhase::Begin => (PrintModel { phase: PrintPhase::AskedCount, ..p }, CallModel::GetTop),
        PrintPhase::AskedCount => {
            let n = if r->Top_0 > 0 { r->Top_0 } else { 0 };
            drain(PrintModel { argc: n, remaining: n, ..p })
        },
        PrintPhase::AskedText => {
            let seg = segment(r->Text_0);
            let line = if p.remaining == p.argc { seg } else { seg + tab() + p.line };
            (
                PrintModel { phase: PrintPhase::AskedPop, remaining: p.remaining - 1, line, ..p },
                CallModel::SetTop { index: -2 },
            )
        },
        PrintPhase::AskedPop => drain(p),
        _ => (PrintModel { phase: PrintPhase::Finished, ..p }, CallModel::Finish { value: 0 }),
    }
}

/// Starts one call of the print sink on the VM whose arguments are on the stack.
///
/// Driven to its end by `PrintSink::step`, the sink pops every argument, logs one
/// line that holds, for each argument from left to right, `[G] ` and its text
/// (`nil` for a value that is not a string), separated by tabs, and returns no
/// results to the VM.
pub fn override_print() -> (r: PrintSink)
    ensures
        r@ == (PrintModel { phase: PrintPhase::Begin, argc: 0, remaining: 0, line: Seq::empty() }),
{
    PrintSink { phase: PrintPhase::Begin, argc: 0, remaining: 0, line: String::new() }
}

impl PrintSink {
    pub closed spec fn wf(&self) -> bool {
        &&& 0 <= self.remaining <= self.argc
        &&& self.phase == PrintPhase::AskedText ==> self.remaining > 0
    }

    /// The phase the sink is in.
    pub fn phase(&self) -> (r: PrintPhase)
        ensures
            r == self@.phase,
    {
        self.phase
    }

    fn drain(&mut self) -> (call: LuaCall)
        requires
            old(self).wf(),
        ensures
            final(self).wf(),
            (final(self)@, call@) == drain(old(self)@),
    {
        if self.remaining > 0 {
            self.phase = PrintPhase::AskedText;
            LuaCall::ToLString { index: -1 }
        } else {
            self.phase = PrintPhase::AskedLog;
            LuaCall::Log { line: self.line.clone() }
        }
    }

    /// Takes the reply to the previous call and returns the next call to make.
    pub fn step(&mut self, reply: &LuaReply) -> (call: LuaCall)
        requires
            old(self).wf(),
            print_expects(old(self)@.phase, reply@),
        ensures
            final(self).wf(),
            (final(self)@, call@) == print_next(old(self)@, reply@),
    {
        match self.phase {
            PrintPhase::Begin => {
                self.phase = PrintPhase::AskedCount;
                LuaCall::GetTop
            },
            PrintPhase::AskedCount => {
                let n: isize = match reply {
                    LuaReply::Top(t) => if *t > 0 { *t } else { 0 },
                    _ => 0,
                };
                self.argc = n;
                self.remaining = n;
                self.drain()
            },
            PrintPhase::AskedText => {
                let mut seg = String::from_str("[G] ");
                proof {
                    reveal_strlit("[G] ");
                }
                match reply {
                    LuaReply::Text(Some(b)) => {
                        let text = decode_lossy(b.as_slice());
                        seg.append(text.as_str());
                    },
                    _ => {
                        seg.append("nil");
                        proof {
                            reveal_strlit("nil");
                        }
                    },
                }
                assert(seg@ =~= segment(reply@->Text_0));
                if self.remaining == self.argc {
                    self.line = seg;
                } else {
                    let mut joined = seg;
                    joined.append("\t");
                    joined.append(self.line.as_str());
                    proof {
                        reveal_strlit("\t");
                        assert(joined@ =~= segment(reply@->Text_0) + tab() + old(self)@.line);
                    }
                    self.line = joined;
                }
                self.remaining = self.remaining - 1;
                self.phase = PrintPhase::AskedPop;
                LuaCall::SetTop { index: -2 }
            },
            PrintPhase::AskedPop => self.drain(),
            _ => {
                self.phase = PrintPhase::Finished;
                LuaCall::Finish { value: 0 }
            },
        }
    }
}

/// The sink run against the model VM, starting from phase `p` with reply `r`
/// pending, for at most `fuel` calls; `None` when a call breaks the C API's
/// preconditions or the fuel runs out.
pub open spec fn drive_print(p: PrintModel, m: VmModel, r: ReplyModel, fuel: nat) -> Option<
    (PrintModel, VmModel),
>
    decreases fuel,
{
    if p.phase == PrintPhase::Finished {
        Some((p, m))
    } else if fuel == 0 {
        None
    } else {
        let (p2, call) = print_next(p, r);
        match apply(m, call, arbitrary::<Outcome>()) {
            Some((m2, r2)) => drive_print(p2, m2, r2, (fuel - 1) as nat),
            None => None,
        }
    }
}

/// A fresh sink, as `override_print` returns it.
pub open spec fn start_print() -> PrintModel {
    PrintModel { phase: PrintPhase::Begin, argc: 0, remaining: 0, line: Seq::empty() }
}

/// The model VM after one call of the sink.
pub open spec fn printed_after(m: VmModel) -> Option<(PrintModel, VmModel)> {
    drive_print(start_print(), m, ReplyModel::Started, 2 * m.stack.len() + 3)
}

proof fn lemma_line_step(args: Seq<Val>, k: int)
    requires
        0 < k < args.len(),
    ensures
        line_of(args.subrange(k - 1, args.len() as int)) == segment(string_of(args[k - 1])) + tab()
            + line_of(args.subrange(k, args.len() as int)),
{
    let s = args.subrange(k - 1, args.len() as int);
    assert(s.drop_first() =~= args.subrange(k, args.len() as int));
}

/// Draining the `k` arguments that are left, after `args[k..]` went into the line.
proof fn lemma_drain(p: PrintModel, m: VmModel, args: Seq<Val>, k: int)
    requires
        0 <= k <= args.len(),
        p.phase == PrintPhase::AskedPop,
        p.argc == args.len(),
        p.remaining == k,
        m.stack == args.subrange(0, k),
        k < args.len() ==> p.line == line_of(args.subrange(k, args.len() as int)),
        k == args.len() ==> p.line == Seq::<char>::empty(),
    ensures
        drive_print(p, m, ReplyModel::Done, (2 * k + 2) as nat) is Some,
        ({
            let (p2, m2) = drive_print(p, m, ReplyModel::Done, (2 * k + 2) as nat)->Some_0;
            &&& p2.phase == PrintPhase::Finished
            &&& m2.stack.len() == 0
            &&& m2.loaded == m.loaded
            &&& m2.log == m.log.push(line_of(args))
        }),
    decreases k,
{
    reveal_with_fuel(drive_print, 4);
    let n = args.len() as int;
    if k == 0 {
        assert(args.subrange(0, n) =~= args);
    } else {
        let (p1, c1) = print_next(p, ReplyModel::Done);
        let (m1, r1) = apply(m, c1, arbitrary::<Outcome>())->Some_0;
        assert(m.stack[m.stack.len() - 1] == args[k - 1]);
        let (p2, c2) = print_next(p1, r1);
        let (m2, r2) = apply(m1, c2, arbitrary::<Outcome>())->Some_0;
        assert(m2.stack =~= args.subrange(0, k - 1));
        if k < n {
            lemma_line_step(args, k);
        } else {
            assert(args.subrange(k - 1, n).len() == 1);
            assert(args.subrange(k - 1, n)[0] == args[k - 1]);
        }
        lemma_drain(p2, m2, args, k - 1);
        assert(drive_print(p, m, ReplyModel::Done, (2 * k + 2) as nat) == drive_print(
            p2,
            m2,
            r2,
            (2 * (k - 1) + 2) as nat,
        ));
    }
}

/// One call of the sink on a stack that holds exactly its arguments pops all of
/// them, logs one line made of each argument's tagged text in order, separated
/// by tabs (`nil` for an argument that is not a string), and changes nothing else.
pub proof fn lemma_print_drains(m: VmModel)
    ensures
        printed_after(m) is Some,
        ({
            let (p, m2) = printed_after(m)->Some_0;
            &&& p.phase == PrintPhase::Finished
            &&& m2.stack.len() == 0
            &&& m2.loaded == m.loaded
            &&& m2.log == m.log.push(line_of(m.stack))
        }),
{
    let args = m.stack;
    let n = args.len() as int;
    let p0 = start_print();
    let (p1, c1) = print_next(p0, ReplyModel::Started);
    let (m1, r1) = apply(m, c1, arbitrary::<Outcome>())->Some_0;
    let q = PrintModel { phase: PrintPhase::AskedPop, argc: n, remaining: n, line: Seq::empty() };
    assert(args.subrange(0, n) =~= args);
    lemma_drain(q, m, args, n);
    reveal_with_fuel(drive_print, 2);
    assert(print_next(p1, r1) == print_next(q, ReplyModel::Done));
    assert(drive_print(p0, m, ReplyModel::Started, (2 * n + 3) as nat) == drive_print(
        p1,
        m1,
        r1,
        (2 * n + 2) as nat,
    ));
    assert(drive_print(p1, m1, r1, (2 * n + 2) as nat) == drive_print(
        q,
        m,
        ReplyModel::Done,
        (2 * n + 2) as nat,
    ));
}

} // verus!
