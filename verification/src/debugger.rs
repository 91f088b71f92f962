//! The debugger's command language and the decisions of its read-eval loop.
//! Reading the command line, stepping the cpu, disassembling and printing
//! are left to the caller, which acts on what these functions return.

use std::collections::HashSet;
use vstd::prelude::*;

use crate::words::{
    all_space_from, hex_u32, lemma_next_word_ignores_trailing_space, next_word, parse_hex, same_text,
    Words,
};

verus! {

broadcast use vstd::std_specs::hash::group_hash_axioms;

/// A debugger command, as read from one input line.
pub enum Cmd {
    Break { bkpt: u32 },
    ClearBkpt { bkpt: u32 },
    Disassemble { start: u32, end: u32 },
    Empty,
    Error { msg: &'static str },
    Info,
    List,
    Quit,
    Run,
    Step,
    Trace,
    Untrace,
    Unknown,
    View { start: u32, end: u32 },
    ViewStack,
}

/// The word of `s` that starts and ends where `r` says.
pub open spec fn word_of(s: Seq<char>, r: (int, int)) -> Seq<char> {
    s.subrange(r.0, r.1)
}

/// The command that a breakpoint address after `pos` makes: a breakpoint to
/// set when `set` holds, else one to clear.
pub open spec fn spec_bkpt_cmd(s: Seq<char>, pos: int, set: bool) -> Cmd {
    match next_word(s, pos) {
        Some(r) => match hex_u32(word_of(s, r)) {
            Some(x) => if set {
                Cmd::Break { bkpt: x }
            } else {
                Cmd::ClearBkpt { bkpt: x }
            },
            None => Cmd::Error { msg: "couldn't parse address" },
        },
        None => Cmd::Error { msg: "no bkpt address" },
    }
}

/// Reads the second address of a range after `pos`, the first being `first`;
/// `view` tells a memory view from a disassembly.
pub open spec fn spec_second_address(s: Seq<char>, pos: int, first: u32, view: bool) -> Cmd {
    match next_word(s, pos) {
        Some(r) => match hex_u32(word_of(s, r)) {
            Some(x) => if view {
                Cmd::View { start: first, end: x }
            } else {
                Cmd::Disassemble { start: first, end: x }
            },
            None => Cmd::Error { msg: "couldn't parse second address" },
        },
        None => Cmd::Error { msg: "no second address given" },
    }
}

/// The arguments of `d`: two hexadecimal addresses.
pub open spec fn spec_disassemble_cmd(s: Seq<char>, pos: int) -> Cmd {
    match next_word(s, pos) {
        Some(r) => match hex_u32(word_of(s, r)) {
            Some(x) => spec_second_address(s, r.1, x, false),
            None => Cmd::Error { msg: "couldn't parse first address" },
        },
        None => Cmd::Error { msg: "no addresses given" },
    }
}

/// The arguments of `v`: the word `stack`, or two hexadecimal addresses.
pub open spec fn spec_view_cmd(s: Seq<char>, pos: int) -> Cmd {
    match next_word(s, pos) {
        Some(r) => if word_of(s, r) == "stack"@ {
            Cmd::ViewStack
        } else {
            match hex_u32(word_of(s, r)) {
                Some(x) => spec_second_address(s, r.1, x, true),
                None => Cmd::Error { msg: "couldn't parse first address" },
            }
        },
        None => Cmd::Error { msg: "no addresses given" },
    }
}

/// The command that the line `s` holds: its first word names it, and the
/// words after it are its arguments.
pub open spec fn spec_cmd(s: Seq<char>) -> Cmd {
    match next_word(s, 0) {
        None => Cmd::Empty,
        Some(r) => {
            let w = word_of(s, r);
            if w == "b"@ {
                spec_bkpt_cmd(s, r.1, true)
            } else if w == "clear"@ {
                spec_bkpt_cmd(s, r.1, false)
            } else if w == "d"@ {
                spec_disassemble_cmd(s, r.1)
            } else if w == "i"@ {
                Cmd::Info
            } else if w == "l"@ {
                Cmd::List
            } else if w == "q"@ {
                Cmd::Quit
            } else if w == "r"@ {
                Cmd::Run
            } else if w == "s"@ {
                Cmd::Step
            } else if w == "t"@ {
                Cmd::Trace
            } else if w == "u"@ {
                Cmd::Untrace
            } else if w == "v"@ {
                spec_view_cmd(s, r.1)
            } else {
                Cmd::Unknown
            }
        },
    }
}

/// The arguments of `b`: one hexadecimal address.
pub fn parse_break(mut iter: Words) -> (cmd: Cmd)
    requires
        iter.wf(),
    ensures
        cmd == spec_bkpt_cmd(iter.text(), iter.pos(), true),
{
    match iter.next() {
        Some(x) => match parse_hex(x) {
            Some(x) => Cmd::Break { bkpt: x },
            None => Cmd::Error { msg: "couldn't parse address" },
        },
        None => Cmd::Error { msg: "no bkpt address" },
    }
}

/// The arguments of `clear`: one hexadecimal address.
pub fn parse_break_clear(mut iter: Words) -> (cmd: Cmd)
    requires
        iter.wf(),
    ensures
        cmd == spec_bkpt_cmd(iter.text(), iter.pos(), false),
{
    match iter.next() {
        Some(x) => match parse_hex(x) {
            Some(x) => Cmd::ClearBkpt { bkpt: x },
            None => Cmd::Error { msg: "couldn't parse address" },
        },
        None => Cmd::Error { msg: "no bkpt address" },
    }
}

/// Reads the second address of a range.
fn parse_second_address(mut iter: Words, first: u32, view: bool) -> (cmd: Cmd)
    requires
        iter.wf(),
    ensures
        cmd == spec_second_address(iter.text(), iter.pos(), first, view),
{
    let second = match iter.next() {
        Some(x) => match parse_hex(x) {
            Some(x) => x,
            None => return Cmd::Error { msg: "couldn't parse second address" },
        },
        None => return Cmd::Error { msg: "no second address given" },
    };
    if view {
        Cmd::View { start: first, end: second }
    } else {
        Cmd::Disassemble { start: first, end: second }
    }
}

/// The arguments of `d`: two hexadecimal addresses.
pub fn parse_disassemble(mut iter: Words) -> (cmd: Cmd)
    requires
        iter.wf(),
    ensures
        cmd == spec_disassemble_cmd(iter.text(), iter.pos()),
{
    let first = match iter.next() {
        Some(x) => match parse_hex(x) {
            Some(x) => x,
            None => return Cmd::Error { msg: "couldn't parse first address" },
        },
        None => return Cmd::Error { msg: "no addresses given" },
    };
    parse_second_address(iter, first, false)
}

/// The arguments of `v`: `stack`, or two hexadecimal addresses.
pub fn parse_view(mut iter: Words) -> (cmd: Cmd)
    requires
        iter.wf(),
    ensures
        cmd == spec_view_cmd(iter.text(), iter.pos()),
{
    let what = match iter.next() {
        Some(x) => x,
        None => return Cmd::Error { msg: "no addresses given" },
    };
    if same_text(what, "stack") {
        return Cmd::ViewStack;
    }
    let first = match parse_hex(what) {
        Some(x) => x,
        None => return Cmd::Error { msg: "couldn't parse first address" },
    };
    parse_second_address(iter, first, true)
}

/// The command on the line `input`.
pub fn parse_cmd(input: &str) -> (cmd: Cmd)
    ensures
        cmd == spec_cmd(input@),
{
    let mut iter = Words::new(input);
    match iter.next() {
        None => Cmd::Empty,
        Some(w) => {
            if same_text(w, "b") {
                parse_break(iter)
            } else if same_text(w, "clear") {
                parse_break_clear(iter)
            } else if same_text(w, "d") {
                parse_disassemble(iter)
            } else if same_text(w, "i") {
                Cmd::Info
            } else if same_text(w, "l") {
                Cmd::List
            } else if same_text(w, "q") {
                Cmd::Quit
            } else if same_text(w, "r") {
                Cmd::Run
            } else if same_text(w, "s") {
                Cmd::Step
            } else if same_text(w, "t") {
                Cmd::Trace
            } else if same_text(w, "u") {
                Cmd::Untrace
            } else if same_text(w, "v") {
                parse_view(iter)
            } else {
                Cmd::Unknown
            }
        },
    }
}

/// What the caller is to do after a command was taken in.
pub enum Action {
    /// Nothing but the prompt again.
    Nothing,
    /// Disassemble from `start` to `end`, marking the instruction at `pc`.
    Disassemble { start: u32, end: u32, pc: u32 },
    /// Show the cpu's registers.
    ShowCpu,
    /// Leave the debugger and the program.
    Quit,
    /// Tell that the command is not known.
    Unknown,
    /// Show the stack: the long words from `from` up to `to`.
    ShowStack { from: u32, to: u32 },
    /// Report a command that could not be read.
    Error { msg: &'static str },
}

/// The state of a debugging session besides the breakpoints: whether the
/// cpu runs freely, is to take one step, is traced, and where the stack
/// started.
pub struct Session {
    pub run: bool,
    pub step: bool,
    pub trace: bool,
    pub stack_start: u32,
}

impl Session {
    /// A session whose stack starts at `stack_start`, running freely if `run`.
    pub fn new(run: bool, stack_start: u32) -> (s: Session)
        ensures
            s == (Session { run: run, step: false, trace: false, stack_start: stack_start }),
    {
        Session { run: run, step: false, trace: false, stack_start: stack_start }
    }

    /// Whether the cpu is to execute an instruction now, rather than the
    /// user being asked for a command.
    pub fn executing(&self) -> (b: bool)
        ensures
            b == (self.run || self.step),
    {
        self.run || self.step
    }

    /// What the session does next with the cpu at `pc`.
    pub open spec fn spec_next(&self, pc: u32) -> Tick {
        if self.run || self.step {
            Tick::Execute { disassemble: if self.trace {
                Some(pc)
            } else {
                None
            } }
        } else {
            Tick::Prompt { pc }
        }
    }

    /// What the session does next with the cpu at `pc`: execute one
    /// instruction, showing it first when traced, or show the instruction
    /// at `pc` and ask for a command.
    pub fn next(&self, pc: u32) -> (t: Tick)
        ensures
            t == self.spec_next(pc),
    {
        if self.run || self.step {
            if self.trace {
                Tick::Execute { disassemble: Some(pc) }
            } else {
                Tick::Execute { disassemble: None }
            }
        } else {
            Tick::Prompt { pc }
        }
    }
}

/// The next thing a session does.
pub enum Tick {
    /// Execute one instruction, disassembling the one at the given address
    /// first if there is one.
    Execute { disassemble: Option<u32> },
    /// Disassemble the instruction at `pc` and read a command.
    Prompt { pc: u32 },
}

/// The cpu executes only while the session runs or steps, and then the
/// instruction is disassembled first, at the pc it executes from, exactly
/// when tracing. Otherwise, tracing or not, the user is prompted at `pc`.
pub proof fn lemma_traced_steps_are_shown(s: Session, pc: u32)
    ensures
        (s.run || s.step) && s.trace ==> s.spec_next(pc) == (Tick::Execute { disassemble: Some(pc) }),
        (s.run || s.step) && !s.trace ==> s.spec_next(pc) == (Tick::Execute { disassemble: None }),
        !s.run && !s.step ==> s.spec_next(pc) == (Tick::Prompt { pc }),
{
}


/// A debugger: the set of breakpoints that stop a free run.
pub struct Debugger {
    bkpts: HashSet<u32>,
}

impl Debugger {
    /// The addresses of the breakpoints.
    pub closed spec fn breakpoints(&self) -> Set<u32> {
        self.bkpts@
    }

    /// A debugger without breakpoints.
    pub fn new() -> (d: Debugger)
        ensures
            d.breakpoints() == Set::<u32>::empty(),
    {
        Debugger { bkpts: HashSet::new() }
    }

    /// Whether there is a breakpoint at `addr`.
    pub fn has_bkpt(&self, addr: u32) -> (b: bool)
        ensures
            b == self.breakpoints().contains(addr),
    {
        self.bkpts.contains(&addr)
    }

    /// Sets a breakpoint at `bkpt`.
    pub fn insert_bkpt(&mut self, bkpt: u32)
        ensures
            final(self).breakpoints() == old(self).breakpoints().insert(bkpt),
    {
        self.bkpts.insert(bkpt);
    }

    /// Clears the breakpoint at `bkpt`, if there is one.
    pub fn clear_bkpt(&mut self, bkpt: u32)
        ensures
            final(self).breakpoints() == old(self).breakpoints().remove(bkpt),
    {
        self.bkpts.remove(&bkpt);
    }

    /// After the cpu executed an instruction and reached `pc`: a single step
    /// is over, and a free run stops on a breakpoint.
    pub fn stepped(&self, session: &mut Session, pc: u32)
        ensures
            final(session).step == false,
            final(session).run == (old(session).run && !self.breakpoints().contains(pc)),
            final(session).trace == old(session).trace,
            final(session).stack_start == old(session).stack_start,
    {
        if self.bkpts.contains(&pc) {
            session.run = false;
        }
        session.step = false;
    }

    /// Takes in `cmd` while the cpu stands at `pc` with stack pointer `sp`,
    /// and says what the caller is to do.
    pub fn command(&mut self, session: &mut Session, cmd: Cmd, pc: u32, sp: u32) -> (act: Action)
        requires
            cmd is List ==> 10 <= pc && pc <= u32::MAX - 20,
        ensures
            final(self).breakpoints() == match cmd {
                Cmd::Break { bkpt } => old(self).breakpoints().insert(bkpt),
                Cmd::ClearBkpt { bkpt } => old(self).breakpoints().remove(bkpt),
                _ => old(self).breakpoints(),
            },
            final(session).run == (old(session).run || cmd is Run),
            final(session).step == (old(session).step || cmd is Step),
            final(session).trace == if cmd is Trace {
                true
            } else if cmd is Untrace {
                false
            } else {
                old(session).trace
            },
            final(session).stack_start == old(session).stack_start,
            act == match cmd {
                Cmd::Disassemble { start, end } => Action::Disassemble { start, end, pc },
                Cmd::View { start, end } => Action::Disassemble { start, end, pc },
                Cmd::List => Action::Disassemble { start: (pc - 10) as u32, end: (pc + 20) as u32, pc },
                Cmd::Info => Action::ShowCpu,
                Cmd::Quit => Action::Quit,
                Cmd::Unknown => Action::Unknown,
                Cmd::ViewStack => Action::ShowStack { from: sp, to: old(session).stack_start },
                Cmd::Error { msg } => Action::Error { msg },
                _ => Action::Nothing,
            },
    {
        match cmd {
            Cmd::Break { bkpt } => {
                self.insert_bkpt(bkpt);
                Action::Nothing
            },
            Cmd::ClearBkpt { bkpt } => {
                self.clear_bkpt(bkpt);
                Action::Nothing
            },
            Cmd::Disassemble { start, end } => Action::Disassemble { start, end, pc },
            Cmd::Empty => Action::Nothing,
            Cmd::Info => Action::ShowCpu,
            Cmd::List => Action::Disassemble { start: pc - 10, end: pc + 20, pc },
            Cmd::Quit => Action::Quit,
            Cmd::Run => {
                session.run = true;
                Action::Nothing
            },
            Cmd::Step => {
                session.step = true;
                Action::Nothing
            },
            Cmd::Trace => {
                session.trace = true;
                Action::Nothing
            },
            Cmd::Untrace => {
                session.trace = false;
                Action::Nothing
            },
            Cmd::Unknown => Action::Unknown,
            Cmd::ViewStack => Action::ShowStack { from: sp, to: session.stack_start },
            Cmd::View { start, end } => Action::Disassemble { start, end, pc },
            Cmd::Error { msg } => Action::Error { msg },
        }
    }
}

/// The addresses from `start` up to, not including, `end` that are
/// multiples of 4, in increasing order.
pub open spec fn long_addresses(start: int, end: int) -> Seq<u32>
    decreases end - start,
{
    if end <= start {
        Seq::empty()
    } else if (end - 1) % 4 == 0 {
        long_addresses(start, end - 1).push((end - 1) as u32)
    } else {
        long_addresses(start, end - 1)
    }
}

/// The long-word aligned addresses whose contents a memory dump from
/// `start` to `end` shows.
pub fn dump_addresses(start: u32, end: u32) -> (v: Vec<u32>)
    ensures
        v@ == long_addresses(start as int, end as int),
{
    let mut v: Vec<u32> = Vec::new();
    let mut i = start;
    while i < end
        invariant
            start <= i,
            start < end ==> i <= end,
            end <= start ==> i == start,
            v@ == long_addresses(start as int, i as int),
        decreases end - i,
    {
        if i % 4 == 0 {
            v.push(i);
        }
        i = i + 1;
    }
    proof {
        if end <= start {
            assert(long_addresses(start as int, end as int) == long_addresses(start as int, start as int));
        }
    }
    v
}

/// The dump from `start` to `end` holds exactly the multiples of 4 from
/// `start` up to, not including, `end`: each of them once, in increasing
/// order, and nothing else.
pub proof fn lemma_long_addresses_are_the_multiples_of_four(start: int, end: int)
    requires
        0 <= start,
        end <= u32::MAX + 1,
    ensures
        forall|i: int|
            0 <= i < long_addresses(start, end).len() ==> {
                &&& start <= #[trigger] long_addresses(start, end)[i] < end
                &&& long_addresses(start, end)[i] % 4 == 0
            },
        forall|a: u32| start <= a < end && a % 4 == 0 ==> long_addresses(start, end).contains(a),
        forall|i: int, j: int|
            0 <= i < j < long_addresses(start, end).len() ==> long_addresses(start, end)[i]
                < long_addresses(start, end)[j],
        long_addresses(start, end).len() == if end <= start {
            0
        } else {
            (end + 3) / 4 - (start + 3) / 4
        },
    decreases end - start,
{
    if end > start {
        lemma_long_addresses_are_the_multiples_of_four(start, end - 1);
        let prev = long_addresses(start, end - 1);
        let cur = long_addresses(start, end);
        assert forall|a: u32| start <= a < end && a % 4 == 0 implies cur.contains(a) by {
            if a < end - 1 {
                assert(prev.contains(a));
                let k = choose|k: int| 0 <= k < prev.len() && prev[k] == a;
                assert(cur[k] == a);
            } else {
                assert(cur[cur.len() - 1] == a);
            }
        }
    }
}

proof fn lemma_second_address_ignores_trailing_space(
    s: Seq<char>,
    t: Seq<char>,
    pos: int,
    first: u32,
    view: bool,
)
    requires
        0 <= pos <= s.len(),
        all_space_from(t, 0),
    ensures
        spec_second_address(s + t, pos, first, view) == spec_second_address(s, pos, first, view),
{
    lemma_next_word_ignores_trailing_space(s, t, pos);
}

/// White space at the end of a command line does not change the command it
/// holds.
pub proof fn lemma_cmd_ignores_trailing_space(s: Seq<char>, t: Seq<char>)
    requires
        all_space_from(t, 0),
    ensures
        spec_cmd(s + t) == spec_cmd(s),
{
    lemma_next_word_ignores_trailing_space(s, t, 0);
    if let Some((a, b)) = next_word(s, 0) {
        lemma_next_word_ignores_trailing_space(s, t, b);
        if let Some((c, d)) = next_word(s, b) {
            if let Some(x) = hex_u32(s.subrange(c, d)) {
                lemma_second_address_ignores_trailing_space(s, t, d, x, false);
                lemma_second_address_ignores_trailing_space(s, t, d, x, true);
            }
        }
    }
}

/// A line read with a carriage return before its line feed holds the same
/// command as with the line feed alone, and as without either.
pub proof fn lemma_cmd_ignores_line_end(s: Seq<char>)
    ensures
        spec_cmd(s + seq!['\r', '\n']) == spec_cmd(s),
        spec_cmd(s + seq!['\n']) == spec_cmd(s),
{
    assert(all_space_from(seq!['\r', '\n'], 0));
    assert(all_space_from(seq!['\n'], 0));
    lemma_cmd_ignores_trailing_space(s, seq!['\r', '\n']);
    lemma_cmd_ignores_trailing_space(s, seq!['\n']);
}

} // verus!
