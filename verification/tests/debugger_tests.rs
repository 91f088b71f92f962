use hayate::debugger::{dump_addresses, parse_cmd, Action, Cmd, Debugger, Session, Tick};
use hayate::words::{is_space, parse_hex, same_text, Words};

fn show(c: &Cmd) -> String {
    match c {
        Cmd::Break { bkpt } => format!("break {:x}", bkpt),
        Cmd::ClearBkpt { bkpt } => format!("clear {:x}", bkpt),
        Cmd::Disassemble { start, end } => format!("disassemble {:x} {:x}", start, end),
        Cmd::Empty => "empty".to_string(),
        Cmd::Error { msg } => format!("error: {}", msg),
        Cmd::Info => "info".to_string(),
        Cmd::List => "list".to_string(),
        Cmd::Quit => "quit".to_string(),
        Cmd::Run => "run".to_string(),
        Cmd::Step => "step".to_string(),
        Cmd::Trace => "trace".to_string(),
        Cmd::Untrace => "untrace".to_string(),
        Cmd::Unknown => "unknown".to_string(),
        Cmd::View { start, end } => format!("view {:x} {:x}", start, end),
        Cmd::ViewStack => "view stack".to_string(),
    }
}

fn parsed(line: &str) -> String {
    show(&parse_cmd(line))
}

#[test]
fn words_split_on_white_space() {
    let mut w = Words::new("  b\t 6000a2c \u{3000}x\n");
    assert_eq!(w.next(), Some("b"));
    assert_eq!(w.next(), Some("6000a2c"));
    assert_eq!(w.next(), Some("x"));
    assert_eq!(w.next(), None);
    assert_eq!(w.next(), None);
}

#[test]
fn space_characters() {
    assert!(is_space(' '));
    assert!(is_space('\n'));
    assert!(is_space('\u{a0}'));
    assert!(!is_space('a'));
    assert!(!is_space('\u{200b}'));
}

#[test]
fn same_text_compares_characters() {
    assert!(same_text("stack", "stack"));
    assert!(!same_text("stac", "stack"));
    assert!(!same_text("stacK", "stack"));
}

#[test]
fn hex_numbers() {
    assert_eq!(parse_hex("1f"), Some(0x1f));
    assert_eq!(parse_hex("DEADbeef"), Some(0xDEADBEEF));
    assert_eq!(parse_hex("+10"), Some(0x10));
    assert_eq!(parse_hex("ffffffff"), Some(0xFFFFFFFF));
    assert_eq!(parse_hex("100000000"), None);
    assert_eq!(parse_hex("0x10"), None);
    assert_eq!(parse_hex("-1"), None);
    assert_eq!(parse_hex("+"), None);
    assert_eq!(parse_hex(""), None);
    assert_eq!(parse_hex("g"), None);
}

#[test]
fn simple_commands() {
    assert_eq!(parsed(""), "empty");
    assert_eq!(parsed("   "), "empty");
    assert_eq!(parsed("i"), "info");
    assert_eq!(parsed("l"), "list");
    assert_eq!(parsed("q"), "quit");
    assert_eq!(parsed("r\n"), "run");
    assert_eq!(parsed(" s "), "step");
    assert_eq!(parsed("t"), "trace");
    assert_eq!(parsed("u"), "untrace");
    assert_eq!(parsed("x"), "unknown");
    assert_eq!(parsed("bb 10"), "unknown");
}

#[test]
fn breakpoint_commands() {
    assert_eq!(parsed("b 6000100"), "break 6000100");
    assert_eq!(parsed("b"), "error: no bkpt address");
    assert_eq!(parsed("b zz"), "error: couldn't parse address");
    assert_eq!(parsed("clear 10\n"), "clear 10");
    assert_eq!(parsed("clear"), "error: no bkpt address");
    assert_eq!(parsed("clear 1z"), "error: couldn't parse address");
}

#[test]
fn range_commands() {
    assert_eq!(parsed("d 100 200"), "disassemble 100 200");
    assert_eq!(parsed("d"), "error: no addresses given");
    assert_eq!(parsed("d q 200"), "error: couldn't parse first address");
    assert_eq!(parsed("d 100"), "error: no second address given");
    assert_eq!(parsed("d 100 w"), "error: couldn't parse second address");
    assert_eq!(parsed("v stack"), "view stack");
    assert_eq!(parsed("v 2000000 2000010"), "view 2000000 2000010");
    assert_eq!(parsed("v"), "error: no addresses given");
    assert_eq!(parsed("v stacks"), "error: couldn't parse first address");
    assert_eq!(parsed("v 10"), "error: no second address given");
    assert_eq!(parsed("v 10 -"), "error: couldn't parse second address");
}

#[test]
fn breakpoints_are_set_and_cleared() {
    let mut d = Debugger::new();
    let mut s = Session::new(false, 0x0607FFF0);
    assert!(!d.has_bkpt(0x10));
    assert!(matches!(d.command(&mut s, Cmd::Break { bkpt: 0x10 }, 0x100, 0x200), Action::Nothing));
    assert!(d.has_bkpt(0x10));
    assert!(matches!(d.command(&mut s, Cmd::ClearBkpt { bkpt: 0x10 }, 0x100, 0x200), Action::Nothing));
    assert!(!d.has_bkpt(0x10));
    d.insert_bkpt(0x20);
    d.clear_bkpt(0x30);
    assert!(d.has_bkpt(0x20));
}

#[test]
fn run_stops_at_breakpoint() {
    let mut d = Debugger::new();
    let mut s = Session::new(false, 0);
    assert!(!s.executing());
    d.command(&mut s, Cmd::Break { bkpt: 0x6000104 }, 0x6000100, 0);
    d.command(&mut s, Cmd::Run, 0x6000100, 0);
    assert!(s.executing());
    d.stepped(&mut s, 0x6000102);
    assert!(s.run);
    d.stepped(&mut s, 0x6000104);
    assert!(!s.run);
    assert!(!s.executing());
}

#[test]
fn step_executes_one_instruction() {
    let mut d = Debugger::new();
    let mut s = Session::new(false, 0);
    d.command(&mut s, Cmd::Step, 0, 0);
    assert!(s.executing());
    d.stepped(&mut s, 2);
    assert!(!s.executing());
}

#[test]
fn trace_is_switched() {
    let mut d = Debugger::new();
    let mut s = Session::new(true, 0);
    d.command(&mut s, Cmd::Trace, 0, 0);
    assert!(s.trace);
    d.command(&mut s, Cmd::Untrace, 0, 0);
    assert!(!s.trace);
}

#[test]
fn commands_give_actions() {
    let mut d = Debugger::new();
    let mut s = Session::new(false, 0x0607FFF0);
    match d.command(&mut s, Cmd::List, 0x6000100, 0) {
        Action::Disassemble { start, end, pc } => {
            assert_eq!((start, end, pc), (0x60000F6, 0x6000114, 0x6000100))
        },
        _ => panic!("list disassembles"),
    }
    match d.command(&mut s, Cmd::View { start: 4, end: 8 }, 0x10, 0) {
        Action::Disassemble { start, end, pc } => assert_eq!((start, end, pc), (4, 8, 0x10)),
        _ => panic!("view disassembles"),
    }
    match d.command(&mut s, Cmd::ViewStack, 0x10, 0x0607FFE0) {
        Action::ShowStack { from, to } => assert_eq!((from, to), (0x0607FFE0, 0x0607FFF0)),
        _ => panic!("view stack shows the stack"),
    }
    match d.command(&mut s, Cmd::Error { msg: "no addresses given" }, 0, 0) {
        Action::Error { msg } => assert_eq!(msg, "no addresses given"),
        _ => panic!("errors are reported"),
    }
    assert!(matches!(d.command(&mut s, Cmd::Info, 0, 0), Action::ShowCpu));
    assert!(matches!(d.command(&mut s, Cmd::Quit, 0, 0), Action::Quit));
    assert!(matches!(d.command(&mut s, Cmd::Unknown, 0, 0), Action::Unknown));
    assert!(matches!(d.command(&mut s, Cmd::Empty, 0, 0), Action::Nothing));
}

#[test]
fn dump_addresses_are_long_aligned() {
    assert_eq!(dump_addresses(0x0607FFE1, 0x0607FFF0), vec![0x0607FFE4, 0x0607FFE8, 0x0607FFEC]);
    assert_eq!(dump_addresses(8, 9), vec![8]);
    assert_eq!(dump_addresses(9, 8), Vec::<u32>::new());
    assert_eq!(dump_addresses(5, 5), Vec::<u32>::new());
}

#[test]
fn traced_steps_are_disassembled_first() {
    let mut d = Debugger::new();
    let mut s = Session::new(false, 0);
    assert!(matches!(s.next(0x100), Tick::Prompt { pc: 0x100 }));
    d.command(&mut s, Cmd::Step, 0x100, 0);
    assert!(matches!(s.next(0x100), Tick::Execute { disassemble: None }));
    d.command(&mut s, Cmd::Trace, 0x100, 0);
    assert!(matches!(s.next(0x100), Tick::Execute { disassemble: Some(0x100) }));
    d.command(&mut s, Cmd::Run, 0x100, 0);
    d.stepped(&mut s, 0x102);
    assert!(matches!(s.next(0x102), Tick::Execute { disassemble: Some(0x102) }));
    d.command(&mut s, Cmd::Untrace, 0x102, 0);
    assert!(matches!(s.next(0x102), Tick::Execute { disassemble: None }));
}
