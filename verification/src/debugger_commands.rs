//! The debugger's command language: parsing command lines and carrying
//! the commands out against the emulator.

use vstd::prelude::*;

use crate::cpu::{spec_step, Cpu};
use crate::hex;
use crate::memory::{spec_read_post, spec_read_val, MemV};
use crate::{find_position_u16, spec_sat_inc, EmuV, Emulator};
use itertools::Itertools;

verus! {

/// CLI debugger command.
#[derive(Clone, Copy, Debug, PartialEq, Eq, Structural)]
pub enum Command {
    Halt,
    Continue,
    CpuInfo,
    Step,
    ToggleBreakpoint { addr: u16 },
    Finish,
    ShowByte { addr: u16 },
    ShowRange { start: u16, end_inclusive: u16 },
}

/// A command line that fits no command.
#[derive(Clone, Copy, Debug, PartialEq, Eq, Structural)]
pub enum ParseError {
    Invalid,
}

/// What carrying a command out reports back, for a frontend to format.
#[derive(Clone, Debug)]
pub enum Reply {
    AlreadyHalted,
    Halted,
    AlreadyRunning,
    Resumed,
    CpuInfo { cpu: Cpu },
    Stepped,
    Finishing { was_finishing: bool },
    BreakpointSet { addr: u16 },
    BreakpointCleared { addr: u16 },
    Byte { addr: u16, value: u8 },
    Range { start: u16, end_inclusive: u16, bytes: Vec<u8> },
}

/// Ghost image of a reply, with byte runs as sequences.
pub ghost enum ReplyV {
    AlreadyHalted,
    Halted,
    AlreadyRunning,
    Resumed,
    CpuInfo { cpu: Cpu },
    Stepped,
    Finishing { was_finishing: bool },
    BreakpointSet { addr: u16 },
    BreakpointCleared { addr: u16 },
    Byte { addr: u16, value: u8 },
    Range { start: u16, end_inclusive: u16, bytes: Seq<u8> },
}

impl View for Reply {
    type V = ReplyV;

    open spec fn view(&self) -> ReplyV {
        match self {
            Reply::AlreadyHalted => ReplyV::AlreadyHalted,
            Reply::Halted => ReplyV::Halted,
            Reply::AlreadyRunning => ReplyV::AlreadyRunning,
            Reply::Resumed => ReplyV::Resumed,
            Reply::CpuInfo { cpu } => ReplyV::CpuInfo { cpu: *cpu },
            Reply::Stepped => ReplyV::Stepped,
            Reply::Finishing { was_finishing } => ReplyV::Finishing {
                was_finishing: *was_finishing,
            },
            Reply::BreakpointSet { addr } => ReplyV::BreakpointSet { addr: *addr },
            Reply::BreakpointCleared { addr } => ReplyV::BreakpointCleared { addr: *addr },
            Reply::Byte { addr, value } => ReplyV::Byte { addr: *addr, value: *value },
            Reply::Range { start, end_inclusive, bytes } => ReplyV::Range {
                start: *start,
                end_inclusive: *end_inclusive,
                bytes: bytes@,
            },
        }
    }
}

/// The six ASCII characters Rust counts as whitespace.
pub open spec fn spec_is_space(c: char) -> bool {
    c == ' ' || c == '\t' || c == '\n' || c == '\r' || c == '\u{b}' || c == '\u{c}'
}

/// The first index at or after `i` holding a non-space character.
pub open spec fn spec_skip_ws(s: Seq<char>, i: int) -> int
    decreases s.len() - i,
{
    if 0 <= i < s.len() && spec_is_space(s[i]) {
        spec_skip_ws(s, i + 1)
    } else {
        i
    }
}

/// The end of the trailing-space-free prefix of `s` up to `j`.
pub open spec fn spec_trim_end(s: Seq<char>, j: int) -> int
    decreases j,
{
    if 0 < j <= s.len() && spec_is_space(s[j - 1]) {
        spec_trim_end(s, j - 1)
    } else {
        j
    }
}

/// The string with leading and trailing whitespace dropped.
pub open spec fn spec_trim(s: Seq<char>) -> Seq<char> {
    let lo = spec_skip_ws(s, 0);
    let hi = spec_trim_end(s, s.len() as int);
    if 0 <= lo <= hi <= s.len() {
        s.subrange(lo, hi)
    } else {
        Seq::empty()
    }
}

/// The first index at or after `i` holding a space, or the end.
pub open spec fn spec_word_end(s: Seq<char>, i: int) -> int
    decreases s.len() - i,
{
    if 0 <= i < s.len() && !spec_is_space(s[i]) {
        spec_word_end(s, i + 1)
    } else {
        i
    }
}

pub proof fn lemma_word_end_bounds(s: Seq<char>, i: int)
    requires
        0 <= i <= s.len(),
    ensures
        i <= spec_word_end(s, i) <= s.len(),
    decreases s.len() - i,
{
    if i < s.len() && !spec_is_space(s[i]) {
        lemma_word_end_bounds(s, i + 1);
    }
}

/// The whitespace-separated words of the string, from index `i` on.
pub open spec fn spec_words_from(s: Seq<char>, i: int) -> Seq<Seq<char>>
    decreases s.len() - i,
    via words_from_decreases
{
    if i < 0 || i >= s.len() {
        Seq::empty()
    } else if spec_is_space(s[i]) {
        spec_words_from(s, i + 1)
    } else {
        let j = spec_word_end(s, i);
        seq![s.subrange(i, j)] + spec_words_from(s, j)
    }
}

#[via_fn]
proof fn words_from_decreases(s: Seq<char>, i: int) {
    if 0 <= i < s.len() && !spec_is_space(s[i]) {
        lemma_word_end_bounds(s, i + 1);
    }
}

/// The whitespace-separated words of the string.
pub open spec fn spec_words(s: Seq<char>) -> Seq<Seq<char>> {
    spec_words_from(s, 0)
}

/// The index of the first `.` in the string, or its length.
pub open spec fn spec_find_dot(s: Seq<char>, i: int) -> int
    decreases s.len() - i,
{
    if 0 <= i < s.len() {
        if s[i] == '.' {
            i
        } else {
            spec_find_dot(s, i + 1)
        }
    } else {
        s.len() as int
    }
}

/// What the command line parses to: a keyword, `b`/`break` with one hex
/// address, a hex range `a.b`, or a single hex address.
pub open spec fn spec_parse(s: Seq<char>) -> Result<Command, ParseError> {
    if !vstd::utf8::is_ascii_chars(s) {
        Err(ParseError::Invalid)
    } else {
        let t = spec_trim(s);
        if t == seq!['h'] || t == seq!['h', 'a', 'l', 't'] {
            Ok(Command::Halt)
        } else if t == seq!['c'] || t == seq!['c', 'o', 'n', 't', 'i', 'n', 'u', 'e'] {
            Ok(Command::Continue)
        } else if t == seq!['i'] || t == seq!['i', 'n', 'f', 'o'] {
            Ok(Command::CpuInfo)
        } else if t == seq!['s'] || t == seq!['s', 't', 'e', 'p'] {
            Ok(Command::Step)
        } else if t == seq!['f'] || t == seq!['f', 'i', 'n', 'i', 's', 'h'] {
            Ok(Command::Finish)
        } else {
            let ws = spec_words(s);
            if ws.len() >= 1 && (ws[0] == seq!['b'] || ws[0] == seq!['b', 'r', 'e', 'a', 'k']) {
                if ws.len() == 2 && hex::spec_hex_ok(ws[1]) {
                    Ok(Command::ToggleBreakpoint { addr: hex::spec_hex_value(ws[1]) as u16 })
                } else {
                    Err(ParseError::Invalid)
                }
            } else {
                let dot = spec_find_dot(t, 0);
                if dot < t.len() {
                    let a = t.subrange(0, dot);
                    let b = t.subrange(dot + 1, t.len() as int);
                    if hex::spec_hex_ok(a) && hex::spec_hex_ok(b) && hex::spec_hex_value(a)
                        <= hex::spec_hex_value(b) {
                        Ok(
                            Command::ShowRange {
                                start: hex::spec_hex_value(a) as u16,
                                end_inclusive: hex::spec_hex_value(b) as u16,
                            },
                        )
                    } else {
                        Err(ParseError::Invalid)
                    }
                } else if hex::spec_hex_ok(t) {
                    Ok(Command::ShowByte { addr: hex::spec_hex_value(t) as u16 })
                } else {
                    Err(ParseError::Invalid)
                }
            }
        }
    }
}

/// Relies on std's `split_whitespace` and itertools' `collect_tuple`:
/// `Some` exactly when the string splits into exactly two
/// whitespace-separated words, and then those words. Restricted to
/// ASCII strings, where Rust's whitespace is the six ASCII whitespace
/// characters.
#[verifier::external_body]
fn two_words(s: &str) -> (r: Option<(String, String)>)
    requires
        vstd::string::is_ascii(s),
    ensures
        match r {
            Some(pair) => spec_words(s@).len() == 2 && pair.0@ == spec_words(s@)[0] && pair.1@
                == spec_words(s@)[1],
            None => spec_words(s@).len() != 2,
        },
{
    let (a, b) = s.split_whitespace().collect_tuple()?;
    Some((a.to_owned(), b.to_owned()))
}

/// Relies on std's `split_whitespace`: the first whitespace-separated
/// word, if any. Restricted to ASCII strings, where Rust's whitespace
/// is the six ASCII whitespace characters.
#[verifier::external_body]
fn first_word(s: &str) -> (r: Option<String>)
    requires
        vstd::string::is_ascii(s),
    ensures
        match r {
            Some(w) => spec_words(s@).len() >= 1 && w@ == spec_words(s@)[0],
            None => spec_words(s@).len() == 0,
        },
{
    Some(s.split_whitespace().next()?.to_owned())
}

/// The characters between two indices, as their own vector.
fn subvec(cs: &Vec<char>, a: usize, b: usize) -> (r: Vec<char>)
    requires
        a <= b <= cs@.len(),
    ensures
        r@ == cs@.subrange(a as int, b as int),
{
    let mut r: Vec<char> = Vec::new();
    let mut i: usize = a;
    while i < b
        invariant
            a <= i <= b <= cs@.len(),
            r@ =~= cs@.subrange(a as int, i as int),
        decreases b - i,
    {
        r.push(cs[i]);
        proof {
            assert(r@ =~= cs@.subrange(a as int, i + 1));
        }
        i = i + 1;
    }
    proof {
        assert(r@ =~= cs@.subrange(a as int, b as int));
    }
    r
}

/// Whether the character is ASCII whitespace.
fn is_space(c: char) -> (r: bool)
    ensures
        r == spec_is_space(c),
{
    c == ' ' || c == '\t' || c == '\n' || c == '\r' || c == '\u{b}' || c == '\u{c}'
}

impl Command {
    /// Parse one debugger command line.
    pub fn parse(s: &str) -> (r: Result<Command, ParseError>)
        ensures
            r == spec_parse(s@),
    {
        let cs = match hex::chars_of(s) {
            Some(cs) => cs,
            None => {
                return Err(ParseError::Invalid);
            },
        };
        let n = cs.len();

        // Trim: find the first and last non-space characters.
        let mut lo: usize = 0;
        while lo < n && is_space(cs[lo])
            invariant
                0 <= lo <= n,
                n == cs@.len(),
                spec_skip_ws(cs@, 0) == spec_skip_ws(cs@, lo as int),
            decreases n - lo,
        {
            lo = lo + 1;
        }
        let mut hi: usize = n;
        while hi > lo && is_space(cs[hi - 1])
            invariant
                lo <= hi <= n,
                n == cs@.len(),
                spec_trim_end(cs@, n as int) == spec_trim_end(cs@, hi as int),
            decreases hi,
        {
            hi = hi - 1;
        }
        proof {
            assert(spec_skip_ws(cs@, lo as int) == lo);
            lemma_trim_end_le(cs@, hi as int);
            if hi > lo {
                assert(spec_trim_end(cs@, hi as int) == hi);
                assert(spec_trim(cs@) == cs@.subrange(lo as int, hi as int));
            } else {
                assert(spec_trim_end(cs@, n as int) <= lo);
                assert(spec_trim(cs@) =~= cs@.subrange(lo as int, hi as int));
            }
        }
        let t = subvec(&cs, lo, hi);
        let tn = hi - lo;

        if tn == 1 && t[0] == 'h' || tn == 4 && t[0] == 'h' && t[1] == 'a' && t[2] == 'l' && t[3]
            == 't' {
            proof {
                assert(t@ == seq!['h'] || t@ =~= seq!['h', 'a', 'l', 't']);
            }
            return Ok(Command::Halt);
        }
        if tn == 1 && t[0] == 'c' || tn == 8 && t[0] == 'c' && t[1] == 'o' && t[2] == 'n' && t[3]
            == 't' && t[4] == 'i' && t[5] == 'n' && t[6] == 'u' && t[7] == 'e' {
            proof {
                assert(t@ == seq!['c'] || t@ =~= seq!['c', 'o', 'n', 't', 'i', 'n', 'u', 'e']);
            }
            return Ok(Command::Continue);
        }
        if tn == 1 && t[0] == 'i' || tn == 4 && t[0] == 'i' && t[1] == 'n' && t[2] == 'f' && t[3]
            == 'o' {
            proof {
                assert(t@ == seq!['i'] || t@ =~= seq!['i', 'n', 'f', 'o']);
            }
            return Ok(Command::CpuInfo);
        }
        if tn == 1 && t[0] == 's' || tn == 4 && t[0] == 's' && t[1] == 't' && t[2] == 'e' && t[3]
            == 'p' {
            proof {
                assert(t@ == seq!['s'] || t@ =~= seq!['s', 't', 'e', 'p']);
            }
            return Ok(Command::Step);
        }
        if tn == 1 && t[0] == 'f' || tn == 6 && t[0] == 'f' && t[1] == 'i' && t[2] == 'n' && t[3]
            == 'i' && t[4] == 's' && t[5] == 'h' {
            proof {
                assert(t@ == seq!['f'] || t@ =~= seq!['f', 'i', 'n', 'i', 's', 'h']);
            }
            return Ok(Command::Finish);
        }
        proof {
            assert(t@ != seq!['h'] && t@ != seq!['h', 'a', 'l', 't']);
            assert(t@ != seq!['c'] && t@ != seq!['c', 'o', 'n', 't', 'i', 'n', 'u', 'e']);
            assert(t@ != seq!['i'] && t@ != seq!['i', 'n', 'f', 'o']);
            assert(t@ != seq!['s'] && t@ != seq!['s', 't', 'e', 'p']);
            assert(t@ != seq!['f'] && t@ != seq!['f', 'i', 'n', 'i', 's', 'h']);
        }

        let fw = first_word(s);
        let is_break_cmd = match &fw {
            Some(w) => {
                let wref: &str = w.as_str();
                let wn = wref.unicode_len();
                (wn == 1 && wref.get_char(0) == 'b') || (wn == 5 && wref.get_char(0) == 'b'
                    && wref.get_char(1) == 'r' && wref.get_char(2) == 'e' && wref.get_char(3)
                    == 'a' && wref.get_char(4) == 'k')
            },
            None => false,
        };
        proof {
            let ws = spec_words(s@);
            if is_break_cmd {
                assert(ws.len() >= 1 && (ws[0] =~= seq!['b'] || ws[0] =~= seq![
                    'b',
                    'r',
                    'e',
                    'a',
                    'k',
                ]));
            } else {
                if ws.len() >= 1 {
                    assert(ws[0] != seq!['b'] && ws[0] != seq!['b', 'r', 'e', 'a', 'k']);
                }
            }
        }
        if is_break_cmd {
            match two_words(s) {
                Some((_, arg)) => {
                    let argcs = match hex::chars_of(arg.as_str()) {
                        Some(cs) => cs,
                        None => {
                            return Err(ParseError::Invalid);
                        },
                    };
                    match hex::decode_u16_chars(&argcs) {
                        Ok(addr) => Ok(Command::ToggleBreakpoint { addr }),
                        Err(_) => Err(ParseError::Invalid),
                    }
                },
                None => Err(ParseError::Invalid),
            }
        } else {
            // Look for a range: the first `.` splits start and end.
            let mut dot: usize = 0;
            while dot < tn && t[dot] != '.'
                invariant
                    0 <= dot <= tn,
                    tn == t@.len(),
                    spec_find_dot(t@, 0) == spec_find_dot(t@, dot as int),
                decreases tn - dot,
            {
                dot = dot + 1;
            }
            proof {
                assert(spec_find_dot(t@, dot as int) == dot);
            }
            if dot < tn {
                let a = subvec(&t, 0, dot);
                let b = subvec(&t, dot + 1, tn);
                let start = match hex::decode_u16_chars(&a) {
                    Ok(v) => v,
                    Err(_) => {
                        return Err(ParseError::Invalid);
                    },
                };
                let end_inclusive = match hex::decode_u16_chars(&b) {
                    Ok(v) => v,
                    Err(_) => {
                        return Err(ParseError::Invalid);
                    },
                };
                if start <= end_inclusive {
                    Ok(Command::ShowRange { start, end_inclusive })
                } else {
                    Err(ParseError::Invalid)
                }
            } else {
                match hex::decode_u16_chars(&t) {
                    Ok(addr) => Ok(Command::ShowByte { addr }),
                    Err(_) => Err(ParseError::Invalid),
                }
            }
        }
    }
}

/// Parse one debugger input line; an empty line means "step".
pub fn parse_line(line: &str) -> (r: Result<Command, ParseError>)
    ensures
        r == if vstd::utf8::is_ascii_chars(line@) && spec_trim(line@).len() == 0 {
            Ok::<Command, ParseError>(Command::Step)
        } else {
            spec_parse(line@)
        },
{
    let cs = match hex::chars_of(line) {
        Some(cs) => cs,
        None => {
            return Err(ParseError::Invalid);
        },
    };
    let n = cs.len();
    let mut lo: usize = 0;
    while lo < n && is_space(cs[lo])
        invariant
            0 <= lo <= n,
            n == cs@.len(),
            spec_skip_ws(cs@, 0) == spec_skip_ws(cs@, lo as int),
        decreases n - lo,
    {
        lo = lo + 1;
    }
    if lo == n {
        proof {
            assert(spec_skip_ws(cs@, lo as int) == lo);
            lemma_trim_end_le(cs@, n as int);
            assert(spec_trim(cs@).len() == 0);
        }
        return Ok(Command::Step);
    }
    proof {
        assert(spec_skip_ws(cs@, lo as int) == lo);
        lemma_trim_end_at_least(cs@, n as int, lo as int);
        lemma_trim_end_le(cs@, n as int);
        assert(spec_trim(cs@).len() > 0);
    }
    Command::parse(line)
}

/// The trim end never grows.
proof fn lemma_trim_end_le(s: Seq<char>, j: int)
    ensures
        spec_trim_end(s, j) <= j,
    decreases j,
{
    if 0 < j <= s.len() && spec_is_space(s[j - 1]) {
        lemma_trim_end_le(s, j - 1);
    }
}

/// If some position at or after `lo` holds a non-space character, the
/// trim end stays above `lo`.
proof fn lemma_trim_end_at_least(s: Seq<char>, j: int, lo: int)
    requires
        0 <= lo < j <= s.len(),
        !spec_is_space(s[lo]),
    ensures
        spec_trim_end(s, j) > lo,
    decreases j,
{
    if j - 1 > lo && spec_is_space(s[j - 1]) {
        lemma_trim_end_at_least(s, j - 1, lo);
    }
}

/// The bytes a run of reads yields, and the memory state afterwards.
pub open spec fn spec_read_run(m: MemV, start: int, count: nat) -> (Seq<u8>, MemV)
    decreases count,
{
    if count == 0 {
        (Seq::empty(), m)
    } else {
        let v = spec_read_val(m, start as u16);
        let m1 = spec_read_post(m, start as u16);
        let rest = spec_read_run(m1, start + 1, (count - 1) as nat);
        (seq![v] + rest.0, rest.1)
    }
}

/// Reading one more byte extends the run at its end.
proof fn lemma_read_run_snoc(m: MemV, start: int, count: nat)
    ensures
        ({
            let r = spec_read_run(m, start, count);
            let v = spec_read_val(r.1, (start + count) as u16);
            spec_read_run(m, start, count + 1) == (
                r.0.push(v),
                spec_read_post(r.1, (start + count) as u16),
            )
        }),
    decreases count,
{
    reveal_with_fuel(spec_read_run, 3);
    let r = spec_read_run(m, start, count);
    let v = spec_read_val(r.1, (start + count) as u16);
    if count == 0 {
        assert(spec_read_run(m, start, 1).0 =~= r.0.push(v));
    } else {
        let m1 = spec_read_post(m, start as u16);
        lemma_read_run_snoc(m1, start + 1, (count - 1) as nat);
        assert((start + 1) + (count - 1) == start + count);
        assert(spec_read_run(m, start, count + 1).0 =~= r.0.push(v));
        assert(spec_read_run(m, start, count + 1).1 == spec_read_post(r.1, (start + count) as u16));
    }
}

/// The first index in the sequence holding the target, or -1.
pub open spec fn spec_first_pos(s: Seq<u16>, target: u16) -> int
    decreases s.len(),
{
    if s.len() == 0 {
        -1
    } else if s[0] == target {
        0
    } else {
        let r = spec_first_pos(s.skip(1), target);
        if r < 0 {
            -1
        } else {
            r + 1
        }
    }
}

/// The first-position function finds the target exactly when the
/// sequence contains it, at the first place it stands.
pub proof fn lemma_first_pos(s: Seq<u16>, target: u16)
    ensures
        spec_first_pos(s, target) == -1 <==> !s.contains(target),
        s.contains(target) ==> {
            let i = spec_first_pos(s, target);
            &&& 0 <= i < s.len()
            &&& s[i] == target
            &&& forall|j: int| 0 <= j < i ==> s[j] != target
        },
    decreases s.len(),
{
    if s.len() == 0 {
    } else if s[0] == target {
        assert(s.contains(target));
    } else {
        lemma_first_pos(s.skip(1), target);
        assert(forall|j: int| 0 <= j < s.skip(1).len() ==> #[trigger] s.skip(1)[j] == s[j + 1]);
        if s.skip(1).contains(target) {
            let r = spec_first_pos(s.skip(1), target);
            assert(s.skip(1)[r] == target);
            assert(s[r + 1] == target);
            assert(s.contains(target));
            assert(spec_first_pos(s, target) == r + 1);
            assert forall|j: int| 0 <= j < r + 1 implies s[j] != target by {
                if j > 0 {
                    assert(s.skip(1)[j - 1] != target);
                }
            }
        } else {
            if s.contains(target) {
                let w = choose|w: int| 0 <= w < s.len() && s[w] == target;
                assert(s.skip(1)[w - 1] == target);
                assert(s.skip(1).contains(target));
            }
        }
    }
}

/// What carrying a command out does to the emulator, and what it
/// reports. Inspection commands read through the bus, so a range over
/// the I/O page has the same side effects the program would see.
pub open spec fn spec_execute(e: EmuV, cmd: Command) -> (EmuV, ReplyV) {
    match cmd {
        Command::Halt => {
            if e.halted {
                (e, ReplyV::AlreadyHalted)
            } else {
                (EmuV { halted: true, ..e }, ReplyV::Halted)
            }
        },
        Command::Continue => {
            if !e.halted {
                (e, ReplyV::AlreadyRunning)
            } else {
                let e1 = EmuV { halted: false, ..e };
                if e.breakpoints.contains(e.cpu.pc) {
                    // Skip past the current breakpoint, instead of
                    // breaking right away and going nowhere.
                    let s = spec_step(e1.cpu, e1.mem);
                    if s.2 is Ok {
                        (
                            EmuV {
                                cpu: s.0,
                                mem: s.1,
                                num_instructions_executed: spec_sat_inc(
                                    e1.num_instructions_executed,
                                ),
                                ..e1
                            },
                            ReplyV::Resumed,
                        )
                    } else {
                        (EmuV { cpu: s.0, mem: s.1, halted: true, ..e1 }, ReplyV::Resumed)
                    }
                } else {
                    (e1, ReplyV::Resumed)
                }
            }
        },
        Command::CpuInfo => (e, ReplyV::CpuInfo { cpu: e.cpu }),
        Command::Step => {
            let e1 = EmuV { halted: true, ..e };
            let s = spec_step(e1.cpu, e1.mem);
            if s.2 is Ok {
                (
                    EmuV {
                        cpu: s.0,
                        mem: s.1,
                        num_instructions_executed: spec_sat_inc(e1.num_instructions_executed),
                        ..e1
                    },
                    ReplyV::Stepped,
                )
            } else {
                (EmuV { cpu: s.0, mem: s.1, ..e1 }, ReplyV::Stepped)
            }
        },
        Command::ToggleBreakpoint { addr } => {
            let i = spec_first_pos(e.breakpoints, addr);
            if i >= 0 {
                (
                    EmuV {
                        breakpoints: e.breakpoints.update(
                            i,
                            e.breakpoints.last(),
                        ).drop_last(),
                        ..e
                    },
                    ReplyV::BreakpointCleared { addr },
                )
            } else {
                (
                    EmuV { breakpoints: e.breakpoints.push(addr), ..e },
                    ReplyV::BreakpointSet { addr },
                )
            }
        },
        Command::Finish => {
            if !e.halted {
                (e, ReplyV::AlreadyRunning)
            } else {
                (
                    EmuV { halted: false, finish_state: Some(0), ..e },
                    ReplyV::Finishing { was_finishing: e.finish_state is Some },
                )
            }
        },
        Command::ShowByte { addr } => {
            (
                EmuV { mem: spec_read_post(e.mem, addr), ..e },
                ReplyV::Byte { addr, value: spec_read_val(e.mem, addr) },
            )
        },
        Command::ShowRange { start, end_inclusive } => {
            let count = if start <= end_inclusive {
                (end_inclusive - start + 1) as nat
            } else {
                0
            };
            let r = spec_read_run(e.mem, start as int, count);
            (
                EmuV { mem: r.1, ..e },
                ReplyV::Range { start, end_inclusive, bytes: r.0 },
            )
        },
    }
}

impl Command {
    /// Carry the command out against the emulator.
    pub fn execute(self, emu: &mut Emulator) -> (r: Reply)
        requires
            old(emu)@.mem.wf(),
        ensures
            final(emu)@ == spec_execute(old(emu)@, self).0,
            r@ == spec_execute(old(emu)@, self).1,
            final(emu)@.mem.wf(),
    {
        match self {
            Command::Halt => {
                if emu.halted {
                    Reply::AlreadyHalted
                } else {
                    emu.halted = true;
                    Reply::Halted
                }
            },
            Command::Continue => {
                if !emu.halted {
                    Reply::AlreadyRunning
                } else {
                    emu.halted = false;
                    if find_position_u16(&emu.breakpoints, emu.cpu.pc()).is_some() {
                        match emu.cpu.step(&mut emu.mem) {
                            Ok(()) => {
                                if emu.num_instructions_executed < 0xffff_ffff_ffff_ffff {
                                    emu.num_instructions_executed = emu.num_instructions_executed
                                        + 1;
                                }
                            },
                            Err(_) => {
                                emu.halted = true;
                            },
                        }
                    }
                    Reply::Resumed
                }
            },
            Command::CpuInfo => Reply::CpuInfo { cpu: emu.cpu },
            Command::Step => {
                emu.halted = true;
                match emu.cpu.step(&mut emu.mem) {
                    Ok(()) => {
                        if emu.num_instructions_executed < 0xffff_ffff_ffff_ffff {
                            emu.num_instructions_executed = emu.num_instructions_executed + 1;
                        }
                    },
                    Err(_) => {},
                }
                Reply::Stepped
            },
            Command::ToggleBreakpoint { addr } => {
                proof {
                    lemma_first_pos(old(emu)@.breakpoints, addr);
                }
                match find_position_u16(&emu.breakpoints, addr) {
                    Some(idx) => {
                        let _ = emu.breakpoints.swap_remove(idx);
                        Reply::BreakpointCleared { addr }
                    },
                    None => {
                        emu.breakpoints.push(addr);
                        Reply::BreakpointSet { addr }
                    },
                }
            },
            Command::Finish => {
                if !emu.halted {
                    Reply::AlreadyRunning
                } else {
                    let was_finishing = emu.finish_state.is_some();
                    emu.halted = false;
                    emu.finish_state = Some(0);
                    Reply::Finishing { was_finishing }
                }
            },
            Command::ShowByte { addr } => {
                let value = emu.mem.read(addr);
                Reply::Byte { addr, value }
            },
            Command::ShowRange { start, end_inclusive } => {
                let mut bytes: Vec<u8> = Vec::new();
                if start <= end_inclusive {
                    let count: u32 = end_inclusive as u32 - start as u32 + 1;
                    let mut i: u32 = 0;
                    while i < count
                        invariant
                            i <= count,
                            count == end_inclusive - start + 1,
                            start <= end_inclusive,
                            emu.mem@.wf(),
                            emu@ == (EmuV {
                                mem: spec_read_run(old(emu)@.mem, start as int, i as nat).1,
                                ..old(emu)@
                            }),
                            bytes@ == spec_read_run(old(emu)@.mem, start as int, i as nat).0,
                        decreases count - i,
                    {
                        proof {
                            lemma_read_run_snoc(old(emu)@.mem, start as int, i as nat);
                        }
                        let v = emu.mem.read(start + i as u16);
                        bytes.push(v);
                        i = i + 1;
                    }
                }
                Reply::Range { start, end_inclusive, bytes }
            },
        }
    }
}


/// The ASCII character of a hex digit value.
pub open spec fn spec_hex_digit_ascii(n: u8) -> u8 {
    if n < 10 {
        (0x30 + n) as u8
    } else {
        (0x61 + (n - 10)) as u8
    }
}

/// A byte as two lowercase hex characters.
pub open spec fn spec_byte_hex(b: u8) -> Seq<u8> {
    seq![spec_hex_digit_ascii(b / 16), spec_hex_digit_ascii(b % 16)]
}

/// One cell of the range dump: the separator owed before the address,
/// then the byte as two hex characters, or two blanks left of the
/// range start.
pub open spec fn spec_range_cell(start_rounded: int, start: int, addr: int, bytes: Seq<u8>) -> Seq<
    u8,
> {
    let sep: Seq<u8> = if addr == start_rounded {
        Seq::empty()
    } else {
        (if addr % 16 == 0 {
            seq![0x0au8]
        } else if addr % 16 == 8 {
            seq![0x20u8, 0x20u8]
        } else {
            seq![0x20u8]
        }) + (if addr % 256 == 128 || addr % 256 == 0 {
            seq![0x0au8]
        } else {
            Seq::empty()
        })
    };
    sep + if addr >= start {
        spec_byte_hex(bytes[addr - start])
    } else {
        seq![0x20u8, 0x20u8]
    }
}

/// The range dump from `addr` on: 16 bytes per row, aligned to a
/// 16-byte boundary, a gap at column 8, a blank line at each half-page
/// mark and between pages, and a final line break.
pub open spec fn spec_range_text(
    start_rounded: int,
    start: int,
    addr: int,
    end: int,
    bytes: Seq<u8>,
) -> Seq<u8>
    decreases end - addr + 1,
{
    if addr > end {
        seq![0x0au8]
    } else {
        spec_range_cell(start_rounded, start, addr, bytes) + spec_range_text(
            start_rounded,
            start,
            addr + 1,
            end,
            bytes,
        )
    }
}

/// The ASCII character of a hex digit value.
fn hex_digit_ascii(n: u8) -> (r: u8)
    requires
        n < 16,
    ensures
        r == spec_hex_digit_ascii(n),
{
    if n < 10 {
        0x30 + n
    } else {
        0x61 + (n - 10)
    }
}

/// Format a range dump as ASCII text: the layout the `ShowRange`
/// command prints, from the bytes its reply carries.
pub fn format_range(start: u16, end_inclusive: u16, bytes: &Vec<u8>) -> (r: Vec<u8>)
    requires
        start <= end_inclusive,
        bytes@.len() == end_inclusive - start + 1,
    ensures
        r@ == spec_range_text(
            (start / 16 * 16) as int,
            start as int,
            (start / 16 * 16) as int,
            end_inclusive as int,
            bytes@,
        ),
{
    let start_rounded: u16 = start / 16 * 16;
    let mut out: Vec<u8> = Vec::new();
    let mut addr: u32 = start_rounded as u32;
    while addr <= end_inclusive as u32
        invariant
            start_rounded == start / 16 * 16,
            start_rounded <= addr <= end_inclusive + 1,
            start <= end_inclusive,
            bytes@.len() == end_inclusive - start + 1,
            spec_range_text(
                start_rounded as int,
                start as int,
                start_rounded as int,
                end_inclusive as int,
                bytes@,
            ) == out@ + spec_range_text(
                start_rounded as int,
                start as int,
                addr as int,
                end_inclusive as int,
                bytes@,
            ),
        decreases end_inclusive + 1 - addr,
    {
        let ghost before = out@;
        if addr != start_rounded as u32 {
            if addr % 16 == 0 {
                out.push(0x0a);
            } else if addr % 16 == 8 {
                out.push(0x20);
                out.push(0x20);
            } else {
                out.push(0x20);
            }
            // Blank line at the half-page mark, and between pages.
            if addr % 256 == 128 || addr % 256 == 0 {
                out.push(0x0a);
            }
        }
        if addr >= start as u32 {
            let b = bytes[(addr - start as u32) as usize];
            out.push(hex_digit_ascii(b / 16));
            out.push(hex_digit_ascii(b % 16));
        } else {
            out.push(0x20);
            out.push(0x20);
        }
        proof {
            assert(out@ =~= before + spec_range_cell(
                start_rounded as int,
                start as int,
                addr as int,
                bytes@,
            ));
            assert((before + spec_range_cell(
                start_rounded as int,
                start as int,
                addr as int,
                bytes@,
            )) + spec_range_text(
                start_rounded as int,
                start as int,
                addr + 1,
                end_inclusive as int,
                bytes@,
            ) =~= before + (spec_range_cell(
                start_rounded as int,
                start as int,
                addr as int,
                bytes@,
            ) + spec_range_text(
                start_rounded as int,
                start as int,
                addr + 1,
                end_inclusive as int,
                bytes@,
            )));
        }
        addr = addr + 1;
    }
    out.push(0x0a);
    proof {
        assert(out@ =~= spec_range_text(
            start_rounded as int,
            start as int,
            start_rounded as int,
            end_inclusive as int,
            bytes@,
        ));
    }
    out
}

} // verus!
