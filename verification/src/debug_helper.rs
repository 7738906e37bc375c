//! Helpers for debugging the machine from a frontend: the debugger's command
//! set and state, and the parser for the numbers its commands take.
use vstd::prelude::*;
use std::collections::HashSet;
use vstd::string::StringSliceAdditionalSpecFns;
use crate::emulator::gpu::GPU;
use crate::emulator::gpu::draw_helper::Color;
use crate::emulator::screen::{channel, tilemap_entry};
use crate::minimal::emulator::Emulator;
use crate::minimal::instructions::{Machine, machine, run_spec, cycle_spec, lemma_run_step, lemma_run_prefix_ok};

verus! {

/// A debugger command.
#[derive(PartialEq, Debug)]
pub enum CommandType {
    Step(u64),
    Run,
    Breakpoint(Option<u16>),
    PrintRegs,
    PrintMem(u16, u16),
    PrintSteps,
    PrintUniqueInstrs,
    PrintEmulatorState,
    ToggleVerbose,
    ToggleInstrTracking,
    ToggleBreakpoints,
    Quit,
    Error(String),
    NoCommand,
}

/// The debugger's settings and what it has seen.
pub struct DebugState {
    pub verbose: bool,
    pub step_counter: u64,
    pub instr_tracking: bool,
    pub unique_instr_set: HashSet<u8>,
    pub use_breakpoints: bool,
    pub breakpoints: HashSet<u16>,
}

impl DebugState {
    /// Quiet, no instruction tracking, breakpoints in use but none set.
    pub fn new() -> (d: DebugState)
        ensures
            !d.verbose,
            d.step_counter == 0,
            !d.instr_tracking,
            d.unique_instr_set@ == Set::<u8>::empty(),
            d.use_breakpoints,
            d.breakpoints@ == Set::<u16>::empty(),
    {
        DebugState {
            verbose: false,
            step_counter: 0,
            instr_tracking: false,
            unique_instr_set: HashSet::new(),
            use_breakpoints: true,
            breakpoints: HashSet::new(),
        }
    }
}

/// Why a number could not be parsed.
#[derive(Copy, Clone, PartialEq, Eq, Debug, Structural)]
pub enum ParseNumberError {
    /// Nothing to parse
    Empty,
    /// A character that is not a digit of the radix
    InvalidDigit,
    /// The number does not fit in 16 bits
    PosOverflow,
}

/// The value of an ASCII digit (0-9, then a-z or A-Z for 10-35), if it is a
/// digit of `radix`.
pub open spec fn digit_value(c: u8, radix: int) -> Option<int> {
    let d: int = if 48 <= c <= 57 {
        c - 48
    } else if 97 <= c <= 122 {
        c - 97 + 10
    } else if 65 <= c <= 90 {
        c - 65 + 10
    } else {
        99
    };
    if d < radix {
        Some(d)
    } else {
        None
    }
}

/// The value of the first `n` digits, read left to right; the first bad digit
/// or the first step past `max` is the error.
pub open spec fn accumulate(digits: Seq<u8>, radix: int, n: int, max: int) -> Result<int, ParseNumberError>
    decreases n,
{
    if n <= 0 {
        Ok(0)
    } else {
        match accumulate(digits, radix, n - 1, max) {
            Err(e) => Err(e),
            Ok(v) => match digit_value(digits[n - 1], radix) {
                None => Err(ParseNumberError::InvalidDigit),
                Some(d) => if v * radix + d > max {
                    Err(ParseNumberError::PosOverflow)
                } else {
                    Ok(v * radix + d)
                },
            },
        }
    }
}

/// An unsigned number up to `max` in `radix`: an optional `+` and at least
/// one digit.
pub open spec fn spec_from_str_radix(src: Seq<u8>, radix: int, max: int) -> Result<int, ParseNumberError> {
    if src.len() == 0 {
        Err(ParseNumberError::Empty)
    } else if (src[0] == 43 || src[0] == 45) && src.len() == 1 {
        Err(ParseNumberError::InvalidDigit)
    } else {
        let digits = if src[0] == 43 {
            src.drop_first()
        } else {
            src
        };
        accumulate(digits, radix, digits.len() as int, max)
    }
}

/// A number as the debugger reads it: hexadecimal after `0x` or `$`, decimal
/// otherwise.
pub open spec fn spec_parse_number(s: Seq<u8>) -> Result<u16, ParseNumberError> {
    let r = if s.len() >= 2 && s[0] == 48 && s[1] == 120 {
        spec_from_str_radix(s.subrange(2, s.len() as int), 16, 65535)
    } else if s.len() >= 1 && s[0] == 36 {
        spec_from_str_radix(s.subrange(1, s.len() as int), 16, 65535)
    } else {
        spec_from_str_radix(s, 10, 65535)
    };
    match r {
        Ok(v) => Ok(v as u16),
        Err(e) => Err(e),
    }
}

/// The value of one ASCII digit of `radix`.
pub fn to_digit(c: u8, radix: u32) -> (r: Option<u32>)
    requires
        radix <= 36,
    ensures
        r matches Some(d) ==> digit_value(c, radix as int) == Some(d as int),
        r is None ==> digit_value(c, radix as int) is None,
{
    let d: u32 = if 48 <= c && c <= 57 {
        (c - 48) as u32
    } else if 97 <= c && c <= 122 {
        (c - 97) as u32 + 10
    } else if 65 <= c && c <= 90 {
        (c - 65) as u32 + 10
    } else {
        99
    };
    if d < radix {
        Some(d)
    } else {
        None
    }
}

/// Parse the bytes of `src` from `start` on as an unsigned number up to `max`
/// in `radix`.
pub fn from_str_radix(src: &[u8], start: usize, radix: u32, max: u64) -> (r: Result<u64, ParseNumberError>)
    requires
        start <= src@.len(),
        2 <= radix <= 36,
    ensures
        r matches Ok(v) ==> spec_from_str_radix(src@.subrange(start as int, src@.len() as int), radix as int, max as int)
            == Ok::<int, ParseNumberError>(v as int),
        r matches Err(e) ==> spec_from_str_radix(src@.subrange(start as int, src@.len() as int), radix as int, max as int)
            == Err::<int, ParseNumberError>(e),
{
    let ghost s = src@.subrange(start as int, src@.len() as int);
    let len = src.len();
    if start == len {
        return Err(ParseNumberError::Empty);
    }
    if (src[start] == 43 || src[start] == 45) && len - start == 1 {
        return Err(ParseNumberError::InvalidDigit);
    }
    let first: usize = if src[start] == 43 {
        start + 1
    } else {
        start
    };
    let ghost digits = src@.subrange(first as int, len as int);
    assert(digits =~= if s[0] == 43 {
        s.drop_first()
    } else {
        s
    });
    let mut value: u64 = 0;
    let mut i: usize = first;
    while i < len
        invariant
            first <= i <= len,
            len == src@.len(),
            2 <= radix <= 36,
            digits == src@.subrange(first as int, len as int),
            s == src@.subrange(start as int, len as int),
            s.len() > 0,
            !((s[0] == 43 || s[0] == 45) && s.len() == 1),
            digits == if s[0] == 43 {
                s.drop_first()
            } else {
                s
            },
            accumulate(digits, radix as int, i - first, max as int) == Ok::<int, ParseNumberError>(value as int),
            value <= max,
        decreases len - i,
    {
        assert(digits[i - first] == src@[i as int]);
        let d = to_digit(src[i], radix);
        match d {
            None => {
                proof {
                    lemma_accumulate_prefix_error(digits, radix as int, (i - first + 1) as int, digits.len() as int, max as int);
                }
                return Err(ParseNumberError::InvalidDigit);
            },
            Some(d) => {
                assert((value as u128) * (radix as u128) + (d as u128) <= 0xFFFF_FFFF_FFFF_FFFF * 36 + 36) by (nonlinear_arith)
                    requires
                        value <= 0xFFFF_FFFF_FFFF_FFFF,
                        radix <= 36,
                        d < radix,
                ;
                let next: u128 = (value as u128) * (radix as u128) + (d as u128);
                if next > max as u128 {
                    proof {
                        lemma_accumulate_prefix_error(digits, radix as int, (i - first + 1) as int, digits.len() as int, max as int);
                    }
                    return Err(ParseNumberError::PosOverflow);
                }
                value = next as u64;
            },
        }
        i += 1;
    }
    Ok(value)
}

/// Once a prefix of the digits fails, the whole string fails the same way.
proof fn lemma_accumulate_prefix_error(digits: Seq<u8>, radix: int, n: int, m: int, max: int)
    requires
        0 < n <= m,
        accumulate(digits, radix, n, max) is Err,
    ensures
        accumulate(digits, radix, m, max) == accumulate(digits, radix, n, max),
    decreases m - n,
{
    if n < m {
        lemma_accumulate_prefix_error(digits, radix, n, m - 1, max);
    }
}

/// Parse a debugger number from its bytes (see `parse_number`).
pub fn parse_number_bytes(bytes: &[u8]) -> (r: Result<u16, ParseNumberError>)
    ensures
        r == spec_parse_number(bytes@),
{
    let r = if bytes.len() >= 2 && bytes[0] == 48 && bytes[1] == 120 {
        from_str_radix(bytes, 2, 16, 65535)
    } else if bytes.len() >= 1 && bytes[0] == 36 {
        from_str_radix(bytes, 1, 16, 65535)
    } else {
        assert(bytes@.subrange(0, bytes@.len() as int) =~= bytes@);
        from_str_radix(bytes, 0, 10, 65535)
    };
    match r {
        Ok(v) => Ok(v as u16),
        Err(e) => Err(e),
    }
}

/// Parse a debugger number: `0x1F` and `$1F` are hexadecimal, `31` decimal.
pub fn parse_number(string: &str) -> (r: Result<u16, ParseNumberError>)
    ensures
        r == spec_parse_number(string.spec_bytes()),
{
    parse_number_bytes(string.as_bytes())
}

/// The pieces of `s[start..]` between single spaces, scanning on from `i`
/// (the pieces `str::split(" ")` gives: two spaces in a row give an empty
/// piece).
pub open spec fn split_from(s: Seq<u8>, start: int, i: int) -> Seq<Seq<u8>>
    decreases s.len() - i,
{
    if i >= s.len() {
        seq![s.subrange(start, s.len() as int)]
    } else if s[i] == 32 {
        seq![s.subrange(start, i)] + split_from(s, i + 1, i + 1)
    } else {
        split_from(s, start, i + 1)
    }
}

/// The words of a command line, split at each space.
pub open spec fn words_of(s: Seq<u8>) -> Seq<Seq<u8>> {
    split_from(s, 0, 0)
}

/// The views of a list of words.
pub open spec fn words_view(words: Seq<Vec<u8>>) -> Seq<Seq<u8>> {
    Seq::new(words.len(), |k: int| words[k]@)
}

/// Split a command line at each space.
pub fn split_words(b: &[u8]) -> (words: Vec<Vec<u8>>)
    ensures
        words_view(words@) == words_of(b@),
        words@.len() >= 1,
{
    let mut words: Vec<Vec<u8>> = Vec::new();
    let len = b.len();
    let mut start: usize = 0;
    let mut i: usize = 0;
    while i < len
        invariant
            start <= i <= len,
            len == b@.len(),
            words_view(words@) + split_from(b@, start as int, i as int) == words_of(b@),
        decreases len - i,
    {
        if b[i] == 32 {
            let piece = vstd::slice::slice_to_vec(vstd::slice::slice_subrange(b, start, i));
            let ghost before = words_view(words@);
            words.push(piece);
            proof {
                assert(words_view(words@) =~= before.push(piece@));
                assert(split_from(b@, start as int, i as int) == seq![b@.subrange(start as int, i as int)]
                    + split_from(b@, i + 1, i + 1));
                assert(before + split_from(b@, start as int, i as int) =~= words_view(words@) + split_from(
                    b@,
                    i + 1,
                    i + 1,
                ));
            }
            start = i + 1;
        } else {
            assert(split_from(b@, start as int, i as int) == split_from(b@, start as int, i + 1));
        }
        i += 1;
    }
    let piece = vstd::slice::slice_to_vec(vstd::slice::slice_subrange(b, start, len));
    let ghost before = words_view(words@);
    words.push(piece);
    proof {
        assert(words_view(words@) =~= before.push(piece@));
        assert(split_from(b@, start as int, len as int) == seq![b@.subrange(start as int, len as int)]);
        assert(before + split_from(b@, start as int, len as int) =~= words_view(words@));
    }
    words
}

/// Whether a word is the name `name`.
pub open spec fn is_word(w: Seq<u8>, name: &str) -> bool {
    w == name.spec_bytes()
}

/// Compare a word with a command name.
pub fn word_is(w: &Vec<u8>, name: &str) -> (r: bool)
    ensures
        r == is_word(w@, name),
{
    let nb = name.as_bytes();
    if w.len() != nb.len() {
        return false;
    }
    let mut i: usize = 0;
    while i < w.len()
        invariant
            i <= w@.len(),
            w@.len() == nb@.len(),
            nb@ == name.spec_bytes(),
            forall|k: int| 0 <= k < i ==> w@[k] == nb@[k],
        decreases w@.len() - i,
    {
        if w[i] != nb[i] {
            return false;
        }
        i += 1;
    }
    assert(w@ =~= nb@);
    true
}

/// The message for a number that could not be parsed.
pub open spec fn parse_error_message(e: ParseNumberError) -> Seq<char> {
    match e {
        ParseNumberError::Empty => "Unable to parse the specified address, cannot parse integer from empty string"@,
        ParseNumberError::InvalidDigit => "Unable to parse the specified address, invalid digit found in string"@,
        ParseNumberError::PosOverflow => "Unable to parse the specified address, number too large to fit in target type"@,
    }
}

/// The message for a number that could not be parsed.
pub fn parse_error(e: ParseNumberError) -> (cmd: CommandType)
    ensures
        cmd matches CommandType::Error(m) && m@ == parse_error_message(e),
{
    match e {
        ParseNumberError::Empty => CommandType::Error(
            "Unable to parse the specified address, cannot parse integer from empty string".to_owned(),
        ),
        ParseNumberError::InvalidDigit => CommandType::Error(
            "Unable to parse the specified address, invalid digit found in string".to_owned(),
        ),
        ParseNumberError::PosOverflow => CommandType::Error(
            "Unable to parse the specified address, number too large to fit in target type".to_owned(),
        ),
    }
}

pub open spec fn is_quit(k: Seq<u8>) -> bool {
    is_word(k, "quit") || is_word(k, "stop") || is_word(k, "exit") || is_word(k, "q")
}

pub open spec fn is_step(k: Seq<u8>) -> bool {
    is_word(k, "step") || is_word(k, "s")
}

pub open spec fn is_breakpoint(k: Seq<u8>) -> bool {
    is_word(k, "breakpoint") || is_word(k, "br")
}

pub open spec fn is_regs(k: Seq<u8>) -> bool {
    is_word(k, "regs") || is_word(k, "r") || is_word(k, "printregs")
}

pub open spec fn is_mem(k: Seq<u8>) -> bool {
    is_word(k, "mem") || is_word(k, "m") || is_word(k, "printmem") || is_word(k, "inspect")
}

pub open spec fn is_steps(k: Seq<u8>) -> bool {
    is_word(k, "steps") || is_word(k, "printsteps") || is_word(k, "stepcount")
}

pub open spec fn is_verbose(k: Seq<u8>) -> bool {
    is_word(k, "verbose") || is_word(k, "v") || is_word(k, "toggleverbose")
}

pub open spec fn is_tracking(k: Seq<u8>) -> bool {
    is_word(k, "instrtracking") || is_word(k, "it") || is_word(k, "trackinstr") || is_word(k, "trackunique")
}

pub open spec fn is_unique(k: Seq<u8>) -> bool {
    is_word(k, "unique") || is_word(k, "uniqueinstr") || is_word(k, "ui") || is_word(k, "listinstr")
}

pub open spec fn is_toggle_breakpoints(k: Seq<u8>) -> bool {
    is_word(k, "togglebreakpoints") || is_word(k, "tb") || is_word(k, "toggleb") || is_word(k, "tbreakpoints")
        || is_word(k, "tbreak") || is_word(k, "breakpoints")
}

pub open spec fn is_state(k: Seq<u8>) -> bool {
    is_word(k, "state") || is_word(k, "completestate")
}

/// Whether a command line can be parsed: a step count, when given, is a
/// 64-bit decimal number.
pub open spec fn command_ok(s: Seq<u8>) -> bool {
    let w = words_of(s);
    !is_quit(w[0]) && is_step(w[0]) && w.len() > 1 ==> spec_from_str_radix(w[1], 10, u64::MAX as int) is Ok
}

/// The command a line gives: its first word names it, and the next words
/// are its arguments.
pub open spec fn command_of(s: Seq<u8>, cmd: CommandType) -> bool {
    let w = words_of(s);
    let k = w[0];
    let n = w.len();
    if is_quit(k) {
        cmd is Quit
    } else if is_step(k) {
        if n > 1 {
            spec_from_str_radix(w[1], 10, u64::MAX as int) matches Ok(v) && cmd == CommandType::Step(v as u64)
        } else {
            cmd == CommandType::Step(1)
        }
    } else if is_word(k, "run") {
        cmd is Run
    } else if is_breakpoint(k) {
        if n > 1 {
            match spec_parse_number(w[1]) {
                Ok(a) => cmd == CommandType::Breakpoint(Some(a)),
                Err(e) => cmd matches CommandType::Error(m) && m@ == parse_error_message(e),
            }
        } else {
            cmd == CommandType::Breakpoint(None)
        }
    } else if is_regs(k) {
        cmd is PrintRegs
    } else if is_mem(k) {
        if n > 1 {
            if n > 2 && spec_parse_number(w[2]) is Err {
                cmd matches CommandType::Error(m) && m@ == parse_error_message(spec_parse_number(w[2])->Err_0)
            } else {
                let range: u16 = if n > 2 {
                    spec_parse_number(w[2])->Ok_0
                } else {
                    1
                };
                match spec_parse_number(w[1]) {
                    Ok(a) => cmd == CommandType::PrintMem(a, range),
                    Err(e) => cmd matches CommandType::Error(m) && m@ == parse_error_message(e),
                }
            }
        } else {
            cmd matches CommandType::Error(m) && m@ == "Please specify a memory address to inspect"@
        }
    } else if is_steps(k) {
        cmd is PrintSteps
    } else if is_verbose(k) {
        cmd is ToggleVerbose
    } else if is_tracking(k) {
        cmd is ToggleInstrTracking
    } else if is_unique(k) {
        cmd is PrintUniqueInstrs
    } else if is_toggle_breakpoints(k) {
        cmd is ToggleBreakpoints
    } else if is_state(k) {
        cmd is PrintEmulatorState
    } else {
        cmd matches CommandType::Error(m) && m@ == "Unknown command specified"@
    }
}

/// Parse a debugger command line.
pub fn parse_command(line: &str) -> (cmd: CommandType)
    requires
        command_ok(line.spec_bytes()),
    ensures
        command_of(line.spec_bytes(), cmd),
{
    let words = split_words(line.as_bytes());
    let ghost w = words_of(line.spec_bytes());
    assert(words@[0]@ == w[0]);
    let n = words.len();
    let k = &words[0];
    if word_is(k, "quit") || word_is(k, "stop") || word_is(k, "exit") || word_is(k, "q") {
        CommandType::Quit
    } else if word_is(k, "step") || word_is(k, "s") {
        if n > 1 {
            assert(words@[1]@ == w[1]);
            assert(words@[1]@.subrange(0, words@[1]@.len() as int) =~= words@[1]@);
            match from_str_radix(words[1].as_slice(), 0, 10, u64::MAX) {
                Ok(v) => CommandType::Step(v),
                Err(_) => {
                    proof {
                        assert(false);
                    }
                    CommandType::Step(1)
                },
            }
        } else {
            CommandType::Step(1)
        }
    } else if word_is(k, "run") {
        CommandType::Run
    } else if word_is(k, "breakpoint") || word_is(k, "br") {
        if n > 1 {
            assert(words@[1]@ == w[1]);
            match parse_number_bytes(words[1].as_slice()) {
                Ok(a) => CommandType::Breakpoint(Some(a)),
                Err(e) => parse_error(e),
            }
        } else {
            CommandType::Breakpoint(None)
        }
    } else if word_is(k, "regs") || word_is(k, "r") || word_is(k, "printregs") {
        CommandType::PrintRegs
    } else if word_is(k, "mem") || word_is(k, "m") || word_is(k, "printmem") || word_is(k, "inspect") {
        if n > 1 {
            assert(words@[1]@ == w[1]);
            let range: u16 = if n > 2 {
                assert(words@[2]@ == w[2]);
                match parse_number_bytes(words[2].as_slice()) {
                    Ok(range) => range,
                    Err(e) => {
                        return parse_error(e);
                    },
                }
            } else {
                1
            };
            match parse_number_bytes(words[1].as_slice()) {
                Ok(address) => CommandType::PrintMem(address, range),
                Err(e) => parse_error(e),
            }
        } else {
            CommandType::Error("Please specify a memory address to inspect".to_owned())
        }
    } else if word_is(k, "steps") || word_is(k, "printsteps") || word_is(k, "stepcount") {
        CommandType::PrintSteps
    } else if word_is(k, "verbose") || word_is(k, "v") || word_is(k, "toggleverbose") {
        CommandType::ToggleVerbose
    } else if word_is(k, "instrtracking") || word_is(k, "it") || word_is(k, "trackinstr") || word_is(
        k,
        "trackunique",
    ) {
        CommandType::ToggleInstrTracking
    } else if word_is(k, "unique") || word_is(k, "uniqueinstr") || word_is(k, "ui") || word_is(k, "listinstr") {
        CommandType::PrintUniqueInstrs
    } else if word_is(k, "togglebreakpoints") || word_is(k, "tb") || word_is(k, "toggleb") || word_is(
        k,
        "tbreakpoints",
    ) || word_is(k, "tbreak") || word_is(k, "breakpoints") {
        CommandType::ToggleBreakpoints
    } else if word_is(k, "state") || word_is(k, "completestate") {
        CommandType::PrintEmulatorState
    } else {
        CommandType::Error("Unknown command specified".to_owned())
    }
}

/// Width of the debug image, in pixels.
pub const BITMAP_WIDTH: usize = 768;

/// Height of the debug image, in pixels.
pub const BITMAP_HEIGHT: usize = 512;

/// Bytes of the debug image (3 per pixel).
pub const BITMAP_BYTES: usize = 1179648;

/// Whether pixel `p` of the debug image lies on the cross of `outline_cross_bitmap`.
pub open spec fn on_cross(p: int, width: int, center_x: int, center_y: int, x_offset: int, y_offset: int) -> bool {
    let row = p / 768;
    let col = p % 768;
    (col == center_x + x_offset && y_offset <= row < y_offset + width) || (row == center_y + y_offset && x_offset
        <= col < x_offset + width)
}

/// The debug image with a cross drawn in black.
pub open spec fn cross_painted(
    bm: Seq<u8>,
    width: int,
    center_x: int,
    center_y: int,
    x_offset: int,
    y_offset: int,
) -> Seq<u8> {
    Seq::new(
        bm.len(),
        |k: int|
            if on_cross(k / 3, width, center_x, center_y, x_offset, y_offset) {
                0u8
            } else {
                bm[k]
            },
    )
}

/// Draw a black cross: a vertical line at column `center_x` and a horizontal
/// line at row `center_y`, both `width` pixels long, inside the square whose
/// top left corner is (`x_offset`, `y_offset`).
pub fn outline_cross_bitmap(
    bitmap: &mut Vec<u8>,
    width: usize,
    center_x: usize,
    center_y: usize,
    x_offset: usize,
    y_offset: usize,
)
    requires
        old(bitmap)@.len() == BITMAP_BYTES,
        center_x + x_offset < 768,
        x_offset + width <= 768,
        y_offset + width <= 512,
        center_y + y_offset < 512,
    ensures
        final(bitmap)@ == cross_painted(
            old(bitmap)@,
            width as int,
            center_x as int,
            center_y as int,
            x_offset as int,
            y_offset as int,
        ),
{
    let ghost b0 = bitmap@;
    let mut i: usize = 0;
    while i < width
        invariant
            i <= width,
            bitmap@.len() == BITMAP_BYTES,
            b0.len() == BITMAP_BYTES,
            center_x + x_offset < 768,
            x_offset + width <= 768,
            y_offset + width <= 512,
            center_y + y_offset < 512,
            forall|k: int|
                0 <= k < BITMAP_BYTES ==> #[trigger] bitmap@[k] == if on_cross(
                    k / 3,
                    i as int,
                    center_x as int,
                    center_y as int,
                    x_offset as int,
                    y_offset as int,
                ) {
                    0u8
                } else {
                    b0[k]
                },
        decreases width - i,
    {
        let bix = i * 3 * BITMAP_WIDTH + center_x * 3 + x_offset * 3 + y_offset * BITMAP_WIDTH * 3;
        bitmap.set(bix + 0, 0);
        bitmap.set(bix + 1, 0);
        bitmap.set(bix + 2, 0);
        let biy = center_y * 3 * BITMAP_WIDTH + i * 3 + x_offset * 3 + y_offset * BITMAP_WIDTH * 3;
        bitmap.set(biy + 0, 0);
        bitmap.set(biy + 1, 0);
        bitmap.set(biy + 2, 0);
        proof {
            let pv = (i + y_offset) * 768 + center_x + x_offset;
            let ph = (center_y + y_offset) * 768 + i + x_offset;
            assert(bix == 3 * pv);
            assert(biy == 3 * ph);
            assert forall|k: int| 0 <= k < BITMAP_BYTES implies #[trigger] bitmap@[k] == if on_cross(
                k / 3,
                i + 1,
                center_x as int,
                center_y as int,
                x_offset as int,
                y_offset as int,
            ) {
                0u8
            } else {
                b0[k]
            } by {
                let p = k / 3;
                if k / 3 == pv {
                    assert(p / 768 == i + y_offset);
                    assert(p % 768 == center_x + x_offset);
                } else if k / 3 == ph {
                    assert(p / 768 == center_y + y_offset);
                    assert(p % 768 == i + x_offset);
                } else {
                    if p % 768 == center_x + x_offset && p / 768 == i + y_offset {
                        assert(p == pv);
                    }
                    if p / 768 == center_y + y_offset && p % 768 == i + x_offset {
                        assert(p == ph);
                    }
                }
            }
        }
        i += 1;
    }
    assert(bitmap@ =~= cross_painted(
        b0,
        width as int,
        center_x as int,
        center_y as int,
        x_offset as int,
        y_offset as int,
    ));
}

/// The drawing order of a pixel at (`r`, `c`) of a block of tiles, `t` tiles
/// wide: tile by tile in rows, and row by row inside a tile.
pub open spec fn block_order(r: int, c: int, t: int) -> int {
    ((r / 8) * t + c / 8) * 64 + (r % 8) * 8 + c % 8
}

/// The debug image with the pixels of a `t` x `t` tile block at (`xo`, `yo`)
/// colored by `f` (given the row and column inside the block), for the
/// pixels that come before `n` in drawing order.
pub open spec fn block_painted(
    bm: Seq<u8>,
    xo: int,
    yo: int,
    t: int,
    n: int,
    f: spec_fn(int, int) -> Color,
) -> Seq<u8> {
    Seq::new(
        bm.len(),
        |k: int|
            {
                let p = k / 3;
                let r = p / 768 - yo;
                let c = p % 768 - xo;
                if 0 <= r < t * 8 && 0 <= c < t * 8 && block_order(r, c, t) < n {
                    channel(f(r, c), k % 3)
                } else {
                    bm[k]
                }
            },
    )
}

/// Drawing the pixel at (`ty * 8 + y`, `tx * 8 + x`) of a block sets its three
/// bytes, and it is the pixel that comes next in drawing order.
proof fn lemma_block_step(
    bm: Seq<u8>,
    xo: int,
    yo: int,
    t: int,
    f: spec_fn(int, int) -> Color,
    ty: int,
    tx: int,
    y: int,
    x: int,
)
    requires
        t == 16 || t == 32,
        0 <= ty < t,
        0 <= tx < t,
        0 <= y < 8,
        0 <= x < 8,
        0 <= xo,
        xo + t * 8 <= 768,
        0 <= yo,
        yo + t * 8 <= 512,
        bm.len() == 1179648,
    ensures
        ({
            let n = (ty * t + tx) * 64 + y * 8 + x;
            let i = (yo + ty * 8 + y) * 768 + xo + tx * 8 + x;
            let col = f(ty * 8 + y, tx * 8 + x);
            &&& 0 <= 3 * i && 3 * i + 2 < 1179648
            &&& block_painted(bm, xo, yo, t, n + 1, f) == block_painted(bm, xo, yo, t, n, f).update(
                3 * i,
                col.r,
            ).update(3 * i + 1, col.g).update(3 * i + 2, col.b)
        }),
{
    let n = (ty * t + tx) * 64 + y * 8 + x;
    let i = (yo + ty * 8 + y) * 768 + xo + tx * 8 + x;
    let col = f(ty * 8 + y, tx * 8 + x);
    let lhs = block_painted(bm, xo, yo, t, n + 1, f);
    let rhs = block_painted(bm, xo, yo, t, n, f).update(3 * i, col.r).update(3 * i + 1, col.g).update(
        3 * i + 2,
        col.b,
    );
    assert(0 <= i < 512 * 768) by (nonlinear_arith)
        requires
            i == (yo + ty * 8 + y) * 768 + xo + tx * 8 + x,
            0 <= yo + ty * 8 + y < 512,
            0 <= xo + tx * 8 + x < 768,
    ;
    assert forall|k: int| 0 <= k < 1179648 implies #[trigger] lhs[k] == rhs[k] by {
        let p = k / 3;
        let r = p / 768 - yo;
        let c = p % 768 - xo;
        if 3 * i <= k < 3 * i + 3 {
            assert(p == i);
            assert(p / 768 == yo + ty * 8 + y);
            assert(p % 768 == xo + tx * 8 + x);
            assert(r / 8 == ty && r % 8 == y);
            assert(c / 8 == tx && c % 8 == x);
            assert(k % 3 == k - 3 * i);
        } else if 0 <= r < t * 8 && 0 <= c < t * 8 {
            assert(p != i);
            assert(p == (yo + r) * 768 + xo + c);
            assert(block_order(r, c, t) != n) by {
                if block_order(r, c, t) == n {
                    assert(r % 8 == y && c % 8 == x);
                    assert((r / 8) * t + c / 8 == ty * t + tx);
                    assert(r / 8 == ty && c / 8 == tx) by (nonlinear_arith)
                        requires
                            (r / 8) * t + c / 8 == ty * t + tx,
                            0 <= c / 8 < t,
                            0 <= tx < t,
                            0 <= r / 8,
                            0 <= ty,
                    ;
                }
            }
        }
    }
    assert(lhs =~= rhs);
}

/// The colors of the 256 tiles of a tile data area, 16 to a row, as
/// `draw_tiledata` draws them.
pub open spec fn tiledata_colors(gpu: &GPU, tiledata_select: bool) -> spec_fn(int, int) -> Color {
    |r: int, c: int| gpu.draw_helper.bg_pixel(((r / 8) * 16 + c / 8) as u8, c % 8, r % 8, tiledata_select)
}

/// The colors of a 32x32 tile map, as `draw_tilemap` draws it.
pub open spec fn tilemap_colors(gpu: &GPU, tilemap_select: bool, tiledata_select: bool) -> spec_fn(int, int) -> Color {
    |r: int, c: int|
        gpu.draw_helper.bg_pixel(
            tilemap_entry(gpu.video_ram@, c / 8, r / 8, tilemap_select),
            c % 8,
            r % 8,
            tiledata_select,
        )
}

/// Draw the 256 tiles of a tile data area into the debug image, 16 to a row,
/// with the top left corner at (`x_offset`, `y_offset`).
#[verifier::spinoff_prover]
pub fn draw_tiledata(gpu: &GPU, bitmap: &mut Vec<u8>, tiledata_select: bool, x_offset: usize, y_offset: usize)
    requires
        gpu.draw_helper.tile_data.wf(),
        old(bitmap)@.len() == BITMAP_BYTES,
        x_offset + 128 <= 768,
        y_offset + 128 <= 512,
    ensures
        final(bitmap)@ == block_painted(
            old(bitmap)@,
            x_offset as int,
            y_offset as int,
            16,
            16384,
            tiledata_colors(gpu, tiledata_select),
        ),
{
    let ghost b0 = bitmap@;
    let ghost f = tiledata_colors(gpu, tiledata_select);
    let mut tile_id: usize = 0;
    while tile_id < 256
        invariant
            tile_id <= 256,
            gpu.draw_helper.tile_data.wf(),
            bitmap@.len() == BITMAP_BYTES,
            b0.len() == BITMAP_BYTES,
            x_offset + 128 <= 768,
            y_offset + 128 <= 512,
            f == tiledata_colors(gpu, tiledata_select),
            bitmap@ == block_painted(b0, x_offset as int, y_offset as int, 16, tile_id * 64, f),
        decreases 256 - tile_id,
    {
        let mut y: usize = 0;
        while y < 8
            invariant
                tile_id < 256,
                y <= 8,
                gpu.draw_helper.tile_data.wf(),
                bitmap@.len() == BITMAP_BYTES,
                b0.len() == BITMAP_BYTES,
                x_offset + 128 <= 768,
                y_offset + 128 <= 512,
                f == tiledata_colors(gpu, tiledata_select),
                bitmap@ == block_painted(b0, x_offset as int, y_offset as int, 16, tile_id * 64 + y * 8, f),
            decreases 8 - y,
        {
            let mut x: usize = 0;
            while x < 8
                invariant
                    tile_id < 256,
                    y < 8,
                    x <= 8,
                    gpu.draw_helper.tile_data.wf(),
                    bitmap@.len() == BITMAP_BYTES,
                    b0.len() == BITMAP_BYTES,
                    x_offset + 128 <= 768,
                    y_offset + 128 <= 512,
                    f == tiledata_colors(gpu, tiledata_select),
                    bitmap@ == block_painted(
                        b0,
                        x_offset as int,
                        y_offset as int,
                        16,
                        tile_id * 64 + y * 8 + x,
                        f,
                    ),
                decreases 8 - x,
            {
                let color = gpu.draw_helper.get_bg_tile_pixel(tile_id as u8, x, y, tiledata_select);
                let tile_x = tile_id % 16;
                let tile_y = tile_id / 16;
                let i = tile_y * 8 * BITMAP_WIDTH + y * BITMAP_WIDTH + y_offset * BITMAP_WIDTH + tile_x * 8 + x
                    + x_offset;
                proof {
                    assert(tile_id == tile_y * 16 + tile_x);
                    lemma_block_step(
                        b0,
                        x_offset as int,
                        y_offset as int,
                        16,
                        f,
                        tile_y as int,
                        tile_x as int,
                        y as int,
                        x as int,
                    );
                    assert(i == (y_offset + tile_y * 8 + y) * 768 + x_offset + tile_x * 8 + x);
                    let r = tile_y * 8 + y;
                    let c = tile_x * 8 + x;
                    assert(r / 8 == tile_y && r % 8 == y && c / 8 == tile_x && c % 8 == x);
                    assert(color == f(r, c));
                }
                bitmap.set(i * 3 + 0, color.r);
                bitmap.set(i * 3 + 1, color.g);
                bitmap.set(i * 3 + 2, color.b);
                x += 1;
            }
            y += 1;
        }
        tile_id += 1;
    }
}

/// Draw a 32x32 tile map into the debug image with the top left corner at
/// (`x_offset`, `y_offset`).
pub fn draw_tilemap(
    gpu: &GPU,
    bitmap: &mut Vec<u8>,
    tilemap_select: bool,
    tiledata_select: bool,
    x_offset: usize,
    y_offset: usize,
)
    requires
        gpu.draw_helper.tile_data.wf(),
        old(bitmap)@.len() == BITMAP_BYTES,
        x_offset + 256 <= 768,
        y_offset + 256 <= 512,
    ensures
        final(bitmap)@ == block_painted(
            old(bitmap)@,
            x_offset as int,
            y_offset as int,
            32,
            65536,
            tilemap_colors(gpu, tilemap_select, tiledata_select),
        ),
{
    let ghost b0 = bitmap@;
    let ghost f = tilemap_colors(gpu, tilemap_select, tiledata_select);
    let mut y: usize = 0;
    while y < 32
        invariant
            y <= 32,
            gpu.draw_helper.tile_data.wf(),
            bitmap@.len() == BITMAP_BYTES,
            b0.len() == BITMAP_BYTES,
            x_offset + 256 <= 768,
            y_offset + 256 <= 512,
            f == tilemap_colors(gpu, tilemap_select, tiledata_select),
            bitmap@ == block_painted(b0, x_offset as int, y_offset as int, 32, y * 32 * 64, f),
        decreases 32 - y,
    {
        let mut x: usize = 0;
        while x < 32
            invariant
                y < 32,
                x <= 32,
                gpu.draw_helper.tile_data.wf(),
                bitmap@.len() == BITMAP_BYTES,
                b0.len() == BITMAP_BYTES,
                x_offset + 256 <= 768,
                y_offset + 256 <= 512,
                f == tilemap_colors(gpu, tilemap_select, tiledata_select),
                bitmap@ == block_painted(b0, x_offset as int, y_offset as int, 32, (y * 32 + x) * 64, f),
            decreases 32 - x,
        {
            let tile_id = gpu.get_tilemap_id(x, y, tilemap_select);
            let mut ty: usize = 0;
            while ty < 8
                invariant
                    y < 32,
                    x < 32,
                    ty <= 8,
                    gpu.draw_helper.tile_data.wf(),
                    bitmap@.len() == BITMAP_BYTES,
                    b0.len() == BITMAP_BYTES,
                    x_offset + 256 <= 768,
                    y_offset + 256 <= 512,
                    f == tilemap_colors(gpu, tilemap_select, tiledata_select),
                    tile_id == tilemap_entry(gpu.video_ram@, x as int, y as int, tilemap_select),
                    bitmap@ == block_painted(
                        b0,
                        x_offset as int,
                        y_offset as int,
                        32,
                        (y * 32 + x) * 64 + ty * 8,
                        f,
                    ),
                decreases 8 - ty,
            {
                let mut tx: usize = 0;
                while tx < 8
                    invariant
                        y < 32,
                        x < 32,
                        ty < 8,
                        tx <= 8,
                        gpu.draw_helper.tile_data.wf(),
                        bitmap@.len() == BITMAP_BYTES,
                        b0.len() == BITMAP_BYTES,
                        x_offset + 256 <= 768,
                        y_offset + 256 <= 512,
                        f == tilemap_colors(gpu, tilemap_select, tiledata_select),
                        tile_id == tilemap_entry(gpu.video_ram@, x as int, y as int, tilemap_select),
                        bitmap@ == block_painted(
                            b0,
                            x_offset as int,
                            y_offset as int,
                            32,
                            (y * 32 + x) * 64 + ty * 8 + tx,
                            f,
                        ),
                    decreases 8 - tx,
                {
                    let color = gpu.draw_helper.get_bg_tile_pixel(tile_id, tx, ty, tiledata_select);
                    let i = y * 8 * BITMAP_WIDTH + ty * BITMAP_WIDTH + y_offset * BITMAP_WIDTH + x * 8 + tx + x_offset;
                    proof {
                        lemma_block_step(
                            b0,
                            x_offset as int,
                            y_offset as int,
                            32,
                            f,
                            y as int,
                            x as int,
                            ty as int,
                            tx as int,
                        );
                        assert(i == (y_offset + y * 8 + ty) * 768 + x_offset + x * 8 + tx);
                        let r = y * 8 + ty;
                        let c = x * 8 + tx;
                        assert(r / 8 == y && r % 8 == ty && c / 8 == x && c % 8 == tx);
                        assert(color == f(r, c));
                    }
                    bitmap.set(i * 3 + 0, color.r);
                    bitmap.set(i * 3 + 1, color.g);
                    bitmap.set(i * 3 + 2, color.b);
                    tx += 1;
                }
                ty += 1;
            }
            x += 1;
        }
        y += 1;
    }
}

/// The debug image of the graphics state: both tile data areas on the left
/// (the 0x8800 area above the 0x8000 one), the four combinations of tile map
/// and tile data in the middle and on the right, and black crosses between
/// the quarters.
pub open spec fn gpu_state_image(gpu: &GPU) -> Seq<u8> {
    let b0 = Seq::new(1179648, |k: int| 255u8);
    let b1 = block_painted(b0, 0, 0, 16, 16384, tiledata_colors(gpu, false));
    let b2 = block_painted(b1, 0, 127, 16, 16384, tiledata_colors(gpu, true));
    let b3 = block_painted(b2, 256, 0, 32, 65536, tilemap_colors(gpu, true, true));
    let b4 = block_painted(b3, 256, 256, 32, 65536, tilemap_colors(gpu, false, true));
    let b5 = block_painted(b4, 512, 0, 32, 65536, tilemap_colors(gpu, true, false));
    let b6 = block_painted(b5, 512, 256, 32, 65536, tilemap_colors(gpu, false, false));
    let b7 = cross_painted(b6, 512, 256, 256, 0, 0);
    let b8 = cross_painted(b7, 512, 256, 256, 256, 0);
    cross_painted(b8, 256, 128, 128, 0, 0)
}

/// Draw the graphics state as a 768x512 RGB image.
pub fn gpu_state_dump(gpu: &GPU) -> (bitmap: Vec<u8>)
    requires
        gpu.draw_helper.tile_data.wf(),
    ensures
        bitmap@ == gpu_state_image(gpu),
{
    let mut bitmap: Vec<u8> = vec![255; BITMAP_WIDTH * BITMAP_HEIGHT * 3];
    assert(bitmap@ =~= Seq::new(1179648, |k: int| 255u8));
    draw_tiledata(gpu, &mut bitmap, false, 0, 0);
    draw_tiledata(gpu, &mut bitmap, true, 0, 127);
    draw_tilemap(gpu, &mut bitmap, true, true, 256, 0);
    draw_tilemap(gpu, &mut bitmap, false, true, 256, 256);
    draw_tilemap(gpu, &mut bitmap, true, false, 512, 0);
    draw_tilemap(gpu, &mut bitmap, false, false, 512, 256);
    outline_cross_bitmap(&mut bitmap, 512, 256, 256, 0, 0);
    outline_cross_bitmap(&mut bitmap, 512, 256, 256, 256, 0);
    outline_cross_bitmap(&mut bitmap, 256, 128, 128, 0, 0);
    bitmap
}

/// The machine after `k` steps from `m` (kept folded in proofs that do not
/// need the instructions' meaning).
#[verifier::opaque]
pub open spec fn after_steps(m: Machine, k: nat) -> Machine {
    run_spec(m, k)
}

/// One more step, and a run that ends normally ran normally before.
proof fn lemma_after_steps(m: Machine, i: nat, n: nat)
    requires
        i < n,
        after_steps(m, n).ok,
    ensures
        after_steps(m, i + 1) == cycle_spec(after_steps(m, i)),
        after_steps(m, i + 1).ok,
{
    reveal(after_steps);
    lemma_run_step(m, i);
    lemma_run_prefix_ok(m, i + 1, n);
}

/// The byte at the program counter after `k` steps from `m`: the next
/// instruction the debugger looks at.
pub open spec fn next_instr(m: Machine, k: nat) -> u8 {
    let mk = after_steps(m, k);
    mk.mem.read(mk.regs.pc)
}

/// Whether the run from `m` stops at a breakpoint after step `k`: with
/// breakpoints in use, the next instruction is `LD B, B` (0x40) or the
/// program counter is in the breakpoint set.
pub open spec fn breaks_at(m: Machine, k: nat, use_breakpoints: bool, breakpoints: Set<u16>) -> bool {
    use_breakpoints && (next_instr(m, k) == 0x40 || breakpoints.contains(after_steps(m, k).regs.pc))
}

/// Whether the first `n` debugger steps from `m` can run: each runs normally
/// and the byte at the program counter after it can be read. A run needs this
/// up to the step it stops after.
pub open spec fn debug_steps_ok(m: Machine, n: nat) -> bool {
    &&& after_steps(m, n).ok
    &&& forall|k: nat| 1 <= k <= n ==> #[trigger] after_steps(m, k).mem.read_ok(after_steps(m, k).regs.pc)
}

/// The number of steps after which a run of at most `n` steps, `j` of which
/// are done, stops: at the first breakpoint after step `j`, else after `n`.
pub open spec fn stop_from(m: Machine, j: nat, n: nat, use_breakpoints: bool, breakpoints: Set<u16>) -> nat
    decreases n - j,
{
    if j >= n {
        n
    } else if breaks_at(m, j + 1, use_breakpoints, breakpoints) {
        j + 1
    } else {
        stop_from(m, j + 1, n, use_breakpoints, breakpoints)
    }
}

/// A run with steps left stops after at least one more step and after no
/// more than its length.
proof fn lemma_stop_from_bounds(m: Machine, j: nat, n: nat, use_breakpoints: bool, breakpoints: Set<u16>)
    requires
        j <= n,
    ensures
        j <= stop_from(m, j, n, use_breakpoints, breakpoints) <= n,
        j < n ==> j < stop_from(m, j, n, use_breakpoints, breakpoints),
    decreases n - j,
{
    if j < n && !breaks_at(m, j + 1, use_breakpoints, breakpoints) {
        lemma_stop_from_bounds(m, j + 1, n, use_breakpoints, breakpoints);
    }
}

/// The instructions seen after steps 1 to `k` of a run from `m`.
pub open spec fn seen_instrs(m: Machine, k: nat) -> Set<u8>
    decreases k,
{
    if k == 0 {
        Set::empty()
    } else {
        seen_instrs(m, (k - 1) as nat).insert(next_instr(m, k))
    }
}

/// How many memory lines a print of `range` bytes from `address` shows: no
/// more than there are addresses up to 0xFFFF (counted in 16 bits, so at
/// most 0xFFFF).
pub open spec fn spec_mem_print_count(address: u16, range: u16) -> u16 {
    let room: int = if 0xFFFF - address + 1 > 0xFFFF {
        0xFFFF
    } else {
        0xFFFF - address + 1
    };
    if room < range {
        room as u16
    } else {
        range
    }
}

/// The number of bytes a memory print of `range` bytes from `address` shows.
pub fn mem_print_count(address: u16, range: u16) -> (n: u16)
    ensures
        n == spec_mem_print_count(address, range),
{
    let room: u16 = (0xFFFFu16 - address).saturating_add(1);
    if room < range {
        room
    } else {
        range
    }
}

/// Whether the machine stands at a breakpoint: with breakpoints in use, the
/// next instruction is `LD B, B` (0x40) or the program counter is in the set.
pub fn at_breakpoint(em: &Emulator, state: &DebugState) -> (r: bool)
    requires
        em.memory@.read_ok(em.cpu.regs.pc),
    ensures
        r == (state.use_breakpoints && (em.memory@.read(em.cpu.regs.pc) == 0x40 || state.breakpoints@.contains(
            em.cpu.regs.pc,
        ))),
{
    broadcast use vstd::std_specs::hash::group_hash_axioms;

    let pc = em.cpu.regs.pc;
    state.use_breakpoints && (em.memory.read_byte(pc) == 0x40 || state.breakpoints.contains(&pc))
}

/// The instruction set after a run of `k` steps from `m`, starting from
/// `set` and tracking when `tracking` holds.
pub open spec fn tracked_set(set: Set<u8>, tracking: bool, m: Machine, k: nat) -> Set<u8> {
    if tracking {
        set.union(seen_instrs(m, k))
    } else {
        set
    }
}

/// The steps of a run whose next byte was read: all the steps taken, but
/// the last when the run ended because the byte after it could not be read.
pub open spec fn read_steps(m: Machine, res: Result<u64, u64>) -> nat {
    match res {
        Ok(k) => k as nat,
        Err(k) => if k >= 1 && !after_steps(m, k as nat).mem.read_ok(after_steps(m, k as nat).regs.pc) {
            (k - 1) as nat
        } else {
            k as nat
        },
    }
}

/// The program counter and the next instruction after each of the first `k`
/// steps from `m`.
pub open spec fn trace_of(m: Machine, k: nat) -> Seq<(u16, u8)> {
    Seq::new(k, |j: int| (after_steps(m, (j + 1) as nat).regs.pc, next_instr(m, (j + 1) as nat)))
}

/// What a run of up to `count` debugger steps does from machine `e0` and
/// state `o` to `e1` and `f`, ending with `res`: it stops after the first step
/// that lands on a breakpoint; it ends with `Ok` exactly when every step up to
/// the stop runs normally and its next byte can be read, else with `Err` and
/// the steps taken before the failing check; the machine is that many steps
/// on; the instructions read go into the set when tracking; the rest of the
/// state is kept.
pub open spec fn run_done(e0: Emulator, e1: Emulator, o: DebugState, f: DebugState, count: nat, res: Result<u64, u64>) -> bool {
    let m0 = machine(e0.cpu.regs, e0.memory@);
    let stop = stop_from(m0, 0, count, o.use_breakpoints, o.breakpoints@);
    let steps = match res {
        Ok(k) => k,
        Err(k) => k,
    };
    &&& res is Ok <==> debug_steps_ok(m0, stop)
    &&& res is Ok ==> steps == stop
    &&& steps <= stop
    &&& machine(e1.cpu.regs, e1.memory@) == after_steps(m0, steps as nat)
    &&& f.unique_instr_set@ == tracked_set(o.unique_instr_set@, o.instr_tracking, m0, read_steps(m0, res))
    &&& f.verbose == o.verbose
    &&& f.step_counter == o.step_counter
    &&& f.instr_tracking == o.instr_tracking
    &&& f.use_breakpoints == o.use_breakpoints
    &&& f.breakpoints@ == o.breakpoints@
}

/// Run up to `count` steps, stopping after a step that lands on a breakpoint;
/// with tracking on, the instructions met go into the set. Before each step
/// the step is checked, and after it the byte at the program counter: where a
/// check fails the run ends with `Err` and the steps taken. Returns `Ok` with
/// the steps taken exactly when every step up to the stop runs normally and
/// its next byte can be read.
#[verifier::spinoff_prover]
#[verifier::rlimit(100)]
fn run_debug_steps(em: &mut Emulator, state: &mut DebugState, count: u64, trace: &mut Vec<(u16, u8)>) -> (res: Result<u64, u64>)
    ensures
        run_done(*old(em), *final(em), *old(state), *final(state), count as nat, res),
        final(trace)@ == old(trace)@ + if old(state).verbose {
            trace_of(machine(old(em).cpu.regs, old(em).memory@), read_steps(machine(old(em).cpu.regs, old(em).memory@), res))
        } else {
            Seq::empty()
        },

{
    broadcast use vstd::std_specs::hash::group_hash_axioms;

    let ghost m0 = machine(em.cpu.regs, em.memory@);
    let ghost ub = state.use_breakpoints;
    let ghost bps = state.breakpoints@;
    let ghost set0 = state.unique_instr_set@;
    let ghost stop = stop_from(m0, 0, count as nat, ub, bps);
    let mut i: u64 = 0;
    proof {
        reveal(after_steps);
        lemma_stop_from_bounds(m0, 0, count as nat, ub, bps);
    }
    while i < count
        invariant
            i <= count,
            m0 == machine(old(em).cpu.regs, old(em).memory@),
            stop == stop_from(m0, 0, count as nat, ub, bps),
            stop <= count,
            i <= stop,
            debug_steps_ok(m0, i as nat),
            machine(em.cpu.regs, em.memory@) == after_steps(m0, i as nat),
            stop_from(m0, i as nat, count as nat, ub, bps) == stop,
            state.unique_instr_set@ == tracked_set(set0, state.instr_tracking, m0, i as nat),
            trace@ == old(trace)@ + if state.verbose {
                trace_of(m0, i as nat)
            } else {
                Seq::<(u16, u8)>::empty()
            },
            state.verbose == old(state).verbose,
            state.step_counter == old(state).step_counter,
            state.instr_tracking == old(state).instr_tracking,
            state.use_breakpoints == ub,
            state.breakpoints@ == bps,
            set0 == old(state).unique_instr_set@,
            ub == old(state).use_breakpoints,
            bps == old(state).breakpoints@,
        decreases count - i,
    {
        proof {
            lemma_stop_from_bounds(m0, i as nat, count as nat, ub, bps);
            lemma_after_step_of(m0, i as nat);
        }
        if !em.step_ok() {
            proof {
                lemma_steps_fail(m0, (i + 1) as nat, stop);
            }
            return Err(i);
        }
        em.step();
        let ghost iold = i;
        i = i + 1;
        proof {
            lemma_steps_ok_extend(m0, iold as nat);
        }
        let pc = em.cpu.regs.pc;
        if !em.memory.can_read(pc) {
            proof {
                lemma_steps_unreadable(m0, i as nat, stop);
            }
            return Err(i);
        }
        let next = em.memory.read_byte(pc);
        assert(next == next_instr(m0, i as nat));
        assert(debug_steps_ok(m0, i as nat));
        if state.verbose {
            trace.push((pc, next));
            assert(trace_of(m0, i as nat) =~= trace_of(m0, iold as nat).push((pc, next)));
        }
        if state.instr_tracking {
            state.unique_instr_set.insert(next);
            assert(state.unique_instr_set@ =~= set0.union(seen_instrs(m0, i as nat)));
        }
        if state.use_breakpoints && (next == 0x40 || state.breakpoints.contains(&pc)) {
            assert(breaks_at(m0, i as nat, ub, bps));
            assert(stop_from(m0, iold as nat, count as nat, ub, bps) == i);
            return Ok(i);
        }
        assert(!breaks_at(m0, i as nat, ub, bps));
        assert(stop_from(m0, iold as nat, count as nat, ub, bps) == stop_from(m0, i as nat, count as nat, ub, bps));
    }
    Ok(i)
}

/// One more step: the state after `i + 1` steps is one cycle after `i` steps.
proof fn lemma_after_step_of(m: Machine, i: nat)
    ensures
        after_steps(m, i + 1) == cycle_spec(after_steps(m, i)),
{
    reveal(after_steps);
    lemma_run_step(m, i);
}

/// Steps that ran normally up to `i`, and a normal step `i + 1` with a
/// readable next byte, make the steps up to `i + 1` run normally.
proof fn lemma_steps_ok_extend(m: Machine, i: nat)
    requires
        debug_steps_ok(m, i),
        after_steps(m, i + 1).ok,
    ensures
        after_steps(m, i + 1).ok,
{
}

/// A step that does not run normally spoils every longer run.
proof fn lemma_steps_fail(m: Machine, k: nat, n: nat)
    requires
        k <= n,
        !after_steps(m, k).ok,
    ensures
        !debug_steps_ok(m, n),
{
    reveal(after_steps);
    if run_spec(m, n).ok {
        lemma_run_prefix_ok(m, k, n);
    }
}

/// An unreadable byte after step `k` spoils every run of at least `k` steps.
proof fn lemma_steps_unreadable(m: Machine, k: nat, n: nat)
    requires
        1 <= k <= n,
        !after_steps(m, k).mem.read_ok(after_steps(m, k).regs.pc),
    ensures
        !debug_steps_ok(m, n),
{
}

/// What a debugger command does: the machine `e0` and state `o` become `e1`
/// and `f`, and `steps` steps were run.
pub open spec fn command_done(cmd: CommandType, e0: Emulator, e1: Emulator, o: DebugState, f: DebugState, steps: u64) -> bool {
    let m0 = machine(e0.cpu.regs, e0.memory@);
    let ran = |n: nat|
            {
                &&& steps == stop_from(m0, 0, n, o.use_breakpoints, o.breakpoints@)
                &&& machine(e1.cpu.regs, e1.memory@) == after_steps(m0, steps as nat)
                &&& f.unique_instr_set@ == if o.instr_tracking {
                    o.unique_instr_set@.union(seen_instrs(m0, steps as nat))
                } else {
                    o.unique_instr_set@
                }
                &&& f.verbose == o.verbose
                &&& f.instr_tracking == o.instr_tracking
                &&& f.use_breakpoints == o.use_breakpoints
                &&& f.breakpoints@ == o.breakpoints@
            };
        let kept = {
            &&& steps == 0
            &&& e1 == e0
            &&& f.step_counter == o.step_counter
            &&& f.unique_instr_set@ == o.unique_instr_set@
        };
        match cmd {
            CommandType::Step(n) => ran(n as nat) && f.step_counter == o.step_counter + n,
            CommandType::Run => ran(100_000_000) && f.step_counter == o.step_counter,
            CommandType::Breakpoint(a) => {
                &&& kept
                &&& f.breakpoints@ == o.breakpoints@.insert(
                    match a {
                        Some(address) => address,
                        None => e0.cpu.regs.pc,
                    },
                )
                &&& f.verbose == o.verbose
                &&& f.instr_tracking == o.instr_tracking
                &&& f.use_breakpoints == o.use_breakpoints
            },
            CommandType::ToggleVerbose => {
                &&& kept
                &&& f.verbose == !o.verbose
                &&& f.instr_tracking == o.instr_tracking
                &&& f.use_breakpoints == o.use_breakpoints
                &&& f.breakpoints@ == o.breakpoints@
            },
            CommandType::ToggleInstrTracking => {
                &&& kept
                &&& f.verbose == o.verbose
                &&& f.instr_tracking == !o.instr_tracking
                &&& f.use_breakpoints == o.use_breakpoints
                &&& f.breakpoints@ == o.breakpoints@
            },
            CommandType::ToggleBreakpoints => {
                &&& kept
                &&& f.verbose == o.verbose
                &&& f.instr_tracking == o.instr_tracking
                &&& f.use_breakpoints == !o.use_breakpoints
                &&& f.breakpoints@ == o.breakpoints@
            },
            _ => {
                &&& kept
                &&& f.verbose == o.verbose
                &&& f.instr_tracking == o.instr_tracking
                &&& f.use_breakpoints == o.use_breakpoints
                &&& f.breakpoints@ == o.breakpoints@
            },
        }
}

/// Carry out a debugger command on the machine: run steps (stopping at
/// breakpoints), set a breakpoint (at the program counter when no address
/// is given) or toggle a setting. The commands that only print change
/// nothing here. Returns the steps run.
pub fn execute_debug_command(cmd: &CommandType, em: &mut Emulator, state: &mut DebugState) -> (steps: u64)
    requires
        ({
            let m0 = machine(old(em).cpu.regs, old(em).memory@);
            match *cmd {
                CommandType::Step(n) => old(state).step_counter + n <= u64::MAX && debug_steps_ok(
                    m0,
                    stop_from(m0, 0, n as nat, old(state).use_breakpoints, old(state).breakpoints@),
                ),
                CommandType::Run => debug_steps_ok(
                    m0,
                    stop_from(m0, 0, 100_000_000, old(state).use_breakpoints, old(state).breakpoints@),
                ),
                _ => true,
            }
        }),
    ensures
        command_done(*cmd, *old(em), *final(em), *old(state), *final(state), steps),

{
    broadcast use vstd::std_specs::hash::group_hash_axioms;

    match cmd {
        CommandType::Step(step_size) => {
            let n = *step_size;
            let mut trace: Vec<(u16, u8)> = Vec::new();
            let steps = match run_debug_steps(em, state, n, &mut trace) {
                Ok(k) => k,
                Err(k) => k,
            };
            state.step_counter = state.step_counter + n;
            steps
        },
        CommandType::Run => match run_debug_steps(em, state, 100_000_000, &mut Vec::new()) {
            Ok(k) => k,
            Err(k) => k,
        },
        CommandType::Breakpoint(addr_option) => {
            let address = match addr_option {
                Some(address) => *address,
                None => em.cpu.regs.pc,
            };
            state.breakpoints.insert(address);
            0
        },
        CommandType::ToggleVerbose => {
            state.verbose = !state.verbose;
            0
        },
        CommandType::ToggleInstrTracking => {
            state.instr_tracking = !state.instr_tracking;
            0
        },
        CommandType::ToggleBreakpoints => {
            state.use_breakpoints = !state.use_breakpoints;
            0
        },
        _ => 0,
    }
}

/// Carry out a debugger command, checking each step before it runs and the
/// byte after it: a run that comes to an instruction that would not run
/// normally, or to a byte that cannot be read, ends there with `Err` and the
/// steps taken; the step counter then stays as it was. Other commands act as
/// `execute_debug_command` and give `Ok(0)`.
pub fn execute_debug_command_checked(
    cmd: &CommandType,
    em: &mut Emulator,
    state: &mut DebugState,
    trace: &mut Vec<(u16, u8)>,
) -> (r: Result<
    u64,
    u64,
>)
    requires
        match *cmd {
            CommandType::Step(n) => old(state).step_counter + n <= u64::MAX,
            _ => true,
        },
    ensures
        match *cmd {
            CommandType::Step(n) => {
                &&& run_done(*old(em), *final(em), *old(state), (DebugState { step_counter: old(state).step_counter, ..*final(state) }), n as nat, r)
                &&& final(state).step_counter == if r is Ok {
                    old(state).step_counter + n
                } else {
                    old(state).step_counter as int
                }
            },
            CommandType::Run => run_done(*old(em), *final(em), *old(state), *final(state), 100_000_000, r),
            _ => r == Ok::<u64, u64>(0) && command_done(*cmd, *old(em), *final(em), *old(state), *final(state), 0),
        },
        final(trace)@ == old(trace)@ + if old(state).verbose && (*cmd is Step || *cmd is Run) {
            trace_of(machine(old(em).cpu.regs, old(em).memory@), read_steps(machine(old(em).cpu.regs, old(em).memory@), r))
        } else {
            Seq::empty()
        },
{
    match cmd {
        CommandType::Step(step_size) => {
            let n = *step_size;
            let res = run_debug_steps(em, state, n, trace);
            if res.is_ok() {
                state.step_counter = state.step_counter + n;
            }
            res
        },
        CommandType::Run => run_debug_steps(em, state, 100_000_000, trace),
        _ => {
            let steps = execute_debug_command(cmd, em, state);
            Ok(steps)
        },
    }
}

} // verus!
