use lib::debug_helper::{parse_number, DebugState, ParseNumberError};

#[test]
fn parse_number_accepts_hex_and_decimal() {
    assert_eq!(parse_number("0x1F"), Ok(31));
    assert_eq!(parse_number("0xff"), Ok(255));
    assert_eq!(parse_number("$C000"), Ok(0xC000));
    assert_eq!(parse_number("42"), Ok(42));
    assert_eq!(parse_number("+12"), Ok(12));
    assert_eq!(parse_number("65535"), Ok(65535));
    assert_eq!(parse_number("0xFFFF"), Ok(0xFFFF));
}

#[test]
fn parse_number_errors() {
    assert_eq!(parse_number(""), Err(ParseNumberError::Empty));
    assert_eq!(parse_number("0x"), Err(ParseNumberError::Empty));
    assert_eq!(parse_number("$"), Err(ParseNumberError::Empty));
    assert_eq!(parse_number("abc"), Err(ParseNumberError::InvalidDigit));
    assert_eq!(parse_number("-1"), Err(ParseNumberError::InvalidDigit));
    assert_eq!(parse_number("+"), Err(ParseNumberError::InvalidDigit));
    assert_eq!(parse_number("0xG1"), Err(ParseNumberError::InvalidDigit));
    assert_eq!(parse_number("65536"), Err(ParseNumberError::PosOverflow));
    assert_eq!(parse_number("0x10000"), Err(ParseNumberError::PosOverflow));
    assert_eq!(parse_number("99999x"), Err(ParseNumberError::PosOverflow));
    assert_eq!(parse_number("1 2"), Err(ParseNumberError::InvalidDigit));
}

#[test]
fn parse_number_agrees_with_std() {
    for s in ["0", "7", "255", "1000", "4096", "65535", "65536", "x", "12a"] {
        let ours = parse_number(s).ok();
        let std = s.parse::<u16>().ok();
        assert_eq!(ours, std, "{}", s);
    }
    for s in ["0", "ff", "FFFF", "10000", "g"] {
        let ours = parse_number(&format!("0x{}", s)).ok();
        let std = u16::from_str_radix(s, 16).ok();
        assert_eq!(ours, std, "{}", s);
    }
}

#[test]
fn debug_state_starts_quiet() {
    let d = DebugState::new();
    assert!(!d.verbose);
    assert_eq!(d.step_counter, 0);
    assert!(!d.instr_tracking);
    assert!(d.unique_instr_set.is_empty());
    assert!(d.use_breakpoints);
    assert!(d.breakpoints.is_empty());
}

use lib::debug_helper::{gpu_state_dump, outline_cross_bitmap, parse_command, CommandType};
use lib::emulator::gpu::GPU;

#[test]
fn parse_command_names_and_arguments() {
    assert_eq!(parse_command("q"), CommandType::Quit);
    assert_eq!(parse_command("exit"), CommandType::Quit);
    assert_eq!(parse_command("step"), CommandType::Step(1));
    assert_eq!(parse_command("s 250"), CommandType::Step(250));
    assert_eq!(parse_command("run"), CommandType::Run);
    assert_eq!(parse_command("br"), CommandType::Breakpoint(None));
    assert_eq!(parse_command("breakpoint 0x150"), CommandType::Breakpoint(Some(0x150)));
    assert_eq!(parse_command("regs"), CommandType::PrintRegs);
    assert_eq!(parse_command("m $C000"), CommandType::PrintMem(0xC000, 1));
    assert_eq!(parse_command("mem 0xFF00 16"), CommandType::PrintMem(0xFF00, 16));
    assert_eq!(parse_command("stepcount"), CommandType::PrintSteps);
    assert_eq!(parse_command("v"), CommandType::ToggleVerbose);
    assert_eq!(parse_command("it"), CommandType::ToggleInstrTracking);
    assert_eq!(parse_command("ui"), CommandType::PrintUniqueInstrs);
    assert_eq!(parse_command("tbreak"), CommandType::ToggleBreakpoints);
    assert_eq!(parse_command("state"), CommandType::PrintEmulatorState);
}

#[test]
fn parse_command_errors() {
    assert_eq!(
        parse_command("mem"),
        CommandType::Error("Please specify a memory address to inspect".to_string())
    );
    assert_eq!(
        parse_command("mem zz"),
        CommandType::Error("Unable to parse the specified address, invalid digit found in string".to_string())
    );
    assert_eq!(
        parse_command("mem 0x10 99999"),
        CommandType::Error(
            "Unable to parse the specified address, number too large to fit in target type".to_string()
        )
    );
    assert_eq!(
        parse_command("br "),
        CommandType::Error(
            "Unable to parse the specified address, cannot parse integer from empty string".to_string()
        )
    );
    assert_eq!(parse_command("jump"), CommandType::Error("Unknown command specified".to_string()));
    // Words are split at every single space
    assert_eq!(parse_command(" q"), CommandType::Error("Unknown command specified".to_string()));
}

#[test]
fn cross_and_dump_images() {
    let mut bitmap = vec![255u8; 768 * 512 * 3];
    outline_cross_bitmap(&mut bitmap, 4, 2, 1, 10, 20);
    // vertical line at column 12, rows 20-23
    assert_eq!(&bitmap[(20 * 768 + 12) * 3..(20 * 768 + 12) * 3 + 3], &[0, 0, 0]);
    assert_eq!(bitmap[(23 * 768 + 12) * 3], 0);
    assert_eq!(bitmap[(24 * 768 + 12) * 3], 255);
    // horizontal line at row 21, columns 10-13
    assert_eq!(bitmap[(21 * 768 + 10) * 3], 0);
    assert_eq!(bitmap[(21 * 768 + 13) * 3], 0);
    assert_eq!(bitmap[(21 * 768 + 14) * 3], 255);

    let mut gpu = GPU::new();
    // Tile 0: color 3 everywhere (black with the default palette)
    for a in 0x8000..0x8010 {
        gpu.write_byte(a, 0xFF);
    }
    let image = gpu_state_dump(&gpu);
    assert_eq!(image.len(), 768 * 512 * 3);
    // Tile 0 of the 0x8000 area is drawn at (0, 127)
    assert_eq!(image[(130 * 768 + 1) * 3], 0);
    // Tile 1 is white
    assert_eq!(image[(130 * 768 + 9) * 3], 255);
    // Tile maps are full of tile 0: black with tile data at 0x8000
    assert_eq!(image[(300 * 768 + 300) * 3], 0);
    // ... and white with tile data at 0x8800 (tile 0 is tile 256 there)
    assert_eq!(image[(300 * 768 + 600) * 3], 255);
}

use lib::debug_helper::{at_breakpoint, execute_debug_command, mem_print_count};
use lib::minimal::emulator::Emulator;

fn debug_machine() -> Emulator {
    let mut em = Emulator::new();
    // NOP; NOP; LD B, B; NOP
    for (i, b) in [0x00u8, 0x00, 0x40, 0x00].iter().enumerate() {
        em.memory.write_byte(0xC000 + i as u16, *b);
    }
    em.cpu.regs.pc = 0xC000;
    em
}

#[test]
fn debugger_steps_until_a_breakpoint() {
    let mut em = debug_machine();
    let mut state = DebugState::new();
    state.instr_tracking = true;
    let steps = execute_debug_command(&CommandType::Step(3), &mut em, &mut state);
    // After the second step the next instruction is LD B, B
    assert_eq!(steps, 2);
    assert_eq!(em.cpu.regs.pc, 0xC002);
    assert_eq!(state.step_counter, 3);
    assert!(state.unique_instr_set.contains(&0x00));
    assert!(state.unique_instr_set.contains(&0x40));
    assert!(at_breakpoint(&em, &state));
    execute_debug_command(&CommandType::ToggleBreakpoints, &mut em, &mut state);
    assert!(!state.use_breakpoints);
    let steps = execute_debug_command(&CommandType::Step(2), &mut em, &mut state);
    assert_eq!(steps, 2);
    assert_eq!(em.cpu.regs.pc, 0xC004);
    assert_eq!(state.step_counter, 5);
}

#[test]
fn debugger_breakpoints_and_toggles() {
    let mut em = debug_machine();
    let mut state = DebugState::new();
    assert_eq!(execute_debug_command(&CommandType::Breakpoint(None), &mut em, &mut state), 0);
    assert!(state.breakpoints.contains(&0xC000));
    execute_debug_command(&CommandType::Breakpoint(Some(0xC001)), &mut em, &mut state);
    assert!(state.breakpoints.contains(&0xC001));
    let steps = execute_debug_command(&CommandType::Step(3), &mut em, &mut state);
    assert_eq!(steps, 1);
    execute_debug_command(&CommandType::ToggleVerbose, &mut em, &mut state);
    assert!(state.verbose);
    execute_debug_command(&CommandType::ToggleInstrTracking, &mut em, &mut state);
    assert!(state.instr_tracking);
    execute_debug_command(&CommandType::PrintRegs, &mut em, &mut state);
    assert_eq!(em.cpu.regs.pc, 0xC001);
}

#[test]
fn memory_print_count_is_clamped() {
    assert_eq!(mem_print_count(0xFFF0, 100), 16);
    assert_eq!(mem_print_count(0x0000, 0xFFFF), 0xFFFF);
    assert_eq!(mem_print_count(0xC000, 4), 4);
}

use lib::debug_helper::execute_debug_command_checked;

#[test]
fn step_ok_follows_the_instruction() {
    let mut em = debug_machine();
    assert!(em.step_ok());
    em.memory.write_byte(0xC000, 0x76); // HALT is not implemented
    assert!(!em.step_ok());
    em.memory.write_byte(0xC000, 0xC5); // PUSH BC
    em.cpu.regs.sp = 1;
    assert!(!em.step_ok());
    em.cpu.regs.sp = 0xDFF0;
    assert!(em.step_ok());
    em.memory.write_byte(0xC000, 0xC9); // RET with SP at the top
    em.cpu.regs.sp = 0xFFFF;
    assert!(!em.step_ok());
}

#[test]
fn breakpoint_before_an_unrunnable_instruction() {
    let mut em = debug_machine();
    // NOP; NOP; LD B, B; HALT
    em.memory.write_byte(0xC003, 0x76);
    let mut state = DebugState::new();
    // The run stops at the breakpoint before it reaches HALT
    assert_eq!(execute_debug_command(&CommandType::Step(10), &mut em, &mut state), 2);
    assert_eq!(state.step_counter, 10);
    // Without breakpoints the checked run ends at HALT
    state.use_breakpoints = false;
    state.verbose = true;
    let mut trace = Vec::new();
    let r = execute_debug_command_checked(&CommandType::Step(10), &mut em, &mut state, &mut trace);
    assert_eq!(r, Err(1));
    assert_eq!(em.cpu.regs.pc, 0xC003);
    assert_eq!(state.step_counter, 10);
    assert_eq!(trace, vec![(0xC003, 0x76)]);
    let r = execute_debug_command_checked(&CommandType::ToggleVerbose, &mut em, &mut state, &mut trace);
    assert_eq!(r, Ok(0));
    assert!(!state.verbose);
}
