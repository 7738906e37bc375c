# Gameboy emulator core, verified

A Gameboy emulator library whose components carry Verus contracts and proofs.

* `src/minimal` — a small machine: a CPU with the full base and CB-prefixed
  instruction set (as a state machine over `Machine` in `instructions.rs`),
  its register file, a memory map with an MBC1 cartridge, timer registers and
  interrupt helpers, and `step_check.rs`, which tells whether the next
  instruction runs normally.
* `src/emulator` — the components of the full machine: cartridge with MBC1 /
  MBC3 banking and header checksum, graphics unit (mode state machine, VRAM,
  OAM, palettes, decoded tiles and sprites), screen line drawing, memory map
  with OAM DMA, timer, interrupts, joypad and the sound hardware: registers,
  length counters, envelopes, frequency sweep, the channels' waveforms and
  the sample buffers that take them down to the output rate.
* `src/debug_helper.rs` — the debugger: its command parser and number
  parser, the effect of each command on the minimal machine and the debugger
  state (stepping up to a breakpoint, breakpoints, toggles), and the images
  it draws of the graphics state.
* `src/sound.rs` — the averaging that keeps the sound output rate in step
  with the frontend's audio queue.
* `app/main.rs` — a command line runner for the minimal machine;
  `app/sound.rs` — the floating-point stereo mix of the channels' samples and
  the output rate correction, for a frontend with an audio device.
* `tests/` — tests on concrete values.
