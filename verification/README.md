# rust_boy

The core of a Game Boy emulator, written in Verus: the library's functions
carry contracts that Verus proves. The few calls into `std` and `chrono`
(reading the system clock, the difference of two clock readings, building a
path) sit behind small wrappers whose contracts are trusted, not proved;
each says in its doc comment what it claims of the outside code.

## Layout

- `src/cpu/` — the SM83 processor: registers and flags, the decoding of every
  unprefixed and CB-prefixed opcode, and the instruction semantics. `Cpu::step`
  is specified by the spec functions `step_cpu` and `step_mem` in
  `src/cpu/decode.rs`.
- `src/mmu/` — the memory bus: work and high RAM, video and object memory,
  the I/O registers, the boot ROM overlay and the cartridge behind it.
- `src/banking/` — the cartridge: ROM-only, MBC1, MBC2 and MBC3 mappers, and
  the cartridge types that are recognised but not emulated.
- `src/rtc.rs` — the MBC3 real-time clock, which reads the system clock
  through `chrono`.
- `src/timer.rs` — DIV, TIMA, TMA and TAC.
- `src/system.rs` — one frame of emulation: steps the processor until a
  frame's worth of cycles has run.
- `src/flat_mmu.rs` — a plain 64 KiB memory.
- `src/laws.rs` — properties that span several operations: read-after-write
  on the bus, push and pop, CALL and RET, DAA after a decimal addition,
  rotations and swaps undone, the timer registers, the clock counters and
  their registers read back after a write, and MBC1 banking. The cycle
  bounds of a frame are in `src/system.rs`.
- `app/` — the program around the library: command line, files, logging.
- `tests/` — tests of the library on concrete values.
