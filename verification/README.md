# nesium_core

The 6502 CPU core of a cycle-accurate NES emulator, with its behaviour stated
in contracts and proved by Verus.

## Layout

- `src/status.rs` — the processor status register P and its flags.
- `src/cpu.rs` — the CPU registers and latches, the 64 KiB bus, stack helpers.
- `src/addressing.rs` — addressing modes, their addressing cycles, operand addresses.
- `src/mnemonic.rs`, `src/mnemonic/` — the execute cycles of every mnemonic,
  official and undocumented.
- `src/instruction.rs` — mnemonic plus addressing mode, cycle by cycle; opcode search.
- `src/lookup.rs`, `src/timing.rs`, `src/cycle.rs` — the opcode table and cycle counts.
- `src/micro_op.rs`, `src/micro_op/` — instructions spelled out as one micro-operation
  per cycle, and what those programs compute (`semantics.rs`).
- `src/phase.rs` — the internal phases of the CPU.
- `src/error.rs` — why an iNES image is refused.
- `tests/` — instruction-level tests.
- `app/` — debugging hooks (interceptors) and text forms of the core's types.

## Laws

Every function in `src/` carries a contract; `exec_jmp`, which serves a
mnemonic without execute cycles, has only a `requires` that no call meets. The laws are proof functions:
flag updates, operand addressing, the cycle programs against the instruction
semantics and the cycle table, the skipped fix-up and branch cycles against
the cycle table, and the stack round trips.
