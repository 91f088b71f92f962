# hayate

A CPS-3 arcade board / Hitachi SH-2 emulator, with its memory model and
debugger logic verified with Verus.

- `src/` is the verified library: the address map (`mem_defs`), big-endian
  loads and stores (`common`), the bus and memory of the board (`bus`, `mem`),
  the reset vectors (`cps3`), the game description table (`game_info`), and
  the debugger's command parser and decisions (`words`, `debugger`).
- `app/` is the program around it: command line handling, reading the rom
  files, and the cpu, disassembler and prompt, which come from the `thalgar`
  SH-2 crate.
- `tests/` runs the library on concrete values.
