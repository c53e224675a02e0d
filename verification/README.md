# cerboy

A Game Boy emulator whose logic is verified with Verus.

- `src/` is the library: processor, memory, timers, display, disassembler. Every function in it has
  a contract, proved by Verus. One function, a view of bytes as UTF-8 text, wraps a call of the
  standard library whose contract is believed.
- `src/laws/` states what holds of the machine as a whole: what memory gives back, how long
  instructions and frames take, when interrupts are served.
- `app/` is the window around the library: `cerboy --rom <file>` runs a game, `--doctor` prints the
  state before every step. Started under the name `dis`, the program lists a cartridge instead.
- `tests/` runs the library on concrete values.
