# yarge-core

A Game Boy emulator core whose logic is verified with Verus.

- `src/` is the library: the CPU and its instruction set, the ALU, the memory
  bus with timers and serial port, cartridges (no MBC, MBC1, MBC3) and ROM
  headers, the sound unit (square and noise channels, envelopes, length
  timers, frame sequencer), the picture unit (OAM scan, background and sprite
  fetchers, pixel FIFOs, mode timing and STAT interrupts), and the front end's
  settings, save file names and menu navigation, and the desktop
  debugger's input decisions (joypad state from held keys, register editor
  values, stepping and the error panel). Each public function carries
  a contract; properties relating several calls are public proof functions
  named `lemma_*`.
- `app/` is a command-line runner around the library: argument parsing, file
  reading, error messages and the floating-point audio mixing.
- `tests/` exercises the library on concrete values.
