# nes

A Nintendo Entertainment System emulator whose core is verified with Verus.

- `src/` — the emulator core, with its specifications and proofs:
  - `cpu/` — the 6502 (Ricoh 2A03): opcode table, addressing modes, all
    official and the common unofficial instructions, NMI/IRQ entry.
  - `ppu/` — registers, Loopy scrolling, background and sprite rendering
    into a 256×240 BGRA frame buffer.
  - `apu/` — pulse, triangle, noise and DMC channels, frame sequencer and
    the points at which audio samples are taken at the host's rate.
  - `cartridge/` — the iNES loader and mappers 0 (NROM), 1 (MMC1) and
    2 (UxROM).
  - `controller/` — the serial controller port.
  - `bus.rs`, `emulator.rs` — address decoding, OAM DMA, and the clock that
    runs three PPU dots and one APU cycle per CPU cycle.
  - `ui.rs` — the status bar (buttons, frame rate, volume) drawn into a
    pixel buffer.
  - `display.rs` — the CRT scanline effect applied to each frame.
- `tests/` — tests of the core on concrete inputs.
- `app/` — the SDL2 front end: window, keyboard, audio mixing and volume.

Run the front end with a ROM path: `nes path/to/game.nes`. Keys: Z/Alt = A,
X/Ctrl = B, Enter/Space = Start, Shift/Tab = Select, arrows/WASD = D-pad,
`]`/`[` = volume up/down, Escape = quit.
