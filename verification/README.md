# sen_core

A cycle-level emulator of the Nintendo Entertainment System, written in Verus:
the emulation logic is executable Rust whose behaviour is stated in
`requires`/`ensures` contracts and proved.

`Cartridge::from_ines` loads an iNES image; `Nes` runs it, three PPU dots per
CPU cycle, and `Nes::run_frame` advances it to the next frame boundary with
the controller buttons of an `InputFrame` held.

## Layout

- `src/` is the verified library:
  - `cpu.rs`, `microcode.rs`: the 6502 as a micro-operation machine, one bus
    access per cycle, against the `Bus` trait of `bus.rs`;
  - `ppu.rs`, `frame.rs`: registers, rendering pipeline, sprite evaluation and
    the frame buffer, with a value model (`PpuView`) that every operation is
    proved against;
  - `apu/`: pulse, triangle, noise and DMC channels and the frame counter
    (their integer state; mixing to audio samples is floating point and is
    not part of the library);
  - `cartridge.rs`, `mapper/`: iNES parsing and the NROM, MMC1, UxROM, CNROM,
    TxROM, TxSROM and TQROM boards (AxROM is provided as a board type);
  - `nes_bus.rs`, `nes.rs`: the console's CPU address space, OAM and DMC DMA,
    the scheduler, and frame checkpoints;
  - `state_image.rs`: the 32 KiB save-state image (header, BLAKE3 checksum,
    payload), written by `Nes::serialize_state` and checked and put back by
    `Nes::unserialize_state`. The payload, the machine state in bincode form,
    is encoded and decoded by the caller and handed over as bytes and as a
    decoded `MachineState`. A machine's checkpoints and images belong to
    machines with the same cartridge and the same audio sample rate, which
    `Nes::new_with_sample_rate_bits` sets as the bits of an `f64`;
  - `controller.rs`, `cheat.rs`, `frontend.rs`: controller ports, Game Genie
    codes, and the small pieces frontends share.
- `tests/` holds the test suite.
- `app/` is ordinary Rust around the library: a command-line runner that
  loads an iNES file and runs its program.
