use sen_core::bus::Bus;
use sen_core::cartridge::Cartridge;
use sen_core::controller::ControllerButtons;
use sen_core::nes::{FrameCheckpointError, InputFrame, Nes, NesError, SchedulerEvent, SchedulerPhase};

fn nrom_with_program(program: &[u8]) -> Cartridge {
    let mut prg_rom = vec![0; 0x4000];
    prg_rom[..program.len()].copy_from_slice(program);
    prg_rom[0x3FFC] = 0x00;
    prg_rom[0x3FFD] = 0x80;

    let mut rom = vec![0; 16];
    rom[0..4].copy_from_slice(b"NES\x1A");
    rom[4] = 1;
    rom[5] = 1;
    rom.extend_from_slice(&prg_rom);
    rom.extend_from_slice(&vec![0; 0x2000]);

    Cartridge::from_ines(&rom).unwrap()
}

fn new_nes(cartridge: Cartridge) -> Box<Nes> {
    Box::new(Nes::new(cartridge))
}

fn a_pressed() -> ControllerButtons {
    ControllerButtons::default().with_a(true)
}

#[test]
fn mod_oam_dma_stalls_cpu_before_next_instruction_executes() {
    let cartridge = nrom_with_program(&[
        0xA9, 0x02, // LDA #$02
        0x8D, 0x14, 0x40, // STA $4014
        0xE8, // INX
    ]);
    let mut nes = new_nes(cartridge);
    let mut stalled_cycles = 0;

    while !nes.bus.dma_running() {
        nes.tick().unwrap();

        if nes.bus.dma_running() {
            stalled_cycles += 1;
        }
    }

    while nes.bus.dma_running() {
        assert_eq!(nes.cpu.x, 0);
        nes.tick().unwrap();
        stalled_cycles += 1;
    }

    assert_eq!(stalled_cycles, 514);
    assert_eq!(nes.cpu.x, 0);

    nes.tick().unwrap(); // Fetch INX after DMA finishes.
    assert_eq!(nes.cpu.x, 0);

    nes.tick().unwrap(); // Execute INX.
    assert_eq!(nes.cpu.x, 1);
}

#[test]
fn mod_scheduler_stops_at_frame_boundary_and_resumes_the_pending_tail() {
    let cartridge = nrom_with_program(&[
        0x4C, 0x00, 0x80, // JMP $8000
    ]);
    let mut nes = new_nes(cartridge);

    loop {
        if nes.advance_scheduler() == Ok(SchedulerEvent::FrameBoundary) {
            break;
        }
    }

    assert_eq!(
        nes.phase,
        SchedulerPhase::CompletingCpuCycle {
            ppu_ticks_remaining: 1,
        },
    );

    assert_eq!(nes.advance_scheduler(), Ok(SchedulerEvent::CpuCycleComplete));
    assert_eq!(nes.phase, SchedulerPhase::ReadyForCpuCycle);
}

#[test]
fn mod_run_until_frame_stops_before_rendering_the_next_frame() {
    const CYCLES_BEFORE_BOUNDARY_GROUP: usize = 29_780;

    let cartridge = nrom_with_program(&[
        0x4C, 0x00, 0x80, // JMP $8000
    ]);
    let mut nes = new_nes(cartridge);

    // The first exact boundary occurs on the second PPU tick, leaving one.
    nes.run_frame(InputFrame::default()).unwrap();
    assert_eq!(
        nes.phase,
        SchedulerPhase::CompletingCpuCycle {
            ppu_ticks_remaining: 1,
        },
    );

    // Finish that pending tail, leaving the PPU at scanline 0, dot 1.
    assert_eq!(nes.advance_scheduler(), Ok(SchedulerEvent::CpuCycleComplete));

    // Reach the final CPU-cycle group of the next frame. Its boundary will
    // occur on the first PPU tick, leaving two ticks pending.
    for _ in 0..CYCLES_BEFORE_BOUNDARY_GROUP {
        assert!(!nes.tick().unwrap());
    }

    let completed_pixel: [u8; 3] = nes.frame().pixels()[0..3].try_into().unwrap();

    // Change the background color after visible rendering has finished.
    nes.bus.write(0x2006, 0x3F);
    nes.bus.write(0x2006, 0x00);
    nes.bus.write(0x2007, 0x30);

    assert_eq!(&nes.frame().pixels()[0..3], &completed_pixel);

    nes.run_frame(InputFrame::default()).unwrap();

    // The scheduler stopped immediately at the boundary.
    assert_eq!(
        nes.phase,
        SchedulerPhase::CompletingCpuCycle {
            ppu_ticks_remaining: 2,
        },
    );

    // Dot 1 of the next frame has not overwritten pixel (0, 0).
    assert_eq!(&nes.frame().pixels()[0..3], &completed_pixel);
}

#[test]
fn mod_run_frame_applies_input_before_frame_execution() {
    let cartridge = nrom_with_program(&[
        0xA9, 0x01, // LDA #$01
        0x8D, 0x16, 0x40, // STA $4016: strobe on
        0xA9, 0x00, // LDA #$00
        0x8D, 0x16, 0x40, // STA $4016: strobe off
        0xAD, 0x16, 0x40, // LDA $4016
        0x29, 0x01, // AND #$01
        0x85, 0x00, // STA $00
        0x4C, 0x00, 0x80, // JMP $8000
    ]);
    let mut nes = new_nes(cartridge);

    nes.run_frame(InputFrame::new(a_pressed(), ControllerButtons::default()))
        .unwrap();
    assert_eq!(nes.bus.read(0x0000), 1);

    nes.run_frame(InputFrame::default()).unwrap();
    assert_eq!(nes.bus.read(0x0000), 0);
}

#[test]
fn nes_oam_dma_stalls_cpu_before_next_instruction_executes() {
    let cartridge = nrom_with_program(&[
        0xA9, 0x02, // LDA #$02
        0x8D, 0x14, 0x40, // STA $4014
        0xE8, // INX
    ]);
    let mut nes = new_nes(cartridge);
    let mut stalled_cycles = 0;

    while !nes.bus.dma_running() {
        nes.tick().unwrap();

        if nes.bus.dma_running() {
            stalled_cycles += 1;
        }
    }

    while nes.bus.dma_running() {
        assert_eq!(nes.cpu.x, 0);
        nes.tick().unwrap();
        stalled_cycles += 1;
    }

    assert_eq!(stalled_cycles, 514);
    assert_eq!(nes.cpu.x, 0);

    nes.tick().unwrap(); // Fetch INX after DMA finishes.
    assert_eq!(nes.cpu.x, 0);

    nes.tick().unwrap(); // Execute INX.
    assert_eq!(nes.cpu.x, 1);
}

#[test]
fn nes_scheduler_stops_at_frame_boundary_and_resumes_the_pending_tail() {
    let cartridge = nrom_with_program(&[
        0x4C, 0x00, 0x80, // JMP $8000
    ]);
    let mut nes = new_nes(cartridge);

    loop {
        if nes.advance_scheduler() == Ok(SchedulerEvent::FrameBoundary) {
            break;
        }
    }

    assert_eq!(
        nes.phase,
        SchedulerPhase::CompletingCpuCycle {
            ppu_ticks_remaining: 1,
        },
    );

    assert_eq!(nes.advance_scheduler(), Ok(SchedulerEvent::CpuCycleComplete));
    assert_eq!(nes.phase, SchedulerPhase::ReadyForCpuCycle);
}

#[test]
fn nes_run_until_frame_stops_before_rendering_the_next_frame() {
    const CYCLES_BEFORE_BOUNDARY_GROUP: usize = 29_780;

    let cartridge = nrom_with_program(&[
        0x4C, 0x00, 0x80, // JMP $8000
    ]);
    let mut nes = new_nes(cartridge);

    // The first exact boundary occurs on the second PPU tick, leaving one.
    nes.run_frame(InputFrame::default()).unwrap();
    assert_eq!(
        nes.phase,
        SchedulerPhase::CompletingCpuCycle {
            ppu_ticks_remaining: 1,
        },
    );

    // Finish that pending tail, leaving the PPU at scanline 0, dot 1.
    assert_eq!(nes.advance_scheduler(), Ok(SchedulerEvent::CpuCycleComplete));

    // Reach the final CPU-cycle group of the next frame. Its boundary will
    // occur on the first PPU tick, leaving two ticks pending.
    for _ in 0..CYCLES_BEFORE_BOUNDARY_GROUP {
        assert!(!nes.tick().unwrap());
    }

    let completed_pixel: [u8; 3] = nes.frame().pixels()[0..3].try_into().unwrap();

    // Change the background color after visible rendering has finished.
    nes.bus.write(0x2006, 0x3F);
    nes.bus.write(0x2006, 0x00);
    nes.bus.write(0x2007, 0x30);

    assert_eq!(&nes.frame().pixels()[0..3], &completed_pixel);

    nes.run_frame(InputFrame::default()).unwrap();

    // The scheduler stopped immediately at the boundary.
    assert_eq!(
        nes.phase,
        SchedulerPhase::CompletingCpuCycle {
            ppu_ticks_remaining: 2,
        },
    );

    // Dot 1 of the next frame has not overwritten pixel (0, 0).
    assert_eq!(&nes.frame().pixels()[0..3], &completed_pixel);
}

#[test]
fn nes_run_frame_applies_input_before_frame_execution() {
    let cartridge = nrom_with_program(&[
        0xA9, 0x01, // LDA #$01
        0x8D, 0x16, 0x40, // STA $4016: strobe on
        0xA9, 0x00, // LDA #$00
        0x8D, 0x16, 0x40, // STA $4016: strobe off
        0xAD, 0x16, 0x40, // LDA $4016
        0x29, 0x01, // AND #$01
        0x85, 0x00, // STA $00
        0x4C, 0x00, 0x80, // JMP $8000
    ]);
    let mut nes = new_nes(cartridge);

    nes.run_frame(InputFrame::new(a_pressed(), ControllerButtons::default()))
        .unwrap();
    assert_eq!(nes.bus.read(0x0000), 1);

    nes.run_frame(InputFrame::default()).unwrap();
    assert_eq!(nes.bus.read(0x0000), 0);
}

#[test]
fn run_frame_stops_on_an_opcode_without_a_program() {
    let cartridge = nrom_with_program(&[
        0xEA, // NOP
        0x02, // no program
    ]);
    let mut nes = new_nes(cartridge);

    assert_eq!(
        nes.run_frame(InputFrame::default()),
        Err(NesError::UnimplementedOpcode(0x02))
    );
    assert_eq!(nes.cpu.pc, 0x8001);
}

#[test]
fn new_machine_starts_at_the_reset_vector() {
    let cartridge = nrom_with_program(&[0x4C, 0x00, 0x80]);
    let nes = new_nes(cartridge);

    assert_eq!(nes.cpu.pc, 0x8000);
    assert_eq!(nes.cpu.sp, 0xFD);
    assert_eq!(nes.phase, SchedulerPhase::ReadyForCpuCycle);
    assert!(nes.system_ram().iter().all(|&byte| byte == 0));
    assert!(nes.save_ram().is_none());
}

#[test]
fn a_frame_ends_after_the_ppu_runs_a_whole_frame_of_dots() {
    let cartridge = nrom_with_program(&[0x4C, 0x00, 0x80]);
    let mut nes = new_nes(cartridge);
    let mut cycles = 0;

    loop {
        let frame_done = nes.tick().unwrap();
        cycles += 1;
        if frame_done {
            break;
        }
    }

    // 262 lines of 341 dots, three dots per CPU cycle.
    assert_eq!(cycles, (262 * 341 + 2) / 3);
}

#[test]
fn frame_checkpoint_is_only_available_at_the_exact_boundary() {
    let cartridge = nrom_with_program(&[0x4C, 0x00, 0x80]);
    let mut nes = new_nes(cartridge);

    assert!(matches!(
        nes.capture_frame_checkpoint(),
        Err(FrameCheckpointError::NotAtFrameBoundary)
    ));

    nes.run_frame(InputFrame::default()).unwrap();
    assert!(nes.capture_frame_checkpoint().is_ok());

    nes.tick().unwrap();

    assert!(matches!(
        nes.capture_frame_checkpoint(),
        Err(FrameCheckpointError::NotAtFrameBoundary)
    ));
}

#[test]
fn checkpoint_can_restore_into_equivalent_machine() {
    let program = &[0x4C, 0x00, 0x80];

    let mut source = new_nes(nrom_with_program(program));
    let mut target = new_nes(nrom_with_program(program));

    source.run_frame(InputFrame::default()).unwrap();
    let checkpoint = source.capture_frame_checkpoint().unwrap();

    target.restore_frame_checkpoint(&checkpoint).unwrap();

    let restored = target.capture_frame_checkpoint().unwrap();
    assert!(restored.state() == checkpoint.state());
}

#[test]
fn checkpoint_rejects_different_cartridge_without_mutation() {
    let mut source = new_nes(nrom_with_program(&[0x4C, 0x00, 0x80]));
    let mut target = new_nes(nrom_with_program(&[0xEA, 0x4C, 0x00, 0x80]));

    source.run_frame(InputFrame::default()).unwrap();
    target.run_frame(InputFrame::default()).unwrap();

    let checkpoint = source.capture_frame_checkpoint().unwrap();
    let before = target.capture_frame_checkpoint().unwrap();

    assert_eq!(
        target.restore_frame_checkpoint(&checkpoint),
        Err(FrameCheckpointError::IncompatibleMachine)
    );

    let after = target.capture_frame_checkpoint().unwrap();
    assert!(before.state() == after.state());
}

#[test]
fn restored_frame_checkpoint_replays_identically() {
    let cartridge = nrom_with_program(&[
        0xA9, 0x01, 0x8D, 0x16, 0x40, 0xA9, 0x00, 0x8D, 0x16, 0x40, 0xAD, 0x16, 0x40, 0x29,
        0x01, 0x85, 0x00, 0x4C, 0x00, 0x80,
    ]);
    let mut nes = new_nes(cartridge);

    nes.run_frame(InputFrame::default()).unwrap();
    let checkpoint = nes.capture_frame_checkpoint().unwrap();

    let input = InputFrame::new(a_pressed(), ControllerButtons::default());

    nes.run_frame(input).unwrap();

    let expected_state = nes.capture_frame_checkpoint().unwrap();
    let expected_frame = nes.frame().pixels().to_vec();

    nes.restore_frame_checkpoint(&checkpoint).unwrap();

    assert!(nes.frame().pixels().iter().all(|&byte| byte == 0));

    nes.run_frame(input).unwrap();

    let actual_state = nes.capture_frame_checkpoint().unwrap();
    let actual_frame = nes.frame().pixels().to_vec();

    assert!(expected_state.state() == actual_state.state());
    assert_eq!(expected_frame, actual_frame);
}

fn battery_backed_txrom_with_chr_ram() -> Cartridge {
    let mut prg_rom = vec![0; 0x8000];
    prg_rom[..3].copy_from_slice(&[0x4C, 0x00, 0x80]);
    prg_rom[0x7FFC] = 0x00;
    prg_rom[0x7FFD] = 0x80;

    let mut rom = vec![0; 16];
    rom[0..4].copy_from_slice(b"NES\x1A");
    rom[4] = 2;
    rom[5] = 0;
    rom[6] = 0x42; // Mapper 4 with battery-backed RAM.
    rom.extend_from_slice(&prg_rom);

    Cartridge::from_ines(&rom).unwrap()
}

fn non_battery_mmc1_with_chr_rom() -> Cartridge {
    let mut prg_rom = vec![0; 0x8000];
    prg_rom[0x7FFC] = 0x00;
    prg_rom[0x7FFD] = 0x80;

    let mut rom = vec![0; 16];
    rom[0..4].copy_from_slice(b"NES\x1A");
    rom[4] = 2;
    rom[5] = 1;
    rom[6] = 0x10; // Mapper 1 without battery-backed RAM.
    rom.extend_from_slice(&prg_rom);
    rom.extend_from_slice(&vec![0; 0x2000]);

    Cartridge::from_ines(&rom).unwrap()
}

#[test]
fn ram_regions_expose_system_and_battery_backed_prg_ram() {
    let mut nes = new_nes(battery_backed_txrom_with_chr_ram());

    {
        let sen_core::nes::RamRegionsMut {
            system,
            prg,
            prg_is_battery_backed,
        } = nes.ram_regions_mut();

        assert_eq!(system.len(), 0x0800);
        assert!(prg_is_battery_backed);

        system[0x0123] = 0xA5;
        let prg = prg.expect("battery-backed TxROM has PRG RAM");
        assert_eq!(prg.len(), 0x2000);
        prg[0x0456] = 0x5A;
    }

    assert_eq!(nes.system_ram()[0x0123], 0xA5);
    assert_eq!(nes.save_ram().unwrap()[0x0456], 0x5A);
}

#[test]
fn ram_regions_expose_nonpersistent_prg_work_ram() {
    let mut nes = new_nes(non_battery_mmc1_with_chr_rom());

    {
        let regions = nes.ram_regions_mut();

        assert!(!regions.prg_is_battery_backed);
        let prg = regions.prg.expect("MMC1 has PRG work RAM");
        assert_eq!(prg.len(), 0x2000);
        prg[0x0123] = 0xA5;
    }

    assert!(nes.save_ram().is_none());
    assert_eq!(nes.bus.read(0x6123), 0xA5);
}

#[test]
fn save_ram_changes_through_the_mutable_view() {
    let mut nes = new_nes(battery_backed_txrom_with_chr_ram());

    nes.save_ram_mut().unwrap()[0] = 0xA5;
    assert_eq!(nes.save_ram().unwrap()[0], 0xA5);

    nes.system_ram_mut()[0x10] = 0x42;
    assert_eq!(nes.bus.read(0x0010), 0x42);
    assert_eq!(nes.bus.read(0x0810), 0x42);
}

#[test]
fn checkpoint_rejects_different_audio_profile() {
    let program = &[0x4C, 0x00, 0x80];

    let mut source = Box::new(Nes::new_with_sample_rate_bits(
        nrom_with_program(program),
        44_100.0f64.to_bits(),
    ));
    let mut target = Box::new(Nes::new_with_sample_rate_bits(
        nrom_with_program(program),
        48_000.0f64.to_bits(),
    ));

    source.run_frame(InputFrame::default()).unwrap();
    let checkpoint = source.capture_frame_checkpoint().unwrap();

    assert_eq!(
        target.restore_frame_checkpoint(&checkpoint),
        Err(FrameCheckpointError::IncompatibleMachine)
    );
}
