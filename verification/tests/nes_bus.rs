use sen_core::apu::dmc::{DmcDmaKind, DmcDmaRequest};
use sen_core::bus::Bus;
use sen_core::cartridge::Cartridge;
use sen_core::cheat::GameGenieCode;
use sen_core::cpu::CpuCycleKind;
use sen_core::nes_bus::{DmaCycle, DmcDma, DmcDmaStep, DmcLoadDelay, NesCpuBus, OamDmaStep};

fn cartridge_with_prg(prg_rom: &[u8]) -> Cartridge {
    assert!(matches!(prg_rom.len(), 0x4000 | 0x8000));

    let mut rom = vec![0; 16];
    rom[0..4].copy_from_slice(b"NES\x1A");
    rom[4] = (prg_rom.len() / 0x4000) as u8;
    rom[5] = 1;
    rom.extend_from_slice(prg_rom);
    rom.extend_from_slice(&vec![0; 0x2000]);

    Cartridge::from_ines(&rom).unwrap()
}

fn bus_with_prg(prg_rom: &[u8]) -> Box<NesCpuBus> {
    Box::new(NesCpuBus::new(cartridge_with_prg(prg_rom)))
}

fn fill_ram_page(bus: &mut NesCpuBus, page: u8, value: u8) {
    let base = (page as u16) << 8;

    for offset in 0..=0xFF {
        bus.write(base + offset, value);
    }
}

fn read_oam(bus: &mut NesCpuBus, addr: u8) -> u8 {
    bus.write(0x2003, addr);
    bus.read(0x2004)
}

fn drain_dma_from_next_read(bus: &mut NesCpuBus) -> usize {
    let mut cycles = 0;

    assert!(bus.try_start_dma_halt(CpuCycleKind::Read));

    bus.perform_dma_bus_action();
    bus.finish_cpu_cycle();
    cycles += 1;

    while bus.dma_running() {
        bus.perform_dma_bus_action();
        bus.finish_cpu_cycle();
        cycles += 1;
    }

    cycles
}

fn parse_code(text: &str) -> GameGenieCode {
    text.parse().unwrap()
}

#[test]
fn nes_cpu_bus_mirrors_internal_ram_every_2k() {
    let prg_rom = vec![0; 0x4000];
    let mut bus = bus_with_prg(&prg_rom);

    bus.write(0x0000, 0x12);

    assert_eq!(bus.read(0x0000), 0x12);
    assert_eq!(bus.read(0x0800), 0x12);
    assert_eq!(bus.read(0x1000), 0x12);
    assert_eq!(bus.read(0x1800), 0x12);

    bus.write(0x17FF, 0x34);

    assert_eq!(bus.read(0x07FF), 0x34);
    assert_eq!(bus.read(0x0FFF), 0x34);
    assert_eq!(bus.read(0x17FF), 0x34);
    assert_eq!(bus.read(0x1FFF), 0x34);
}

#[test]
fn nes_cpu_bus_reads_16k_nrom_prg_rom_with_upper_bank_mirrored() {
    let mut prg_rom = vec![0; 0x4000];
    prg_rom[0x0000] = 0x11;
    prg_rom[0x3FFF] = 0x22;
    let mut bus = bus_with_prg(&prg_rom);

    assert_eq!(bus.read(0x8000), 0x11);
    assert_eq!(bus.read(0xBFFF), 0x22);
    assert_eq!(bus.read(0xC000), 0x11);
    assert_eq!(bus.read(0xFFFF), 0x22);
}

#[test]
fn nes_cpu_bus_reads_32k_nrom_prg_rom_directly() {
    let mut prg_rom = vec![0; 0x8000];
    prg_rom[0x0000] = 0x11;
    prg_rom[0x3FFF] = 0x22;
    prg_rom[0x4000] = 0x33;
    prg_rom[0x7FFF] = 0x44;
    let mut bus = bus_with_prg(&prg_rom);

    assert_eq!(bus.read(0x8000), 0x11);
    assert_eq!(bus.read(0xBFFF), 0x22);
    assert_eq!(bus.read(0xC000), 0x33);
    assert_eq!(bus.read(0xFFFF), 0x44);
}

#[test]
fn nes_cpu_bus_does_not_mutate_nrom_prg_rom_on_write() {
    let mut prg_rom = vec![0; 0x4000];
    prg_rom[0x0000] = 0x11;
    prg_rom[0x3FFF] = 0x22;
    let mut bus = bus_with_prg(&prg_rom);

    bus.write(0x8000, 0x99);
    bus.write(0xFFFF, 0x88);

    assert_eq!(bus.read(0x8000), 0x11);
    assert_eq!(bus.read(0xFFFF), 0x22);
}

#[test]
fn game_genie_code_replaces_mapper_reads_until_cleared() {
    let mut prg_rom = vec![0; 0x4000];
    prg_rom[0x11DD] = 0xA5; // $D1DD in the upper mirror of 16 KiB NROM.
    let mut bus = bus_with_prg(&prg_rom);

    assert_eq!(bus.read(0xD1DD), 0xA5);

    bus.set_game_genie_codes(vec![parse_code("GOSSIP")]);
    assert_eq!(bus.read(0xD1DD), 0x14);

    bus.set_game_genie_codes(Vec::new());
    assert_eq!(bus.read(0xD1DD), 0xA5);
}

#[test]
fn game_genie_compare_code_only_replaces_matching_mapper_data() {
    let mut matching_prg = vec![0; 0x4000];
    matching_prg[0x14A7] = 0x03; // $94A7 in the lower 16 KiB NROM window.
    let mut matching_bus = bus_with_prg(&matching_prg);
    matching_bus.set_game_genie_codes(vec![parse_code("ZEXPYGLA")]);

    let mut different_prg = matching_prg;
    different_prg[0x14A7] = 0x04;
    let mut different_bus = bus_with_prg(&different_prg);
    different_bus.set_game_genie_codes(vec![parse_code("ZEXPYGLA")]);

    assert_eq!(matching_bus.read(0x94A7), 0x02);
    assert_eq!(different_bus.read(0x94A7), 0x04);
}

#[test]
fn restoring_machine_state_preserves_active_game_genie_codes() {
    let mut prg_rom = vec![0; 0x4000];
    prg_rom[0x11DD] = 0xA5;
    let mut bus = bus_with_prg(&prg_rom);
    bus.set_game_genie_codes(vec![parse_code("GOSSIP")]);
    let state = Box::new(bus.state());

    bus.write(0x0123, 0x5A);
    bus.restore_state(*state);

    assert_eq!(bus.read(0x0123), 0);
    assert_eq!(bus.read(0xD1DD), 0x14);
}

#[test]
fn oam_dma_stalls_513_cycles_when_halt_lands_on_put_cycle() {
    let prg_rom = vec![0; 0x4000];
    let mut bus = bus_with_prg(&prg_rom);

    fill_ram_page(&mut bus, 0x02, 0xAB);

    bus.write(0x4014, 0x02);
    bus.finish_cpu_cycle();

    assert_eq!(read_oam(&mut bus, 0x00), 0xFF);
    assert_eq!(drain_dma_from_next_read(&mut bus), 513);

    assert_eq!(read_oam(&mut bus, 0x00), 0xAB);
    assert_eq!(read_oam(&mut bus, 0xFF), 0xAB);
}

#[test]
fn oam_dma_stalls_514_cycles_when_halt_lands_on_get_cycle() {
    let prg_rom = vec![0; 0x4000];
    let mut bus = bus_with_prg(&prg_rom);

    bus.finish_cpu_cycle();
    fill_ram_page(&mut bus, 0x02, 0xCD);

    bus.write(0x4014, 0x02);
    bus.finish_cpu_cycle();

    assert_eq!(read_oam(&mut bus, 0x00), 0xFF);
    assert_eq!(drain_dma_from_next_read(&mut bus), 514);

    assert_eq!(read_oam(&mut bus, 0x00), 0xCD);
    assert_eq!(read_oam(&mut bus, 0xFF), 0xCD);
}

#[test]
fn oam_dma_step_encodes_the_next_bus_action() {
    let prg_rom = vec![0; 0x4000];
    let mut bus = bus_with_prg(&prg_rom);

    bus.write(0x0200, 0xAB);
    bus.finish_cpu_cycle(); // Get -> Put

    bus.write(0x4014, 0x02);
    assert_eq!(bus.oam_dma.as_ref().unwrap().step, OamDmaStep::PendingHalt);
    assert!(!bus.dma_running());

    bus.finish_cpu_cycle(); // Put -> Get

    assert!(bus.try_start_dma_halt(CpuCycleKind::Read));
    assert_eq!(bus.oam_dma.as_ref().unwrap().step, OamDmaStep::Halt);
    assert!(bus.dma_running());

    bus.perform_dma_bus_action();
    assert_eq!(bus.oam_dma.as_ref().unwrap().step, OamDmaStep::Read { offset: 0 });
    bus.finish_cpu_cycle(); // Get -> Put

    // Alignment cycle: OAM cannot read during Put
    bus.perform_dma_bus_action();
    assert_eq!(bus.oam_dma.as_ref().unwrap().step, OamDmaStep::Read { offset: 0 });
    bus.finish_cpu_cycle(); // Put -> Get

    bus.perform_dma_bus_action();
    assert_eq!(
        bus.oam_dma.as_ref().unwrap().step,
        OamDmaStep::Write {
            offset: 0,
            value: 0xAB,
        }
    );
    bus.finish_cpu_cycle(); // Get -> Put

    bus.perform_dma_bus_action();
    assert_eq!(bus.oam_dma.as_ref().unwrap().step, OamDmaStep::Read { offset: 1 });
    assert_eq!(read_oam(&mut bus, 0), 0xAB);
}

fn assert_dmc_step(bus: &NesCpuBus, addr: u16, step: DmcDmaStep) {
    assert_eq!(bus.dmc_dma, Some(DmcDma { addr, step }));
}

#[test]
fn dmc_load_dma_step_encodes_the_exact_continuation() {
    let mut prg_rom = vec![0; 0x4000];
    prg_rom[0] = 0xA5; // $C000 in mirrored 16 KiB NROM
    let mut bus = bus_with_prg(&prg_rom);

    // One-byte sample at $C000, with IRQ on completion
    bus.write(0x4010, 0x80);
    bus.write(0x4012, 0x00);
    bus.write(0x4013, 0x00);
    bus.write(0x4015, 0x10);

    // Transfers the APU request to the bus on Get, then advances to Put
    bus.finish_cpu_cycle();

    assert_eq!(bus.dma_cycle, DmaCycle::Put);
    assert_dmc_step(&bus, 0xC000, DmcDmaStep::LoadDelay(DmcLoadDelay::Three));
    assert!(!bus.dma_running());

    assert!(!bus.try_start_dma_halt(CpuCycleKind::Read));
    assert_dmc_step(&bus, 0xC000, DmcDmaStep::LoadDelay(DmcLoadDelay::Two));
    bus.finish_cpu_cycle(); // Put -> Get

    assert!(!bus.try_start_dma_halt(CpuCycleKind::Read));
    assert_dmc_step(&bus, 0xC000, DmcDmaStep::LoadDelay(DmcLoadDelay::One));
    bus.finish_cpu_cycle(); // Get -> Put

    assert!(!bus.try_start_dma_halt(CpuCycleKind::Read));
    assert_dmc_step(&bus, 0xC000, DmcDmaStep::WaitForHaltPhase(DmaCycle::Get));
    bus.finish_cpu_cycle(); // Put -> Get

    // The phase is now eligible, but a CPU write prevents the halt
    assert!(!bus.try_start_dma_halt(CpuCycleKind::Write));
    assert_dmc_step(&bus, 0xC000, DmcDmaStep::AttemptingHalt);
    assert!(!bus.dma_running());
    bus.finish_cpu_cycle(); // Get -> Put

    // The halt may succeed on the next CPU read regardless of the original target phase
    assert!(bus.try_start_dma_halt(CpuCycleKind::Read));
    assert_dmc_step(&bus, 0xC000, DmcDmaStep::Halt);
    assert!(bus.dma_running());

    bus.perform_dma_bus_action();
    assert_dmc_step(&bus, 0xC000, DmcDmaStep::Dummy);
    bus.finish_cpu_cycle(); // Put -> Get

    bus.perform_dma_bus_action();
    assert_dmc_step(&bus, 0xC000, DmcDmaStep::Get);
    bus.finish_cpu_cycle(); // Get -> Put

    // The fetch itself requires Get
    bus.perform_dma_bus_action();
    assert_dmc_step(&bus, 0xC000, DmcDmaStep::Get);
    assert!(!bus.irq_asserted());
    bus.finish_cpu_cycle(); // Put -> Get

    bus.perform_dma_bus_action();

    assert!(bus.dmc_dma.is_none());
    assert!(!bus.dma_running());
    assert!(bus.irq_asserted());
}

#[test]
fn dmc_reload_waits_for_put_before_attempting_the_halt() {
    let prg_rom = vec![0; 0x4000];
    let mut bus = bus_with_prg(&prg_rom);

    bus.schedule_dmc_dma(DmcDmaRequest {
        addr: 0xC123,
        kind: DmcDmaKind::Reload,
    });

    assert_eq!(bus.dma_cycle, DmaCycle::Get);
    assert_dmc_step(&bus, 0xC123, DmcDmaStep::WaitForHaltPhase(DmaCycle::Put));
    assert!(!bus.dma_running());

    // Reload cannot attempt its halt during Get
    assert!(!bus.try_start_dma_halt(CpuCycleKind::Read));
    assert_dmc_step(&bus, 0xC123, DmcDmaStep::WaitForHaltPhase(DmaCycle::Put));

    bus.finish_cpu_cycle(); // Get -> Put

    assert!(bus.try_start_dma_halt(CpuCycleKind::Read));
    assert_dmc_step(&bus, 0xC123, DmcDmaStep::Halt);
    assert!(bus.dma_running());
}

#[test]
fn nes_cpu_bus_reads_controller_bits_with_open_bus_high_bits() {
    let prg_rom = vec![0; 0x4000];
    let mut bus = bus_with_prg(&prg_rom);

    bus.set_controller1(sen_core::controller::ControllerButtons(0b0000_0101));
    bus.write(0x4016, 1);
    bus.write(0x4016, 0);

    assert_eq!(bus.read(0x4016), 0x41);
    assert_eq!(bus.read(0x4016), 0x40);
    assert_eq!(bus.read(0x4016), 0x41);
    assert_eq!(bus.read(0x4017), 0x40);
}
