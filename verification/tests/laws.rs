use sen_core::apu::Apu;
use sen_core::cartridge::Cartridge;
use sen_core::cheat::{GameGenieCode, GameGenieCodeError};
use sen_core::controller::{ControllerButtons, ControllerPort};
use sen_core::cpu::Cpu;
use sen_core::microcode::{decode, is_implemented, MicroOp, Reg};
use sen_core::simple_bus::SimpleBus;
use sen_core::mapper::mmc1::Mmc1;
use sen_core::ppu::{Mask, Ppu};

fn cartridge_with_chr_ram() -> Cartridge {
    let mut rom = vec![0; 16];
    rom[0..4].copy_from_slice(b"NES\x1A");
    rom[4] = 1;
    rom[5] = 0;
    rom.extend_from_slice(&vec![0; 0x4000]);

    Cartridge::from_ines(&rom).unwrap()
}

#[test]
fn mmc1_five_writes_load_the_selected_register() {
    let prg_rom = vec![0; 0x8000];
    let mut mmc1 = Mmc1::new(&prg_rom, &[]).unwrap();
    mmc1.cpu_write(0x8000, 0x80, 0);

    for (i, value) in [1u8, 0, 1, 1, 0].iter().enumerate() {
        mmc1.cpu_write(0xA000, *value, 2 + 2 * i as u64);
    }

    assert_eq!(mmc1.state.chr_bank0, 0b01101);
    assert_eq!(mmc1.state.shift, 0);
    assert_eq!(mmc1.state.shift_count, 0);
    assert_eq!(mmc1.state.last_write_cycle, Some(10));
}

#[test]
fn mmc1_commit_uses_only_bit_zero_of_each_value() {
    let prg_rom = vec![0; 0x8000];
    let mut mmc1 = Mmc1::new(&prg_rom, &[]).unwrap();

    for (i, value) in [0x7Fu8, 0x7E, 0x7E, 0x7E, 0x01].iter().enumerate() {
        mmc1.cpu_write(0xE000, *value, 100 + 3 * i as u64);
    }

    assert_eq!(mmc1.state.prg_bank, 0b10001);
}

#[test]
fn four_step_sequence_wraps_after_29830_cycles() {
    let mut apu = Apu::new();
    for _ in 0..29829 {
        apu.tick_frame_counter();
    }
    assert_eq!(apu.frame_cycle, 29829);
    apu.tick_frame_counter();
    assert_eq!(apu.frame_cycle, 0);
}

#[test]
fn five_step_sequence_wraps_after_37282_cycles() {
    let mut apu = Apu::new();
    apu.five_step_mode = true;
    for _ in 0..37281 {
        apu.tick_frame_counter();
    }
    assert_eq!(apu.frame_cycle, 37281);
    apu.tick_frame_counter();
    assert_eq!(apu.frame_cycle, 0);
}

fn dots_until_frame_end(ppu: &mut Ppu, cartridge: &mut Cartridge) -> usize {
    let mut dots = 1;
    while !ppu.tick(cartridge) {
        dots += 1;
    }
    dots
}

#[test]
fn frames_last_89342_dots_and_odd_rendering_frames_one_fewer() {
    let mut cartridge = cartridge_with_chr_ram();
    let mut ppu = Ppu::new();

    assert_eq!(dots_until_frame_end(&mut ppu, &mut cartridge), 89342);
    assert!(ppu.odd_frame);
    // An odd frame without rendering keeps its full length.
    assert_eq!(dots_until_frame_end(&mut ppu, &mut cartridge), 89342);

    ppu.mask = Mask(0x18);
    assert_eq!(dots_until_frame_end(&mut ppu, &mut cartridge), 89342);
    assert!(ppu.odd_frame);
    assert_eq!(dots_until_frame_end(&mut ppu, &mut cartridge), 89341);
    assert!(!ppu.odd_frame);
}

#[test]
fn lower_case_code_reports_lower_case_invalid_character() {
    assert_eq!(
        "gossiq".parse::<GameGenieCode>(),
        Err(GameGenieCodeError::InvalidCharacter {
            position: 5,
            character: 'q',
        })
    );
    assert_eq!(
        "g-o s\ts-i\nq".parse::<GameGenieCode>(),
        Err(GameGenieCodeError::InvalidCharacter {
            position: 5,
            character: 'q',
        })
    );
    assert_eq!(
        "z-e-x-p-y-g-l-a".parse::<GameGenieCode>(),
        "ZEXPYGLA".parse::<GameGenieCode>()
    );
}

#[test]
fn jsr_then_rts_returns_after_the_call() {
    let mut bus = SimpleBus::new();
    bus.load(0x8000, &[0x20, 0x00, 0x90]);
    bus.poke(0x9000, 0x60);
    let mut cpu = Cpu::new();
    cpu.pc = 0x8000;
    cpu.sp = 0xFD;
    let status = u8::from(cpu.status);

    assert_eq!(cpu.step_instruction(&mut bus), 6);
    assert_eq!(cpu.pc, 0x9000);
    assert_eq!(cpu.sp, 0xFB);
    assert_eq!(bus.peek(0x01FD), 0x80);
    assert_eq!(bus.peek(0x01FC), 0x02);

    assert_eq!(cpu.step_instruction(&mut bus), 6);
    assert_eq!(cpu.pc, 0x8003);
    assert_eq!(cpu.sp, 0xFD);
    assert_eq!(u8::from(cpu.status), status);
}

#[test]
fn lda_abs_x_costs_one_more_cycle_across_a_page() {
    let mut bus = SimpleBus::new();
    bus.load(0x8000, &[0xBD, 0xF0, 0x12, 0xBD, 0x10, 0x12]);
    bus.poke(0x130F, 0x80);
    bus.poke(0x122F, 0x00);
    let mut cpu = Cpu::new();
    cpu.pc = 0x8000;
    cpu.x = 0x1F;

    assert_eq!(cpu.step_instruction(&mut bus), 5);
    assert_eq!(cpu.a, 0x80);
    assert!(cpu.status.negative && !cpu.status.zero);
    assert_eq!(cpu.pc, 0x8003);

    assert_eq!(cpu.step_instruction(&mut bus), 4);
    assert_eq!(cpu.a, 0x00);
    assert!(cpu.status.zero && !cpu.status.negative);
    assert_eq!(cpu.pc, 0x8006);
}

#[test]
fn strobed_port_reports_buttons_in_order_then_ones() {
    let buttons = ControllerButtons::from_bits(0b1010_0101);
    let mut port = ControllerPort::default();
    port.write_strobe(1, buttons);
    port.write_strobe(0, buttons);
    let reads: Vec<u8> = (0..10).map(|_| port.read(buttons)).collect();
    assert_eq!(reads, vec![1, 0, 1, 0, 0, 1, 0, 1, 1, 1]);
}

#[test]
fn decode_gives_programs_of_implemented_opcodes_only() {
    assert_eq!(decode(0xA9), vec![MicroOp::ReadPcToRegSetNZ(Reg::A)]);
    assert_eq!(decode(0xEA), vec![MicroOp::ExtraCycle]);
    assert!(is_implemented(0xA9));
    assert!(!is_implemented(0x02));
    assert!(!is_implemented(0xFF));
}

#[test]
fn irq_sequence_pushes_state_and_jumps_through_vector() {
    let mut bus = SimpleBus::new();
    bus.poke(0xFFFE, 0x34);
    bus.poke(0xFFFF, 0x12);
    let mut cpu = Cpu::new();
    cpu.pc = 0x8002;
    cpu.sp = 0xFD;
    cpu.status.interrupt_disable = false;
    cpu.status.carry = true;
    let flags = u8::from(cpu.status);

    cpu.start_irq();
    assert_eq!(cpu.step_instruction(&mut bus), 7);
    assert_eq!(cpu.pc, 0x1234);
    assert_eq!(cpu.sp, 0xFA);
    assert_eq!(bus.peek(0x01FD), 0x80);
    assert_eq!(bus.peek(0x01FC), 0x02);
    assert_eq!(bus.peek(0x01FB), flags);
    assert_eq!(bus.peek(0x01FB) & 0x30, 0x20);
    assert!(cpu.status.interrupt_disable && cpu.status.carry);
}

#[test]
fn four_step_sequence_reports_quarter_half_and_irq_steps() {
    let mut apu = Apu::new();
    apu.irq_inhibit = true;
    let mut quarters = Vec::new();
    let mut halves = Vec::new();
    let mut irqs = Vec::new();
    for k in 1..=29830u32 {
        let events = apu.tick_frame_counter();
        if events.quarter {
            quarters.push(k);
        }
        if events.half {
            halves.push(k);
        }
        if events.irq {
            irqs.push(k);
        }
    }
    assert_eq!(quarters, vec![7457, 14913, 22371, 29829]);
    assert_eq!(halves, vec![14913, 29829]);
    assert_eq!(irqs, vec![29828, 29829, 29830]);
}
