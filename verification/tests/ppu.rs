use sen_core::cartridge::Cartridge;
use sen_core::mapper::Mirroring;
use sen_core::ppu::{
    attribute_addr, attribute_palette_bits, nametable_addr, palette_index, Control, Mask, Ppu,
    SpriteSlot, Status,
};

fn scroll_v(nametable: u16, coarse_y: u16, coarse_x: u16, fine_y: u16) -> u16 {
    (fine_y << 12) | (nametable << 10) | (coarse_y << 5) | coarse_x
}

fn cartridge_with_chr_ram() -> Cartridge {
    let mut rom = vec![0; 16];
    rom[0..4].copy_from_slice(b"NES\x1A");
    rom[4] = 1;
    rom[5] = 0;
    rom.extend_from_slice(&vec![0; 0x4000]);

    Cartridge::from_ines(&rom).unwrap()
}

fn ppu_with_visible_sprite_zero() -> (Ppu, Cartridge) {
    let mut ppu = Ppu::new();
    let cartridge = cartridge_with_chr_ram();

    ppu.mask = Mask(0x18); // show background + show sprites
    ppu.x = 0;

    ppu.bg.pattern_shift_lo = 0x8000;
    ppu.bg.pattern_shift_hi = 0x0000;

    ppu.sprites[0] = Some(SpriteSlot {
        x: 10,
        attr: 0,
        pattern_lo: 0x80,
        pattern_hi: 0,
        oam_index: 0,
    });

    (ppu, cartridge)
}

#[test]
fn write_ctrl_updates_nametable_bits_without_destroying_other_t_bits() {
    let mut ppu = Ppu::new();
    ppu.t = 0x73EF;

    ppu.write_ctrl(0x02);

    assert_eq!(ppu.ctrl, Control(0x02));
    assert_eq!(ppu.t, 0x7BEF);
}

#[test]
fn write_addr_uses_two_writes_to_load_vram_address() {
    let mut ppu = Ppu::new();

    ppu.write_addr(0x23);
    assert!(ppu.w);
    assert_eq!(ppu.v, 0x0000);

    ppu.write_addr(0x45);
    assert!(!ppu.w);
    assert_eq!(ppu.v, 0x2345);
    assert_eq!(ppu.t, 0x2345);
}

#[test]
fn read_status_clears_vblank_and_resets_write_latch() {
    let mut ppu = Ppu::new();
    ppu.status = Status(0xE0);
    ppu.w = true;

    assert_eq!(ppu.read_status(), 0xE0);
    assert_eq!(ppu.status, Status(0x60));
    assert!(!ppu.w);
}

#[test]
fn write_oam_data_stores_at_oam_addr_and_increments_addr() {
    let mut ppu = Ppu::new();
    ppu.oam_addr = 0xFE;

    ppu.write_oam_data(0x12);
    ppu.write_oam_data(0x34);

    assert_eq!(ppu.oam[0xFE], 0x12);
    assert_eq!(ppu.oam[0xFF], 0x34);
    assert_eq!(ppu.oam_addr, 0x00);
}

#[test]
fn ppudata_writes_to_chr_ram_and_increments_by_one_by_default() {
    let mut ppu = Ppu::new();
    let mut cartridge = cartridge_with_chr_ram();

    ppu.cpu_write(0x2006, 0x00, &mut cartridge);
    ppu.cpu_write(0x2006, 0x10, &mut cartridge);
    ppu.cpu_write(0x2007, 0xAB, &mut cartridge);

    assert_eq!(cartridge.ppu_read(0x0010), Some(0xAB));
    assert_eq!(ppu.v, 0x0011);
}

#[test]
fn ppudata_increments_by_32_when_ctrl_increment_bit_is_set() {
    let mut ppu = Ppu::new();
    let mut cartridge = cartridge_with_chr_ram();

    ppu.cpu_write(0x2000, 0x04, &mut cartridge);
    ppu.cpu_write(0x2006, 0x20, &mut cartridge);
    ppu.cpu_write(0x2006, 0x00, &mut cartridge);
    ppu.cpu_write(0x2007, 0xAB, &mut cartridge);

    assert_eq!(ppu.v, 0x2020);
}

#[test]
fn ppudata_reads_chr_ram_through_read_buffer() {
    let mut ppu = Ppu::new();
    let mut cartridge = cartridge_with_chr_ram();
    cartridge.ppu_write(0x0000, 0x12);
    cartridge.ppu_write(0x0001, 0x34);

    ppu.cpu_write(0x2006, 0x00, &mut cartridge);
    ppu.cpu_write(0x2006, 0x00, &mut cartridge);

    assert_eq!(ppu.cpu_read(0x2007, &mut cartridge), 0x00);
    assert_eq!(ppu.cpu_read(0x2007, &mut cartridge), 0x12);
    assert_eq!(ppu.cpu_read(0x2007, &mut cartridge), 0x34);
}

#[test]
fn palette_addresses_mirror_every_32_bytes_with_background_mirrors() {
    assert_eq!(palette_index(0x3F00), 0x00);
    assert_eq!(palette_index(0x3F10), 0x00);
    assert_eq!(palette_index(0x3F14), 0x04);
    assert_eq!(palette_index(0x3F1F), 0x1F);
    assert_eq!(palette_index(0x3F20), 0x00);
    assert_eq!(palette_index(0x3FFF), 0x1F);
}

#[test]
fn nametable_addr_uses_nametable_and_coarse_scroll_bits() {
    let v = scroll_v(2, 11, 18, 5);

    assert_eq!(nametable_addr(v), 0x2000 + 2 * 0x0400 + 11 * 32 + 18);
    assert_eq!(nametable_addr(scroll_v(3, 31, 31, 0)), 0x2FFF);
    assert_eq!(nametable_addr(scroll_v(3, 31, 31, 7)), 0x2FFF);
}

#[test]
fn nametable_index_maps_four_screen_tables_directly() {
    let ppu = Ppu::new();

    assert_eq!(ppu.nametable_index(0x2000, Mirroring::FourScreen), 0x0000);
    assert_eq!(ppu.nametable_index(0x23FF, Mirroring::FourScreen), 0x03FF);
    assert_eq!(ppu.nametable_index(0x2400, Mirroring::FourScreen), 0x0400);
    assert_eq!(ppu.nametable_index(0x27FF, Mirroring::FourScreen), 0x07FF);
    assert_eq!(ppu.nametable_index(0x2800, Mirroring::FourScreen), 0x0800);
    assert_eq!(ppu.nametable_index(0x2BFF, Mirroring::FourScreen), 0x0BFF);
    assert_eq!(ppu.nametable_index(0x2C00, Mirroring::FourScreen), 0x0C00);
    assert_eq!(ppu.nametable_index(0x2FFF, Mirroring::FourScreen), 0x0FFF);
}

#[test]
fn nametable_index_mirrors_3000_range_to_2000_range() {
    let ppu = Ppu::new();

    assert_eq!(ppu.nametable_index(0x3000, Mirroring::FourScreen), 0x0000);
    assert_eq!(ppu.nametable_index(0x33FF, Mirroring::FourScreen), 0x03FF);
}

#[test]
fn attribute_addr_uses_one_byte_per_four_by_four_tile_block() {
    assert_eq!(
        attribute_addr(scroll_v(1, 9, 14, 6)),
        0x2000 + 0x0400 + 0x03C0 + 2 * 8 + 3
    );

    assert_eq!(attribute_addr(scroll_v(1, 8, 12, 0)), 0x27D3);
    assert_eq!(attribute_addr(scroll_v(1, 11, 15, 7)), 0x27D3);
}

#[test]
fn attribute_palette_bits_selects_the_two_bit_quadrant() {
    let attr = 0b11_10_01_00;

    assert_eq!(attribute_palette_bits(scroll_v(0, 0, 0, 0), attr), 0);
    assert_eq!(attribute_palette_bits(scroll_v(0, 0, 2, 0), attr), 1);
    assert_eq!(attribute_palette_bits(scroll_v(0, 2, 0, 0), attr), 2);
    assert_eq!(attribute_palette_bits(scroll_v(0, 2, 2, 0), attr), 3);
}

#[test]
fn increment_coarse_x_advances_within_current_nametable() {
    let mut ppu = Ppu::new();
    ppu.v = scroll_v(1, 7, 14, 2);

    ppu.increment_coarse_x();

    assert_eq!(ppu.v, scroll_v(1, 7, 15, 2));
}

#[test]
fn increment_coarse_x_wraps_and_switches_horizontal_nametable() {
    let mut ppu = Ppu::new();
    ppu.v = scroll_v(0, 4, 31, 3);

    ppu.increment_coarse_x();

    assert_eq!(ppu.v, scroll_v(1, 4, 0, 3));
}

#[test]
fn increment_y_advances_fine_y_before_touching_coarse_y() {
    let mut ppu = Ppu::new();
    ppu.v = scroll_v(2, 12, 7, 3);

    ppu.increment_y();

    assert_eq!(ppu.v, scroll_v(2, 12, 7, 4));
}

#[test]
fn increment_y_wraps_fine_y_and_advances_coarse_y() {
    let mut ppu = Ppu::new();
    ppu.v = scroll_v(2, 12, 7, 7);

    ppu.increment_y();

    assert_eq!(ppu.v, scroll_v(2, 13, 7, 0));
}

#[test]
fn increment_y_wraps_coarse_y_29_and_switches_vertical_nametable() {
    let mut ppu = Ppu::new();
    ppu.v = scroll_v(0, 29, 7, 7);

    ppu.increment_y();

    assert_eq!(ppu.v, scroll_v(2, 0, 7, 0));
}

#[test]
fn increment_y_wraps_coarse_y_31_without_switching_vertical_nametable() {
    let mut ppu = Ppu::new();
    ppu.v = scroll_v(2, 31, 7, 7);

    ppu.increment_y();

    assert_eq!(ppu.v, scroll_v(2, 0, 7, 0));
}

#[test]
fn background_pipeline_shifts_on_rendering_shift_dots() {
    let shift_cycles = [2, 8, 9, 257, 322, 329, 337];
    let no_shift_cycles = [0, 1, 258, 320, 321, 338, 340];

    for cycle in shift_cycles {
        let mut ppu = Ppu::new();
        ppu.cycle = cycle;
        assert!(ppu.should_shift_background_pipeline(), "cycle {cycle}");
    }

    for cycle in no_shift_cycles {
        let mut ppu = Ppu::new();
        ppu.cycle = cycle;
        assert!(!ppu.should_shift_background_pipeline(), "cycle {cycle}");
    }
}

#[test]
fn load_background_shifters_loads_next_tile_into_low_bytes() {
    let mut ppu = Ppu::new();
    ppu.bg.pattern_shift_lo = 0x12AB;
    ppu.bg.pattern_shift_hi = 0x34CD;
    ppu.bg.attr_shift_lo = 0x5601;
    ppu.bg.attr_shift_hi = 0x7802;
    ppu.bg.next_pattern_lo = 0xA5;
    ppu.bg.next_pattern_hi = 0x3C;
    ppu.bg.next_palette_id = 0b10;

    ppu.load_background_shifters();

    assert_eq!(ppu.bg.pattern_shift_lo, 0x12A5);
    assert_eq!(ppu.bg.pattern_shift_hi, 0x343C);
    assert_eq!(ppu.bg.attr_shift_lo, 0x5600);
    assert_eq!(ppu.bg.attr_shift_hi, 0x78FF);
}

#[test]
fn sprite_zero_hit_is_set_when_sprite_zero_overlaps_opaque_background() {
    let (mut ppu, mut cartridge) = ppu_with_visible_sprite_zero();

    ppu.render_pixel_from_pipeline(10, 0, &mut cartridge);

    assert_eq!(ppu.status.bits() & 0x40, 0x40);
}

#[test]
fn sprite_zero_hit_ignores_sprite_priority() {
    let (mut ppu, mut cartridge) = ppu_with_visible_sprite_zero();
    ppu.sprites[0].as_mut().unwrap().attr = 0x20;

    ppu.render_pixel_from_pipeline(10, 0, &mut cartridge);

    assert_eq!(ppu.status.bits() & 0x40, 0x40);
}

#[test]
fn sprite_zero_hit_is_not_set_when_background_pixel_is_transparent() {
    let (mut ppu, mut cartridge) = ppu_with_visible_sprite_zero();
    ppu.bg.pattern_shift_lo = 0;
    ppu.bg.pattern_shift_hi = 0;

    ppu.render_pixel_from_pipeline(10, 0, &mut cartridge);

    assert_eq!(ppu.status.bits() & 0x40, 0);
}

#[test]
fn sprite_zero_hit_is_not_set_when_sprite_pixel_is_transparent() {
    let (mut ppu, mut cartridge) = ppu_with_visible_sprite_zero();
    ppu.sprites[0].as_mut().unwrap().pattern_lo = 0;
    ppu.sprites[0].as_mut().unwrap().pattern_hi = 0;

    ppu.render_pixel_from_pipeline(10, 0, &mut cartridge);

    assert_eq!(ppu.status.bits() & 0x40, 0);
}

#[test]
fn sprite_zero_hit_is_not_set_for_nonzero_sprite() {
    let (mut ppu, mut cartridge) = ppu_with_visible_sprite_zero();
    ppu.sprites[0].as_mut().unwrap().oam_index = 1;

    ppu.render_pixel_from_pipeline(10, 0, &mut cartridge);

    assert_eq!(ppu.status.bits() & 0x40, 0);
}

#[test]
fn sprite_zero_hit_is_not_set_at_x_255() {
    let (mut ppu, mut cartridge) = ppu_with_visible_sprite_zero();
    ppu.sprites[0].as_mut().unwrap().x = 255;

    ppu.render_pixel_from_pipeline(255, 0, &mut cartridge);

    assert_eq!(ppu.status.bits() & 0x40, 0);
}
