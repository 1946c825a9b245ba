use sen_core::mapper::Mirroring;
use sen_core::mapper::tqrom::Tqrom;


#[test]
fn prg_ram_control_register_is_absent_from_tqrom_state() {
    let prg_rom = vec![0; 0x8000];
    let chr_rom = vec![0; 0x2000];
    let mut board = Tqrom::new(&prg_rom, &chr_rom, Mirroring::Horizontal).unwrap();
    let before = board.state.clone();

    board.cpu_write(0xA001, 0xC0, 0);

    assert_eq!(board.state, before);
}
