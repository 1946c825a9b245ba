use sen_core::mapper::Mirroring;
use sen_core::mapper::txrom::Txrom;
use sen_core::mapper::txrom::TxromMirroring;


#[test]
fn four_screen_wiring_has_no_mutable_mirroring_state() {
    let prg_rom = vec![0; 0x8000];
    let chr_rom = vec![0; 0x2000];
    let mut board = Txrom::new(&prg_rom, &chr_rom, Mirroring::FourScreen).unwrap();
    let before = board.state.clone();

    board.cpu_write(0xA000, 1, 0);

    assert!(matches!(board.mirroring, TxromMirroring::FourScreen));
    assert_eq!(board.state, before);
    assert_eq!(board.mirroring(), Mirroring::FourScreen);
}
