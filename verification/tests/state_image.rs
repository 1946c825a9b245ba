use sen_core::cartridge::{Cartridge, CartridgeId};
use sen_core::controller::ControllerButtons;
use sen_core::nes::{InputFrame, MachineState, Nes};
use sen_core::state_image::{check_state_image, write_state_image, StateImageError};

const SAMPLE_RATE_BITS: u64 = 0x40E5_8880_0000_0000;

fn nrom_with_program(program: &[u8]) -> Cartridge {
    let mut prg_rom = vec![0; 0x4000];
    prg_rom[..program.len()].copy_from_slice(program);
    prg_rom[0x3FFC] = 0x00;
    prg_rom[0x3FFD] = 0x80;

    let mut rom = vec![0; 16];
    rom[0..4].copy_from_slice(b"NES\x1A");
    rom[4] = 1;
    rom[5] = 1;
    rom.extend_from_slice(&prg_rom);
    rom.extend_from_slice(&vec![0; 0x2000]);

    Cartridge::from_ines(&rom).unwrap()
}

fn battery_backed_txrom() -> Cartridge {
    let mut prg_rom = vec![0; 0x8000];
    prg_rom[..3].copy_from_slice(&[0x4C, 0x00, 0x80]);
    prg_rom[0x7FFC] = 0x00;
    prg_rom[0x7FFD] = 0x80;

    let mut rom = vec![0; 16];
    rom[0..4].copy_from_slice(b"NES\x1A");
    rom[4] = 2;
    rom[5] = 0;
    rom[6] = 0x42;
    rom.extend_from_slice(&prg_rom);

    Cartridge::from_ines(&rom).unwrap()
}

fn new_nes(cartridge: Cartridge) -> Box<Nes> {
    Box::new(Nes::new(cartridge))
}

/// Bytes standing for an encoded machine state.
fn sample_payload() -> Vec<u8> {
    (0..300u32).map(|i| (i * 7 % 251) as u8).collect()
}

fn current_state(nes: &Nes) -> MachineState {
    *nes.capture_frame_checkpoint().unwrap().state()
}

fn image_of(nes: &Nes, payload: &[u8]) -> Vec<u8> {
    let mut image = vec![0; nes.serialized_state_size()];
    nes.serialize_state(&mut image, payload).unwrap();
    image
}

#[test]
fn serialized_state_round_trip_restores_causal_state() {
    let mut nes = new_nes(nrom_with_program(&[0x4C, 0x00, 0x80]));

    nes.run_frame(InputFrame::default()).unwrap();

    let expected = current_state(&nes);
    let payload = sample_payload();
    let image = image_of(&nes, &payload);

    nes.run_frame(InputFrame::new(
        ControllerButtons::default().with_a(true),
        ControllerButtons::default(),
    ))
    .unwrap();

    nes.unserialize_state(&image, Some((expected, payload.len())))
        .unwrap();

    let actual = current_state(&nes);

    assert!(actual == expected);
    assert!(nes.frame().pixels().iter().all(|&byte| byte == 0));
}

#[test]
fn serialized_state_image_is_deterministic() {
    let mut nes = new_nes(nrom_with_program(&[0x4C, 0x00, 0x80]));
    nes.run_frame(InputFrame::default()).unwrap();

    let payload = sample_payload();
    let first = image_of(&nes, &payload);
    let second = image_of(&nes, &payload);

    assert_eq!(first, second);
}

#[test]
fn corrupted_serialized_state_is_rejected_without_mutation() {
    let mut nes = new_nes(nrom_with_program(&[0x4C, 0x00, 0x80]));
    nes.run_frame(InputFrame::default()).unwrap();

    let before = current_state(&nes);
    let payload = sample_payload();
    let mut image = image_of(&nes, &payload);

    let last = image.len() - 1;
    image[last] ^= 1;

    assert_eq!(
        nes.unserialize_state(&image, Some((before, payload.len()))),
        Err(StateImageError::ChecksumMismatch)
    );

    let after = current_state(&nes);
    assert!(before == after);
}

#[test]
fn serialized_state_restore_preserves_save_ram_address() {
    let mut nes = new_nes(battery_backed_txrom());
    nes.run_frame(InputFrame::default()).unwrap();

    nes.save_ram_mut().unwrap()[0] = 0xA5;
    let original_address = nes.save_ram_mut().unwrap().as_mut_ptr();

    let saved = current_state(&nes);
    let payload = sample_payload();
    let image = image_of(&nes, &payload);

    nes.save_ram_mut().unwrap()[0] = 0x5A;
    nes.unserialize_state(&image, Some((saved, payload.len())))
        .unwrap();

    let save_ram = nes.save_ram_mut().unwrap();

    assert_eq!(save_ram.as_mut_ptr(), original_address);
    assert_eq!(save_ram[0], 0xA5);
}

#[test]
fn state_image_header_layout() {
    let id = CartridgeId([7; 32]);
    let payload = [1u8, 2, 3];
    let mut image = vec![0xEE; 32768];
    write_state_image(&mut image, &id, 0x0102_0304_0506_0708, &payload).unwrap();

    assert_eq!(&image[..8], b"SENSTATE");
    assert_eq!(&image[8..10], &[1, 0]);
    assert_eq!(&image[10..12], &[1, 0]);
    assert_eq!(&image[12..44], &[7; 32]);
    assert_eq!(&image[44..52], &[8, 7, 6, 5, 4, 3, 2, 1]);
    assert_eq!(&image[52..56], &[3, 0, 0, 0]);
    assert_eq!(&image[88..91], &[1, 2, 3]);
    assert!(image[91..].iter().all(|&b| b == 0));

    let mut hasher = blake3::Hasher::new();
    hasher.update(&image[..56]);
    hasher.update(&image[88..]);
    assert_eq!(&image[56..88], hasher.finalize().as_bytes());
}

#[test]
fn state_image_check_gives_back_payload_length() {
    let id = CartridgeId([9; 32]);
    let payload = sample_payload();
    let mut image = vec![0; 32768];
    write_state_image(&mut image, &id, SAMPLE_RATE_BITS, &payload).unwrap();

    assert_eq!(check_state_image(&image, &id, SAMPLE_RATE_BITS), Ok(300));
    assert_eq!(&image[88..388], &payload[..]);
}

#[test]
fn state_image_full_payload_fits() {
    let id = CartridgeId([0; 32]);
    let payload = vec![0x5C; 32768 - 88];
    let mut image = vec![0; 32768];
    write_state_image(&mut image, &id, 0, &payload).unwrap();
    assert_eq!(check_state_image(&image, &id, 0), Ok(32768 - 88));
}

#[test]
fn state_image_refuses_wrong_buffer_sizes() {
    let id = CartridgeId([0; 32]);
    let mut short = vec![0x11; 100];
    assert_eq!(
        write_state_image(&mut short, &id, 0, &[]),
        Err(StateImageError::InvalidBufferSize { expected: 32768, actual: 100 })
    );
    assert!(short.iter().all(|&b| b == 0x11));
    assert_eq!(
        check_state_image(&vec![0; 32769], &id, 0),
        Err(StateImageError::InvalidBufferSize { expected: 32768, actual: 32769 })
    );
}

#[test]
fn state_image_refuses_oversized_payload() {
    let id = CartridgeId([0; 32]);
    let mut image = vec![0x22; 32768];
    let payload = vec![0; 32768 - 87];
    assert_eq!(
        write_state_image(&mut image, &id, 0, &payload),
        Err(StateImageError::PayloadTooLarge)
    );
    assert_eq!(&image[..8], b"SENSTATE");
    assert!(image[52..].iter().all(|&b| b == 0));
}

fn valid_image(id: &CartridgeId) -> Vec<u8> {
    let mut image = vec![0; 32768];
    write_state_image(&mut image, id, SAMPLE_RATE_BITS, &sample_payload()).unwrap();
    image
}

#[test]
fn state_image_refuses_bad_magic() {
    let id = CartridgeId([3; 32]);
    let mut image = valid_image(&id);
    image[0] = b'X';
    assert_eq!(check_state_image(&image, &id, SAMPLE_RATE_BITS), Err(StateImageError::InvalidMagic));
}

#[test]
fn state_image_refuses_other_versions() {
    let id = CartridgeId([3; 32]);
    let mut image = valid_image(&id);
    image[8] = 2;
    assert_eq!(
        check_state_image(&image, &id, SAMPLE_RATE_BITS),
        Err(StateImageError::UnsupportedFormatVersion(2))
    );

    let mut image = valid_image(&id);
    image[11] = 1;
    assert_eq!(
        check_state_image(&image, &id, SAMPLE_RATE_BITS),
        Err(StateImageError::UnsupportedEmulationRevision(0x0101))
    );
}

#[test]
fn state_image_refuses_other_machines() {
    let id = CartridgeId([3; 32]);
    let image = valid_image(&id);
    assert_eq!(
        check_state_image(&image, &CartridgeId([4; 32]), SAMPLE_RATE_BITS),
        Err(StateImageError::IncompatibleMachine)
    );
    assert_eq!(
        check_state_image(&image, &id, SAMPLE_RATE_BITS + 1),
        Err(StateImageError::IncompatibleMachine)
    );
}

#[test]
fn state_image_refuses_impossible_payload_length() {
    let id = CartridgeId([3; 32]);
    let mut image = valid_image(&id);
    image[52..56].copy_from_slice(&(32768u32 - 87).to_le_bytes());
    assert_eq!(
        check_state_image(&image, &id, SAMPLE_RATE_BITS),
        Err(StateImageError::InvalidPayloadLength(32768 - 87))
    );
}

#[test]
fn state_image_refuses_corrupted_checksum() {
    let id = CartridgeId([3; 32]);
    let mut image = valid_image(&id);
    image[60] ^= 0x80;
    assert_eq!(
        check_state_image(&image, &id, SAMPLE_RATE_BITS),
        Err(StateImageError::ChecksumMismatch)
    );
}

#[test]
fn serialize_state_between_frames_is_refused() {
    let mut nes = new_nes(nrom_with_program(&[0x4C, 0x00, 0x80]));
    nes.run_frame(InputFrame::default()).unwrap();
    let _ = nes.advance_scheduler();
    let mut image = vec![0x33; 32768];
    assert_eq!(
        nes.serialize_state(&mut image, &[]),
        Err(StateImageError::NotAtFrameBoundary)
    );
    assert!(image.iter().all(|&b| b == 0x33));
    assert_eq!(nes.serialized_state_size(), 32768);
}

#[test]
fn unserialize_state_refuses_failed_or_partial_decoding() {
    let mut nes = new_nes(nrom_with_program(&[0x4C, 0x00, 0x80]));
    nes.run_frame(InputFrame::default()).unwrap();
    let saved = current_state(&nes);
    let payload = sample_payload();
    let image = image_of(&nes, &payload);

    assert_eq!(
        nes.unserialize_state(&image, None),
        Err(StateImageError::DecodingFailed)
    );
    assert_eq!(
        nes.unserialize_state(&image, Some((saved, payload.len() - 1))),
        Err(StateImageError::TrailingPayload)
    );
    assert!(current_state(&nes) == saved);
}

#[test]
fn unserialize_state_refuses_image_of_another_cartridge() {
    let mut source = new_nes(nrom_with_program(&[0x4C, 0x00, 0x80]));
    let mut target = new_nes(nrom_with_program(&[0xEA, 0x4C, 0x00, 0x80]));
    source.run_frame(InputFrame::default()).unwrap();
    target.run_frame(InputFrame::default()).unwrap();

    let saved = current_state(&source);
    let payload = sample_payload();
    let image = image_of(&source, &payload);
    let before = current_state(&target);

    assert_eq!(
        target.unserialize_state(&image, Some((saved, payload.len()))),
        Err(StateImageError::IncompatibleMachine)
    );
    assert!(current_state(&target) == before);
}

#[test]
fn unserialize_state_refuses_image_of_another_sample_rate() {
    let program = &[0x4C, 0x00, 0x80];
    let mut source = Box::new(Nes::new_with_sample_rate_bits(
        nrom_with_program(program),
        48_000.0f64.to_bits(),
    ));
    let mut target = new_nes(nrom_with_program(program));
    source.run_frame(InputFrame::default()).unwrap();
    target.run_frame(InputFrame::default()).unwrap();

    let saved = current_state(&source);
    let payload = sample_payload();
    let image = image_of(&source, &payload);
    let before = current_state(&target);

    assert_eq!(
        target.unserialize_state(&image, Some((saved, payload.len()))),
        Err(StateImageError::IncompatibleMachine)
    );
    assert!(current_state(&target) == before);
}

#[test]
fn oversized_payload_leaves_cleared_buffer_with_machine_header() {
    let mut nes = new_nes(nrom_with_program(&[0x4C, 0x00, 0x80]));
    nes.run_frame(InputFrame::default()).unwrap();
    let mut image = vec![0x77; 32768];
    let payload = vec![1; 32768 - 87];
    assert_eq!(
        nes.serialize_state(&mut image, &payload),
        Err(StateImageError::PayloadTooLarge)
    );
    assert_eq!(&image[..8], b"SENSTATE");
    assert_eq!(&image[44..52], &SAMPLE_RATE_BITS.to_le_bytes());
    assert!(image[52..].iter().all(|&b| b == 0));
}
