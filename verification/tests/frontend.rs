use sen_core::frontend::{
    parse_game_genie_codes, rgb_to_rgba, rgb_to_xrgb, CropOverscan, PadState, Viewport,
};

#[test]
fn overscan_viewports_have_expected_dimensions() {
    assert_eq!(
        CropOverscan::Disabled.viewport(),
        Viewport {
            left: 0,
            top: 0,
            width: 256,
            height: 240,
        }
    );

    assert_eq!(
        CropOverscan::Vertical.viewport(),
        Viewport {
            left: 0,
            top: 8,
            width: 256,
            height: 224,
        }
    );

    assert_eq!(
        CropOverscan::All.viewport(),
        Viewport {
            left: 8,
            top: 8,
            width: 240,
            height: 224,
        }
    );
}

#[test]
fn parses_game_genie_code_list() {
    let codes = parse_game_genie_codes(vec!["GOSSIP".into(), "ZEXPYGLA".into()]).unwrap();
    assert_eq!(codes.len(), 2);
}

#[test]
fn rejects_a_list_containing_an_invalid_code() {
    let result = parse_game_genie_codes(vec!["GOSSIP".into(), "INVALID".into()]);
    assert!(result.is_err());
}

#[test]
fn empty_list_clears_cheats() {
    assert!(parse_game_genie_codes(Vec::new()).unwrap().is_empty());
}

#[test]
fn code_list_keeps_order_and_reports_the_first_error() {
    let codes = parse_game_genie_codes(vec!["ZEXPYGLA".into(), "GOSSIP".into()]).unwrap();
    assert_eq!(codes[0].address(), 0x94A7);
    assert_eq!(codes[1].address(), 0xD1DD);

    let err = parse_game_genie_codes(vec!["GOSSIQ".into(), "GOSSI".into()]).unwrap_err();
    assert_eq!(
        err,
        sen_core::cheat::GameGenieCodeError::InvalidCharacter {
            position: 5,
            character: 'Q',
        }
    );
}

fn pad() -> PadState {
    PadState {
        a: false,
        b: false,
        select: false,
        start: false,
        up: false,
        down: false,
        left: false,
        right: false,
    }
}

#[test]
fn opposite_directions_cancel_unless_allowed() {
    let held = PadState {
        a: true,
        up: true,
        down: true,
        right: true,
        ..pad()
    };

    assert_eq!(held.buttons(false).0, 0x01 | 0x80);
    assert_eq!(held.buttons(true).0, 0x01 | 0x10 | 0x20 | 0x80);
}

#[test]
fn every_button_has_its_own_bit() {
    let all = PadState {
        a: true,
        b: true,
        select: true,
        start: true,
        up: true,
        down: false,
        left: true,
        right: false,
    };
    assert_eq!(all.buttons(false).0, 0x01 | 0x02 | 0x04 | 0x08 | 0x10 | 0x40);
    assert_eq!(pad().buttons(false).0, 0);
}

#[test]
fn rgb_pixels_convert_to_rgba_and_xrgb() {
    let rgb = [0x11, 0x22, 0x33, 0x44, 0x55, 0x66, 0x77];

    assert_eq!(
        rgb_to_rgba(&rgb),
        vec![0x11, 0x22, 0x33, 0xFF, 0x44, 0x55, 0x66, 0xFF]
    );
    assert_eq!(rgb_to_xrgb(&rgb), vec![0x0011_2233, 0x0044_5566]);
}
