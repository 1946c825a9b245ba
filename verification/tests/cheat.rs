use sen_core::cheat::GameGenieCode;
use sen_core::cheat::GameGenieCodeError;


#[test]
fn decodes_six_character_code() {
    let code: GameGenieCode = "GOSSIP".parse().unwrap();

    assert_eq!(code.address(), 0xD1DD);
    assert_eq!(code.replacement(), 0x14);
    assert_eq!(code.compare(), None);
}

#[test]
fn decodes_eight_character_code() {
    let code: GameGenieCode = "ZEXPYGLA".parse().unwrap();

    assert_eq!(code.address(), 0x94A7);
    assert_eq!(code.replacement(), 0x02);
    assert_eq!(code.compare(), Some(0x03));
}

#[test]
fn comparison_controls_application() {
    let code: GameGenieCode = "ZEXPYGLA".parse().unwrap();

    assert_eq!(code.apply(0x94A7, 0x03), Some(0x02));
    assert_eq!(code.apply(0x94A7, 0x04), None);
    assert_eq!(code.apply(0x94A8, 0x03), None);
}

#[test]
fn parsing_is_case_insensitive_and_ignores_display_separators() {
    assert_eq!(
        "gos-sip".parse::<GameGenieCode>(),
        "GOSSIP".parse::<GameGenieCode>()
    );
    assert_eq!(
        "zexp ygla".parse::<GameGenieCode>(),
        "ZEXPYGLA".parse::<GameGenieCode>()
    );
}

#[test]
fn rejects_invalid_lengths_and_characters() {
    assert_eq!(
        "GOSSI".parse::<GameGenieCode>(),
        Err(GameGenieCodeError::InvalidLength(5))
    );
    assert_eq!(
        "GOSSIQ".parse::<GameGenieCode>(),
        Err(GameGenieCodeError::InvalidCharacter {
            position: 5,
            character: 'Q',
        })
    );
}
