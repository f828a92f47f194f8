use npad::ControllerStyle;

fn all_styles() -> Vec<ControllerStyle> {
    vec![
        ControllerStyle::Invalid,
        ControllerStyle::ProController,
        ControllerStyle::Handheld,
        ControllerStyle::DualJoycon,
        ControllerStyle::LeftJoycon,
        ControllerStyle::RightJoycon,
        ControllerStyle::GamecubeController,
        ControllerStyle::Pokeball,
        ControllerStyle::NES,
        ControllerStyle::HandheldNES,
        ControllerStyle::SNES,
        ControllerStyle::Nintendo64,
        ControllerStyle::SegaGenesis,
        ControllerStyle::GenericExternal,
        ControllerStyle::Generic,
    ]
}

#[test]
fn full_control_styles() {
    for style in all_styles() {
        let expected = matches!(
            style,
            ControllerStyle::ProController | ControllerStyle::Handheld | ControllerStyle::DualJoycon
        );
        assert_eq!(style.is_full_control(), expected);
    }
}

#[test]
fn standard_styles_add_the_joycon_halves() {
    for style in all_styles() {
        let expected = style.is_full_control()
            || matches!(style, ControllerStyle::LeftJoycon | ControllerStyle::RightJoycon);
        assert_eq!(style.is_standard(), expected);
    }
}

#[test]
fn only_the_gamecube_style_has_analog_triggers() {
    for style in all_styles() {
        let expected = matches!(style, ControllerStyle::GamecubeController);
        assert_eq!(style.supports_analog_trigger(), expected);
    }
}

#[test]
fn supported_styles_are_standard_or_gamecube() {
    for style in all_styles() {
        let expected = style.is_standard() || style.supports_analog_trigger();
        assert_eq!(style.is_supported(), expected);
    }
    assert!(!ControllerStyle::NES.is_supported());
    assert!(!ControllerStyle::Generic.is_supported());
    assert!(!ControllerStyle::Invalid.is_supported());
}
