use npad::buttons::{A, L, UP};
use npad::{Attributes, Buttons, CommonSample, Controller, ControllerStyle, GcSample, StyleSample};

fn common_sample(bits: u64) -> CommonSample {
    CommonSample {
        sampling_number: 0,
        buttons: Buttons { bits },
        stick_l_x: 0,
        stick_l_y: 0,
        stick_r_x: 0,
        stick_r_y: 0,
        attributes: Attributes { bits: 0 },
    }
}

fn gc_sample(bits: u64, left_trigger: u32, right_trigger: u32) -> GcSample {
    GcSample {
        sampling_number: 0,
        buttons: Buttons { bits },
        stick_l_x: 0,
        stick_l_y: 0,
        stick_r_x: 0,
        stick_r_y: 0,
        attributes: Attributes { bits: 0 },
        left_trigger,
        right_trigger,
    }
}

#[test]
fn new_state_is_zeroed() {
    let c = Controller::new(4);
    assert_eq!(c.buttons.bits, 0);
    assert_eq!(c.pressed_buttons.bits, 0);
    assert_eq!(c.released_buttons.bits, 0);
    assert_eq!(c.attributes.bits, 0);
    assert_eq!((c.left_stick.x, c.left_stick.y), (0, 0));
    assert_eq!((c.right_stick.x, c.right_stick.y), (0, 0));
    assert_eq!(c.trigger_l, 0);
    assert_eq!(c.trigger_r, 0);
    assert_eq!(c.controller_id, 4);
    assert_eq!(c.controller_style, ControllerStyle::Invalid);
    assert!(!c.autorepeat.enabled);
    assert_eq!(c.autorepeat.sample_count, 0);
    assert_eq!(c.autorepeat.tracking_state, vec![0u8; 64]);
    assert_eq!(c.autorepeat.autorepeat_buttons.bits, 0);
    assert!(!c.is_supported_controller());
}

#[test]
fn pro_controller_edge_detection_scenario() {
    let mut c = Controller::new(0);
    let style = ControllerStyle::ProController;

    c.update(style, &StyleSample::StandardLayout(common_sample(A | UP)));
    assert_eq!(c.buttons.bits, A | UP);
    assert_eq!(c.pressed_buttons.bits, A | UP);
    assert_eq!(c.released_buttons.bits, 0);
    assert!(c.is_supported_controller());

    c.update(style, &StyleSample::StandardLayout(common_sample(A)));
    assert_eq!(c.buttons.bits, A);
    assert_eq!(c.pressed_buttons.bits, 0);
    assert_eq!(c.released_buttons.bits, UP);
}

#[test]
fn reconciling_twice_with_the_same_sample_yields_no_edges() {
    let mut c = Controller::new(1);
    let style = ControllerStyle::DualJoycon;
    let sample = StyleSample::StandardLayout(common_sample(A | UP));

    c.update(style, &sample);
    assert_eq!(c.pressed_buttons.bits, A | UP);

    c.update(style, &sample);
    assert_eq!(c.pressed_buttons.bits, 0);
    assert_eq!(c.released_buttons.bits, 0);
    assert_eq!(c.buttons.bits, A | UP);
}

#[test]
fn stick_values_pass_through_raw_and_normalize_unclamped() {
    let mut c = Controller::new(0);
    let mut sample = common_sample(0);
    sample.stick_l_x = 32767;
    sample.stick_l_y = -32768;
    sample.stick_r_x = -32768;
    sample.stick_r_y = 32767;
    c.update(ControllerStyle::Handheld, &StyleSample::StandardLayout(sample));

    assert_eq!(c.left_stick.x, 32767);
    assert_eq!(c.left_stick.y, -32768);
    assert_eq!(c.right_stick.x, -32768);
    assert_eq!(c.right_stick.y, 32767);

    let max = c.left_stick.x as f32 / 32767.0f32;
    assert_eq!(max, 1.0f32);

    let min = c.left_stick.y as f32 / 32767.0f32;
    assert!(min < -1.0f32);
    assert!((min + 1.00003f32).abs() < 1e-4);
}

#[test]
fn gamecube_triggers_pass_through_raw() {
    let mut c = Controller::new(2);
    c.update(
        ControllerStyle::GamecubeController,
        &StyleSample::GamecubeLayout(gc_sample(A, 16383, 0x7FFF)),
    );
    assert_eq!(c.trigger_l, 16383);
    assert_eq!(c.trigger_r, 0x7FFF);

    let normalized_l = c.trigger_l as f32 / 32767.0f32;
    assert!((normalized_l - 0.5f32).abs() < 1e-4);
    let normalized_r = c.trigger_r as f32 / 32767.0f32;
    assert_eq!(normalized_r, 1.0f32);
}

#[test]
fn standard_triggers_are_digital_stand_ins() {
    let mut c = Controller::new(0);
    c.update(ControllerStyle::ProController, &StyleSample::StandardLayout(common_sample(L)));
    assert_eq!(c.trigger_l, 0x7FFF);
    assert_eq!(c.trigger_r, 0);
    assert_eq!(c.trigger_l as f32 / 32767.0f32, 1.0f32);

    c.update(ControllerStyle::ProController, &StyleSample::StandardLayout(common_sample(A)));
    assert_eq!(c.trigger_l, 0);
    assert_eq!(c.trigger_l as f32 / 32767.0f32, 0.0f32);
}

#[test]
fn attributes_pass_through_from_the_sample() {
    let mut c = Controller::new(0);
    let mut sample = common_sample(0);
    sample.attributes = Attributes { bits: npad::buttons::IS_CONNECTED | npad::buttons::IS_WIRED };
    c.update(ControllerStyle::ProController, &StyleSample::StandardLayout(sample));
    assert_eq!(c.attributes.bits, npad::buttons::IS_CONNECTED | npad::buttons::IS_WIRED);
    assert!(c.attributes.contains(Attributes { bits: npad::buttons::IS_CONNECTED }));
    assert!(!c.attributes.intersects(Attributes { bits: npad::buttons::IS_LEFT_WIRED }));
}

#[test]
fn unsupported_style_freezes_last_known_state() {
    let mut c = Controller::new(3);
    c.update(ControllerStyle::ProController, &StyleSample::StandardLayout(common_sample(A | UP)));
    assert!(c.is_supported_controller());

    c.update(ControllerStyle::NES, &StyleSample::Unsupported);
    assert_eq!(c.controller_style, ControllerStyle::NES);
    assert!(!c.is_supported_controller());
    assert_eq!(c.buttons.bits, A | UP);
    assert_eq!(c.pressed_buttons.bits, A | UP);
    assert_eq!(c.released_buttons.bits, 0);
}

#[test]
fn get_from_id_yields_a_fresh_reconciled_state() {
    let sample = StyleSample::StandardLayout(common_sample(A | UP));
    let c = Controller::get_from_id(5, ControllerStyle::RightJoycon, &sample).unwrap();
    assert_eq!(c.controller_id, 5);
    assert_eq!(c.controller_style, ControllerStyle::RightJoycon);
    assert_eq!(c.buttons.bits, A | UP);
    assert_eq!(c.pressed_buttons.bits, A | UP);
    assert_eq!(c.released_buttons.bits, 0);
    assert!(!c.autorepeat.enabled);
}

#[test]
fn get_from_id_rejects_unsupported_styles() {
    assert!(Controller::get_from_id(0, ControllerStyle::Pokeball, &StyleSample::Unsupported)
        .is_none());
    assert!(Controller::get_from_id(0, ControllerStyle::Invalid, &StyleSample::Unsupported)
        .is_none());
}
