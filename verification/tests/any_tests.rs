use npad::any::{
    combined_buttons, is_down, is_down_any, is_press, is_press_any, is_release, is_release_any,
    pool_ids, Poll, HANDHELD_ID,
};
use npad::buttons::{A, B, UP, ZL};
use npad::{Attributes, Buttons, CommonSample, ControllerStyle, StyleSample};

fn common_sample(bits: u64) -> CommonSample {
    CommonSample {
        sampling_number: 0,
        buttons: Buttons { bits },
        stick_l_x: 0,
        stick_l_y: 0,
        stick_r_x: 0,
        stick_r_y: 0,
        attributes: Attributes { bits: 0 },
    }
}

fn standard_poll(id: u32, bits: u64) -> Poll {
    Poll {
        id,
        style: ControllerStyle::ProController,
        sample: StyleSample::StandardLayout(common_sample(bits)),
    }
}

fn unsupported_poll(id: u32) -> Poll {
    Poll { id, style: ControllerStyle::NES, sample: StyleSample::Unsupported }
}

#[test]
fn press_any_is_true_iff_some_supported_pressed_set_intersects() {
    let polls = vec![unsupported_poll(0), standard_poll(1, A | UP), standard_poll(2, B)];
    assert!(is_press_any(&polls, Buttons { bits: A }));
    assert!(is_press_any(&polls, Buttons { bits: B | ZL }));
    assert!(!is_press_any(&polls, Buttons { bits: ZL }));
}

#[test]
fn press_any_is_false_without_supported_controllers() {
    let empty: Vec<Poll> = Vec::new();
    assert!(!is_press_any(&empty, Buttons { bits: A }));
    let unsupported = vec![unsupported_poll(0), unsupported_poll(1)];
    assert!(!is_press_any(&unsupported, Buttons { bits: A }));
}

#[test]
fn down_any_matches_press_any_over_one_fresh_round() {
    let polls = vec![standard_poll(0, A), unsupported_poll(1)];
    assert!(is_down_any(&polls, Buttons { bits: A | B }));
    assert!(!is_down_any(&polls, Buttons { bits: B }));
}

#[test]
fn release_any_never_fires_on_fresh_reconciliations() {
    let polls = vec![standard_poll(0, A | UP), unsupported_poll(1)];
    assert!(!is_release_any(&polls, Buttons { bits: A }));
    assert!(!is_release_any(&polls, Buttons::empty()));
}

#[test]
fn press_containment_is_against_a_single_controller() {
    // The mask is split across two controllers: no single one contains it.
    let polls = vec![standard_poll(0, A), standard_poll(1, UP)];
    assert!(!is_press(&polls, Buttons { bits: A | UP }));
    assert!(!is_down(&polls, Buttons { bits: A | UP }));

    let polls = vec![standard_poll(0, A | UP | ZL)];
    assert!(is_press(&polls, Buttons { bits: A | UP }));
    assert!(is_down(&polls, Buttons { bits: A | UP }));
}

#[test]
fn release_containment_holds_only_for_the_empty_mask() {
    let polls = vec![standard_poll(0, A | UP)];
    assert!(!is_release(&polls, Buttons { bits: A }));
    assert!(is_release(&polls, Buttons::empty()));
    let unsupported = vec![unsupported_poll(0)];
    assert!(!is_release(&unsupported, Buttons::empty()));
}

#[test]
fn combined_buttons_unions_supported_pressed_sets() {
    let polls = vec![
        standard_poll(0, A),
        unsupported_poll(1),
        standard_poll(2, B | UP),
        Poll { id: HANDHELD_ID, style: ControllerStyle::NES, sample: StyleSample::Unsupported },
    ];
    assert_eq!(combined_buttons(&polls).bits, A | B | UP);
    let empty: Vec<Poll> = Vec::new();
    assert_eq!(combined_buttons(&empty).bits, 0);
}

#[test]
fn the_pool_scans_eight_ports_and_the_handheld_sentinel() {
    let ids = pool_ids();
    assert_eq!(ids, vec![0, 1, 2, 3, 4, 5, 6, 7, 0x20]);
    assert_eq!(HANDHELD_ID, 0x20);
}
