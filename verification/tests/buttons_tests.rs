use npad::buttons::{
    A, ALL_BUTTONS, B, DOWN, LEFT, LEFT_SR, RIGHT, RIGHT_SL, STICK_L_DOWN, STICK_L_LEFT,
    STICK_L_RIGHT, STICK_L_UP, STICK_R_DOWN, STICK_R_LEFT, STICK_R_RIGHT, STICK_R_UP, UP, ZL, ZR,
};
use npad::Buttons;

#[test]
fn empty_set_has_no_bits() {
    let e = Buttons::empty();
    assert_eq!(e.bits, 0);
    assert!(e.is_empty());
    assert_eq!(Buttons::default(), e);
}

#[test]
fn union_intersect_remove() {
    let ab = Buttons { bits: A | B };
    let bu = Buttons { bits: B | UP };
    assert_eq!(ab.union(bu).bits, A | B | UP);
    assert_eq!(ab.intersect(bu).bits, B);
    assert_eq!(ab.remove(bu).bits, A);
}

#[test]
fn contains_and_intersects() {
    let held = Buttons { bits: A | UP | ZL };
    assert!(held.contains(Buttons { bits: A | UP }));
    assert!(!held.contains(Buttons { bits: A | B }));
    assert!(held.intersects(Buttons { bits: A | B }));
    assert!(!held.intersects(Buttons { bits: B | DOWN }));
    assert!(held.contains(Buttons::empty()));
}

#[test]
fn from_bits_accepts_defined_buttons_only() {
    assert_eq!(Buttons::from_bits(A | UP), Some(Buttons { bits: A | UP }));
    assert_eq!(Buttons::from_bits(ALL_BUTTONS), Some(Buttons { bits: ALL_BUTTONS }));
    assert_eq!(Buttons::from_bits(1u64 << 35), None);
    assert_eq!(Buttons::from_bits(A | (1u64 << 63)), None);
}

#[test]
fn direction_predicates_cover_stick_pseudo_buttons() {
    assert!(Buttons { bits: STICK_L_UP }.is_up());
    assert!(Buttons { bits: STICK_R_UP }.is_up());
    assert!(Buttons { bits: UP }.is_up());
    assert!(!Buttons { bits: DOWN }.is_up());
    assert!(Buttons { bits: STICK_R_DOWN }.is_down());
    assert!(Buttons { bits: STICK_L_LEFT }.is_left());
    assert!(Buttons { bits: STICK_R_RIGHT }.is_right());
    assert!(!Buttons { bits: STICK_L_RIGHT }.is_left());
}

#[test]
fn lever_and_trigger_predicates() {
    assert!(Buttons { bits: RIGHT_SL }.is_sl());
    assert!(Buttons { bits: LEFT_SR }.is_sr());
    assert!(!Buttons { bits: LEFT_SR }.is_sl());
    assert!(Buttons { bits: ZL }.is_z());
    assert!(Buttons { bits: ZR }.is_z());
    assert!(!Buttons { bits: A }.is_z());
}

#[test]
fn composite_sets_union_direction_and_both_sticks() {
    assert_eq!(Buttons::up().bits, UP | STICK_L_UP | STICK_R_UP);
    assert_eq!(Buttons::down().bits, DOWN | STICK_L_DOWN | STICK_R_DOWN);
    assert_eq!(Buttons::left().bits, LEFT | STICK_L_LEFT | STICK_R_LEFT);
    assert_eq!(Buttons::right().bits, RIGHT | STICK_L_RIGHT | STICK_R_RIGHT);
    assert_eq!(Buttons::z().bits, ZL | ZR);
}

#[test]
fn edges_from_one_transition_are_disjoint() {
    let prev = Buttons { bits: A | UP };
    let cur = Buttons { bits: A | B };
    let pressed = cur.remove(prev);
    let released = prev.remove(cur);
    assert_eq!(pressed.bits, B);
    assert_eq!(released.bits, UP);
    assert_eq!(pressed.intersect(released).bits, 0);
}
