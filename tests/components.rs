use engine_core::components::{tile_size, Animation, Flags, Sprite};
use engine_core::constants::PHASE_ONE;

#[test]
fn sprite_new_keeps_fields() {
    let s = Sprite::new(-3, 7, 2, 41);
    assert_eq!((s.x, s.y, s.size, s.tile), (-3, 7, 2, 41));
}

#[test]
fn tile_sizes_by_class() {
    assert_eq!(tile_size(0), Some((8, 8)));
    assert_eq!(tile_size(4), Some((32, 16)));
    assert_eq!(tile_size(9), Some((64, 64)));
    assert_eq!(tile_size(10), None);
}

#[test]
fn flags_set_and_query() {
    let mut f = Flags::new(0);
    assert!(f.none_of(Flags::DIRTY | Flags::HIDDEN));
    f.set(Flags::DIRTY);
    assert!(f.all_of(Flags::DIRTY));
    assert!(!f.all_of(Flags::DIRTY | Flags::HIDDEN));
    assert!(f.some_of(Flags::DIRTY | Flags::HIDDEN));
    assert!(f.none_of(Flags::HIDDEN));
    f.set(Flags::HIDDEN);
    assert_eq!(f.0, 3);
}

#[test]
fn animation_wraps_phase() {
    let mut a = Animation::new(10, 4, PHASE_ONE / 4 * 3);
    assert_eq!(a.phase, 0);
    assert_eq!(a.frame(), 10);
    a.update();
    assert_eq!(a.phase, PHASE_ONE / 4 * 3);
    assert_eq!(a.frame(), 13);
    a.update();
    assert_eq!(a.phase, PHASE_ONE / 2);
    assert_eq!(a.frame(), 12);
}

#[test]
fn animation_speed_over_a_cycle() {
    let mut a = Animation::new(0, 2, PHASE_ONE * 2 + 1);
    a.update();
    assert_eq!(a.phase, 1);
    assert_eq!(a.frame(), 0);
}
