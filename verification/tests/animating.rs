use tnua_rapier2d::animating::{AnimatingState, Directive};

const STANDING: u64 = 0;
const RUNNING: u64 = 1;
const JUMPING: u64 = 2;

#[test]
fn first_report_alters_from_nothing() {
    let mut tracker = AnimatingState::<i32>::new();
    assert!(tracker.get().is_none());
    match tracker.update_by_discriminant(STANDING, 10) {
        Directive::Alter { old_state, state } => {
            assert_eq!(old_state, None);
            assert_eq!(*state, 10);
        }
        Directive::Maintain { .. } => panic!("a fresh tracker must alter"),
    }
    assert_eq!(tracker.get(), Some(&10));
}

#[test]
fn same_discriminant_maintains_whatever_the_payload() {
    let mut tracker = AnimatingState::<i32>::new();
    tracker.update_by_discriminant(RUNNING, 1);
    match tracker.update_by_discriminant(RUNNING, 2) {
        Directive::Maintain { state } => assert_eq!(*state, 2),
        Directive::Alter { .. } => panic!("the kind did not change"),
    }
    assert_eq!(tracker.get(), Some(&2));
    match tracker.update_by_discriminant(RUNNING, 2) {
        Directive::Maintain { state } => assert_eq!(*state, 2),
        Directive::Alter { .. } => panic!("the kind did not change"),
    }
}

#[test]
fn same_payload_under_another_discriminant_alters() {
    let mut tracker = AnimatingState::<i32>::new();
    tracker.update_by_discriminant(STANDING, 5);
    match tracker.update_by_discriminant(JUMPING, 5) {
        Directive::Alter { old_state, state } => {
            assert_eq!(old_state, Some(5));
            assert_eq!(*state, 5);
        }
        Directive::Maintain { .. } => panic!("the kind changed"),
    }
}

#[test]
fn one_alter_after_many_maintains() {
    let mut tracker = AnimatingState::<i32>::new();
    tracker.update_by_discriminant(RUNNING, 0);
    for speed in 1..50 {
        assert!(matches!(
            tracker.update_by_discriminant(RUNNING, speed),
            Directive::Maintain { state } if *state == speed
        ));
    }
    match tracker.update_by_discriminant(JUMPING, 7) {
        Directive::Alter { old_state, state } => {
            assert_eq!(old_state, Some(49));
            assert_eq!(*state, 7);
        }
        Directive::Maintain { .. } => panic!("the kind changed"),
    }
    assert!(matches!(
        tracker.update_by_discriminant(JUMPING, 8),
        Directive::Maintain { state } if *state == 8
    ));
    assert_eq!(tracker.get(), Some(&8));
}

#[test]
fn going_back_to_an_earlier_kind_alters_again() {
    let mut tracker = AnimatingState::<&str>::new();
    tracker.update_by_discriminant(STANDING, "a");
    tracker.update_by_discriminant(RUNNING, "b");
    match tracker.update_by_discriminant(STANDING, "c") {
        Directive::Alter { old_state, state } => {
            assert_eq!(old_state, Some("b"));
            assert_eq!(*state, "c");
        }
        Directive::Maintain { .. } => panic!("the kind changed"),
    }
}
