use slotted::handle::Handle;
use slotted::slot::{Gen, Status};

fn gen(raw: u32) -> Gen {
    Handle::from_raw(0, raw).gen()
}

#[test]
fn raw_value_round_trips() {
    assert_eq!(gen(0).get(), 0);
    assert_eq!(gen(7).get(), 7);
    assert_eq!(gen(u32::MAX).get(), u32::MAX);
}

#[test]
fn constants_mark_the_ranges() {
    assert_eq!(Gen::VACANT, 0);
    assert_eq!(Gen::POISON_MIN, 4_294_967_294);
    assert_eq!(Gen::POISON_MAX, 4_294_967_295);
    assert_eq!(Gen::vacant().get(), 0);
    assert_eq!(Gen::poison_min().get(), 4_294_967_294);
    assert_eq!(Gen::poison_max().get(), 4_294_967_295);
    assert_eq!(Gen::vacant().status(), Status::Vacant);
    assert_eq!(Gen::poison_min().status(), Status::Poisoned);
    assert_eq!(Gen::poison_max().status(), Status::Poisoned);
    assert_eq!(Gen::poison_min().next(), Gen::poison_max());
    assert_eq!(Gen::poison_max().next(), Gen::poison_max());
}

#[test]
fn even_generations_below_the_top_are_vacant() {
    assert_eq!(gen(0).status(), Status::Vacant);
    assert_eq!(gen(2).status(), Status::Vacant);
    assert_eq!(gen(u32::MAX - 3).status(), Status::Vacant);
    assert!(gen(0).is_vacant());
    assert!(!gen(0).is_occupied());
    assert!(!gen(0).is_poisoned());
}

#[test]
fn odd_generations_below_the_top_are_occupied() {
    assert_eq!(gen(1).status(), Status::Occupied);
    assert_eq!(gen(3).status(), Status::Occupied);
    assert_eq!(gen(u32::MAX - 2).status(), Status::Occupied);
    assert!(gen(1).is_occupied());
    assert!(!gen(1).is_vacant());
    assert!(!gen(1).is_poisoned());
}

#[test]
fn the_top_two_generations_are_poisoned() {
    assert_eq!(gen(u32::MAX - 1).status(), Status::Poisoned);
    assert_eq!(gen(u32::MAX).status(), Status::Poisoned);
    assert!(gen(u32::MAX - 1).is_poisoned());
    assert!(gen(u32::MAX).is_poisoned());
    assert!(!gen(u32::MAX).is_occupied());
    assert!(!gen(u32::MAX - 1).is_vacant());
}

#[test]
fn next_advances_by_one() {
    assert_eq!(gen(0).next().get(), 1);
    assert_eq!(gen(1).next().get(), 2);
    assert_eq!(gen(41).next().get(), 42);
    assert_eq!(gen(u32::MAX - 2).next().get(), u32::MAX - 1);
    assert_eq!(gen(u32::MAX - 1).next().get(), u32::MAX);
}

#[test]
fn next_saturates_at_the_top() {
    assert_eq!(gen(u32::MAX).next().get(), u32::MAX);
    assert_eq!(gen(u32::MAX).next().next().get(), u32::MAX);
}

#[test]
fn vacancy_and_occupancy_alternate() {
    let mut current = gen(0);
    for step in 0..100u32 {
        let expected = if step % 2 == 0 { Status::Vacant } else { Status::Occupied };
        assert_eq!(current.status(), expected);
        assert_eq!(current.get(), step);
        current = current.next();
    }
}

#[test]
fn poisoning_follows_the_last_occupancy() {
    let last = gen(u32::MAX - 2);
    assert_eq!(last.status(), Status::Occupied);
    assert_eq!(last.next().status(), Status::Poisoned);
    assert_eq!(last.next().next().status(), Status::Poisoned);
    assert_eq!(last.next().next().next().status(), Status::Poisoned);
    let before = gen(u32::MAX - 3);
    assert_eq!(before.status(), Status::Vacant);
    assert_eq!(before.next().status(), Status::Occupied);
}

#[test]
fn generations_compare_by_value() {
    assert_eq!(gen(5), gen(5));
    assert_ne!(gen(5), gen(7));
    assert!(gen(5) < gen(7));
    assert!(gen(u32::MAX) > gen(0));
}

#[test]
fn status_names() {
    assert_eq!(Status::Vacant.name(), "Vacant");
    assert_eq!(Status::Occupied.name(), "Occupied");
    assert_eq!(Status::Poisoned.name(), "Poisoned");
}

#[test]
fn status_predicates() {
    assert!(Status::Vacant.is_living());
    assert!(Status::Occupied.is_living());
    assert!(!Status::Poisoned.is_living());
    assert!(Status::Vacant.is_vacant());
    assert!(!Status::Vacant.is_occupied());
    assert!(!Status::Vacant.is_poisoned());
    assert!(Status::Occupied.is_occupied());
    assert!(!Status::Occupied.is_vacant());
    assert!(!Status::Occupied.is_poisoned());
    assert!(Status::Poisoned.is_poisoned());
    assert!(!Status::Poisoned.is_vacant());
    assert!(!Status::Poisoned.is_occupied());
}

#[test]
fn status_defaults_to_vacant() {
    assert_eq!(Status::default(), Status::Vacant);
}

#[test]
fn handles_are_plain_data() {
    let handle = Handle::from_raw(3, 9);
    assert_eq!(handle.index(), 3);
    assert_eq!(handle.gen().get(), 9);
    assert_eq!(handle, Handle::from_raw(3, 9));
    assert_ne!(handle, Handle::from_raw(3, 11));
    assert_ne!(handle, Handle::from_raw(4, 9));
    let copy = handle;
    assert_eq!(copy, handle);
}
