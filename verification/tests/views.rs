use slotted::handle::Handle;
use slotted::slot::{Content, ContentMut, Occupied, Status};
use slotted::Slotted;

fn filled() -> (Slotted<String>, Handle, Handle) {
    let mut arena = Slotted::new();
    let a = arena.insert(String::from("a"));
    let b = arena.insert(String::from("b"));
    (arena, a, b)
}

#[test]
fn occupied_view_reads_value_and_slot() {
    let (arena, a, _) = filled();
    let view = arena.get(a).unwrap();
    assert_eq!(view.value(), "a");
    assert_eq!(view.slot().gen(), a.gen());
    assert_eq!(view.slot().status(), Status::Occupied);
    assert!(view.slot().is_occupied());
    assert!(!view.slot().is_vacant());
    assert!(!view.slot().is_poisoned());
}

#[test]
fn shared_views_are_copies() {
    let (arena, a, _) = filled();
    let view = arena.get(a).unwrap();
    let copy = view;
    let clone = Clone::clone(&view);
    assert_eq!(view.value(), "a");
    assert_eq!(copy.value(), "a");
    assert_eq!(clone.value(), "a");
    let content = arena.slot(0).unwrap().content();
    let copied = content;
    assert!(matches!(content, Content::Occupied(_)));
    assert!(matches!(copied, Content::Occupied(_)));
}

#[test]
fn exclusive_view_reads_and_writes() {
    let (mut arena, a, b) = filled();
    let mut view = arena.get_mut(a).unwrap();
    assert_eq!(view.value(), "a");
    view.value_mut().push_str("bc");
    assert_eq!(view.value(), "abc");
    assert_eq!(view.slot().gen(), a.gen());
    assert_eq!(view.slot_mut().status(), Status::Occupied);
    assert_eq!(arena.get(a).unwrap().value(), "abc");
    assert_eq!(arena.get(b).unwrap().value(), "b");
}

#[test]
fn exclusive_view_reborrows() {
    let (mut arena, a, _) = filled();
    let mut view = arena.get_mut(a).unwrap();
    {
        let shared: Occupied<'_, String> = view.reborrow();
        assert_eq!(shared.value(), "a");
        assert_eq!(shared.slot().gen().get(), 1);
    }
    {
        let mut again = view.reborrow_mut();
        again.value_mut().push('1');
        assert_eq!(again.value(), "a1");
    }
    view.value_mut().push('2');
    assert_eq!(view.value(), "a12");
    assert_eq!(arena.get(a).unwrap().value(), "a12");
}

#[test]
fn exclusive_view_converts() {
    let (mut arena, a, b) = filled();
    let shared = arena.get_mut(a).unwrap().into_shared();
    assert_eq!(shared.value(), "a");
    let value = arena.get_mut(b).unwrap().into_value();
    value.push('!');
    assert_eq!(arena.get(b).unwrap().value(), "b!");
    let slot = arena.get_mut(a).unwrap().into_slot();
    assert_eq!(slot.gen().get(), 1);
    assert!(slot.is_occupied());
    assert_eq!(arena.len(), 2);
}

#[test]
fn content_takes_the_state_of_the_slot() {
    let mut arena = Slotted::new();
    let a = arena.insert(1u8);
    let b = arena.insert(2u8);
    arena.restore(u32::MAX, None).unwrap();
    arena.remove(a);
    match arena.slot(a.index()).unwrap().content() {
        Content::Vacant(vacant) => {
            assert_eq!(vacant.next_vacant(), None);
            assert_eq!(vacant.slot().gen().get(), 2);
            let copy = vacant;
            assert_eq!(copy.slot().status(), Status::Vacant);
            assert_eq!(Clone::clone(&vacant).next_vacant(), None);
        }
        _ => panic!("a freed slot is vacant"),
    }
    match arena.slot(b.index()).unwrap().content() {
        Content::Occupied(occupied) => {
            assert_eq!(*occupied.value(), 2);
            assert_eq!(occupied.slot().gen().get(), 1);
        }
        _ => panic!("a filled slot is occupied"),
    }
    match arena.slot(2).unwrap().content() {
        Content::Poisoned(poisoned) => {
            assert_eq!(poisoned.next_poison(), None);
            assert_eq!(poisoned.slot().gen().get(), u32::MAX);
            let copy = poisoned;
            assert_eq!(copy.slot().status(), Status::Poisoned);
            assert_eq!(Clone::clone(&poisoned).next_poison(), None);
        }
        _ => panic!("a slot at the top generation is poisoned"),
    }
}

#[test]
fn vacant_views_carry_the_links_of_the_free_list() {
    let mut arena = Slotted::new();
    let handles: Vec<Handle> = (0..3u8).map(|value| arena.insert(value)).collect();
    arena.remove(handles[2]);
    arena.remove(handles[0]);
    match arena.slot(0).unwrap().content() {
        Content::Vacant(vacant) => assert_eq!(vacant.next_vacant(), Some(2)),
        _ => panic!("a freed slot is vacant"),
    }
    match arena.slot(2).unwrap().content() {
        Content::Vacant(vacant) => assert_eq!(vacant.next_vacant(), None),
        _ => panic!("a freed slot is vacant"),
    }
    arena.restore(u32::MAX - 1, None).unwrap();
    arena.restore(u32::MAX, None).unwrap();
    match arena.slot(4).unwrap().content() {
        Content::Poisoned(poisoned) => assert_eq!(poisoned.next_poison(), Some(3)),
        _ => panic!("a slot at the top generation is poisoned"),
    }
}

#[test]
fn content_mut_takes_the_state_of_the_slot() {
    let (mut arena, a, _) = filled();
    let slot = arena.get_mut(a).unwrap().into_slot();
    match slot.content_mut() {
        ContentMut::Occupied(mut occupied) => {
            occupied.value_mut().push('!');
            assert_eq!(occupied.slot.gen().get(), 1);
        }
        ContentMut::Vacant(_) => panic!("a filled slot is occupied"),
        ContentMut::Poisoned(_) => panic!("a filled slot is occupied"),
    }
    assert_eq!(arena.get(a).unwrap().value(), "a!");
}
