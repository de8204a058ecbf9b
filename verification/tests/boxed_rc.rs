use fallible_collections::rc::share_boxed;
use fallible_collections::{FallibleBox, FallibleRc, OwnedBox, TryClone, TryReserveError};
use std::cell::Cell;
use std::rc::Rc;

fn refusal() -> TryReserveError {
    Vec::<u8>::new().try_reserve(usize::MAX).unwrap_err()
}

struct Watched {
    drops: Rc<Cell<usize>>,
}

impl Drop for Watched {
    fn drop(&mut self) {
        self.drops.set(self.drops.get() + 1);
    }
}

#[test]
fn boxed() {
    let mut v = OwnedBox::try_new(5).unwrap();
    assert_eq!(*v, 5);
    *v = 3;
    assert_eq!(*v, 3);
}

#[test]
fn fallible_rc() {
    let mut x = Rc::new(3);
    *Rc::get_mut(&mut x).unwrap() = 4;
    assert_eq!(*x, 4);

    let _y = Rc::clone(&x);
    assert!(Rc::get_mut(&mut x).is_none());
}

#[test]
fn rc_shares_the_value() {
    let x = <Rc<i32> as FallibleRc<i32>>::try_new(3).unwrap();
    assert_eq!(*x, 3);
    assert_eq!(Rc::strong_count(&x), 1);
    let y = Rc::clone(&x);
    assert_eq!(Rc::strong_count(&x), 2);
    assert_eq!(*y, 3);
    drop(y);
    assert_eq!(Rc::strong_count(&x), 1);
}

#[test]
fn rc_drops_the_value_with_the_last_handle() {
    let drops = Rc::new(Cell::new(0usize));
    let x = <Rc<Watched> as FallibleRc<Watched>>::try_new(Watched { drops: drops.clone() }).unwrap();
    let y = Rc::clone(&x);
    drop(x);
    assert_eq!(drops.get(), 0);
    drop(y);
    assert_eq!(drops.get(), 1);
}

#[test]
fn box_owns_and_gives_back_its_value() {
    let b = OwnedBox::try_new(String::from("kept")).unwrap();
    assert_eq!(b.get(), "kept");
    assert_eq!(b.len(), 4);
    assert_eq!(b.into_inner(), "kept");
}

#[test]
fn box_drops_its_value_once() {
    let drops = Rc::new(Cell::new(0usize));
    let mut b = OwnedBox::try_new(Watched { drops: drops.clone() }).unwrap();
    assert_eq!(drops.get(), 0);
    *b = Watched { drops: drops.clone() };
    assert_eq!(drops.get(), 1);
    drop(b);
    assert_eq!(drops.get(), 2);
}

#[test]
fn box_without_a_slot_is_an_error_and_drops_the_value_once() {
    let drops = Rc::new(Cell::new(0usize));
    let e = refusal();
    let r = OwnedBox::from_slot(Vec::new(), Watched { drops: drops.clone() }, Err(e.clone()));
    assert_eq!(r.err(), Some(e));
    assert_eq!(drops.get(), 1);
    let mut slot: Vec<u8> = Vec::new();
    let reserved = slot.try_reserve_exact(1);
    let ok = OwnedBox::from_slot(slot, 11u8, reserved).unwrap();
    assert_eq!(*ok.get(), 11);
}

#[test]
fn box_clone_is_independent() {
    let a = OwnedBox::try_new(vec![1u8, 2]).unwrap();
    let mut b = a.try_clone().unwrap();
    assert_eq!(b.get(), a.get());
    *b = vec![3];
    assert_eq!(*a.get(), vec![1u8, 2]);
    assert_eq!(*b.get(), vec![3u8]);
}

#[test]
fn sharing_hands_a_failed_box_on() {
    let e = refusal();
    assert_eq!(share_boxed::<u8>(Err(e.clone())).err(), Some(e));
    let shared = share_boxed(OwnedBox::try_new(7u8)).unwrap();
    assert_eq!(*shared, 7);
    assert_eq!(Rc::strong_count(&shared), 1);
}

#[test]
fn boxing_hands_a_failed_copy_on() {
    let e = refusal();
    assert_eq!(OwnedBox::<u8>::box_copied(Err(e.clone())).err(), Some(e));
    let b = OwnedBox::box_copied(Ok(9u8)).unwrap();
    assert_eq!(*b, 9);
}
