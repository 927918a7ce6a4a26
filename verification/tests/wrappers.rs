use datacore::Container;
use datacore::Pair;
use datacore::RefCounted;
use datacore::SmartBox;
use datacore::ThreadSafe;
use datacore::Wrapper;
use datacore::make_container;

#[test]
fn test_container_get_set() {
    let mut c = Container::new(1);
    assert_eq!(*c.get(), 1);
    c.set(2);
    assert_eq!(*c.get(), 2);
}

#[test]
fn test_container_into_inner() {
    let c = Container::new(String::from("owned"));
    assert_eq!(c.into_inner(), "owned");
}

#[test]
fn test_container_clone_value() {
    let c = Container::new(String::from("dup"));
    let copy = c.clone_value();
    assert_eq!(copy, "dup");
    assert_eq!(*c.get(), "dup");
}

#[test]
fn test_make_container() {
    let c = make_container(9);
    assert_eq!(*c.get(), 9);
}

#[test]
fn test_pair_accessors() {
    let p = Pair::new(1, "one");
    assert_eq!(*p.get_first(), 1);
    assert_eq!(*p.get_second(), "one");
}

#[test]
fn test_pair_swap() {
    let p = Pair::new(1, "one");
    let q = p.swap();
    assert_eq!(*q.get_first(), "one");
    assert_eq!(*q.get_second(), 1);
}

#[test]
fn test_wrapper_borrows() {
    let value = 11;
    let w = Wrapper::new(&value);
    assert_eq!(*w.get(), 11);
}

#[test]
fn test_smart_box_get() {
    let b = SmartBox::new(3);
    assert_eq!(*b.get(), 3);
}

#[test]
fn test_smart_box_get_mut() {
    let mut b = SmartBox::new(3);
    *b.get_mut() = 4;
    assert_eq!(*b.get(), 4);
}

#[test]
fn test_ref_counted_shares_value() {
    let a = RefCounted::new(5);
    let b = a.clone_rc();
    assert_eq!(*a.get(), 5);
    assert_eq!(*b.get(), 5);
}

#[test]
fn test_thread_safe_shares_value() {
    let a = ThreadSafe::new(String::from("shared"));
    let b = a.clone_arc();
    assert_eq!(*a.get(), "shared");
    assert_eq!(*b.get(), "shared");
}
