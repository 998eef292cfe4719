use process_owned::{ProcessOwned, ProcessOwnedMut};

#[test]
fn test_basic() {
    let value = ProcessOwned::new(42);
    assert_eq!(*value, 42);
}

#[test]
fn test_clone() {
    let value = ProcessOwned::new(42);
    let value_clone = value.clone();

    assert_eq!(*value, 42);
    assert_eq!(*value_clone, 42);
}

#[test]
fn test_mut() {
    let value = ProcessOwnedMut::new(42);

    let mut value_internal = value.borrow_mut().unwrap();
    *value_internal = 5;

    assert_eq!(*value_internal, 5);
}

#[test]
fn test_mut_clone() {
    let value = ProcessOwnedMut::new(42);
    let value_clone = value.clone();

    {
        let mut value_internal = value.borrow_mut().unwrap();
        *value_internal = 5;
    }

    assert_eq!(*value_clone.borrow().unwrap(), 5);
}

#[test]
fn shared_non_copy_value() {
    let value = ProcessOwned::new(String::from("alpha"));
    let value_clone = value.clone();

    assert_eq!(*value, String::from("alpha"));
    assert_eq!(*value_clone, *value);
}

#[test]
fn write_then_read_after_release() {
    let value = ProcessOwnedMut::new(42);

    {
        let mut guard = value.borrow_mut().unwrap();
        *guard = 5;
    }

    assert_eq!(*value.borrow().unwrap(), 5);
}

#[test]
fn writes_flow_both_ways() {
    let value = ProcessOwnedMut::new(10);
    let alias = value.clone();

    {
        let mut guard = alias.borrow_mut().unwrap();
        *guard = 11;
    }
    assert_eq!(*value.borrow().unwrap(), 11);

    {
        let mut guard = value.borrow_mut().unwrap();
        *guard = 12;
    }
    assert_eq!(*alias.borrow().unwrap(), 12);
}
