use process_owned::Immortal;

#[test]
fn test_static() {
    let immortal_ptr: &'static i32;

    {
        let immortal = Immortal::new(5);
        immortal_ptr = immortal.into_static();
    }

    assert_eq!(*immortal_ptr, 5);
}

#[test]
fn immortal_reads_through_every_handle() {
    let immortal = Immortal::new(5);
    let handle = immortal.clone();

    assert_eq!(*immortal, 5);
    assert_eq!(*handle, 5);

    let bare: &'static i32 = immortal.into_static();
    assert_eq!(*bare, 5);
    assert_eq!(*handle, 5);
    assert_eq!(*bare, 5);
}
