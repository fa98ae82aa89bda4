use zygisk_api::error::ZygiskError;
use zygisk_api::host::NativeMethod;
use zygisk_api::utils::{find_nul, to_bytes_with_nul, ShapeAssertion};

#[test]
fn find_nul_gives_the_first() {
    assert_eq!(find_nul(b""), None);
    assert_eq!(find_nul(b"libc.so"), None);
    assert_eq!(find_nul(b"\0"), Some(0));
    assert_eq!(find_nul(b"ab\0cd\0"), Some(2));
    assert_eq!(find_nul(b"abcd\0"), Some(4));
}

#[test]
fn to_bytes_with_nul_appends_one_nul() {
    assert_eq!(to_bytes_with_nul(b""), Ok(vec![0u8]));
    assert_eq!(to_bytes_with_nul(b"open"), Ok(b"open\0".to_vec()));
    assert_eq!(to_bytes_with_nul(b".*/libandroid_runtime.so$"), Ok(b".*/libandroid_runtime.so$\0".to_vec()));
}

#[test]
fn to_bytes_with_nul_reports_the_first_nul() {
    assert_eq!(to_bytes_with_nul(b"\0"), Err(ZygiskError::InteriorNul(0)));
    assert_eq!(to_bytes_with_nul(b"op\0en"), Err(ZygiskError::InteriorNul(2)));
    assert_eq!(to_bytes_with_nul(b"open\0"), Err(ZygiskError::InteriorNul(4)));
    assert_eq!(to_bytes_with_nul(b"a\0b\0"), Err(ZygiskError::InteriorNul(1)));
}

#[test]
fn native_method_keeps_what_it_was_made_of() {
    let mut m = NativeMethod::new(b"nativeForkAndSpecialize", b"(II[I)I", 0x1000).unwrap();
    assert_eq!(m.name().as_slice(), b"nativeForkAndSpecialize\0");
    assert_eq!(m.signature().as_slice(), b"(II[I)I\0");
    assert_eq!(m.fn_ptr(), 0x1000);
    m.set_fn_ptr(0);
    assert_eq!(m.fn_ptr(), 0);
    assert_eq!(m.name().as_slice(), b"nativeForkAndSpecialize\0");
    assert_eq!(m.signature().as_slice(), b"(II[I)I\0");
}

#[test]
fn native_method_refuses_a_nul_byte() {
    assert_eq!(NativeMethod::new(b"na\0me", b"()V", 1).err(), Some(ZygiskError::InteriorNul(2)));
    assert_eq!(NativeMethod::new(b"name", b"\0()V", 1).err(), Some(ZygiskError::InteriorNul(0)));
    assert_eq!(NativeMethod::new(b"n\0", b"()\0V", 1).err(), Some(ZygiskError::InteriorNul(1)));
    assert!(NativeMethod::new(b"", b"", 0).is_ok());
}

#[test]
fn shapes_of_pointer_sized_types_agree() {
    assert!(ShapeAssertion::<usize, fn()>::check());
    assert!(ShapeAssertion::<u64, u64>::check());
    assert!(ShapeAssertion::<u64, [u8; 8]>::check());
    assert!(!ShapeAssertion::<u8, u16>::check());
    assert!(!ShapeAssertion::<[u8; 8], u64>::check());
}
