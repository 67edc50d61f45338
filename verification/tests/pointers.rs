use fish_bridge::pointer::void_ptr;

fn needs_send_and_sync<T: Send + Sync>(value: T) -> T {
    value
}

#[test]
fn null_wraps_are_equal_and_print_as_zero() {
    let first = void_ptr::from(0usize);
    let second = void_ptr::from(0usize);
    assert!(first == second);
    assert_eq!(first.debug_string(), "0x0");
    assert_eq!(second.debug_string(), "0x0");
}

#[test]
fn wrap_then_unwrap_gives_the_address_back() {
    for addr in [0usize, 1, 0x10, 0xdead_beef, usize::MAX] {
        let ptr = void_ptr::from(addr);
        assert_eq!(usize::from(ptr), addr);
        assert_eq!(ptr.0, addr);
        let back: usize = ptr.into();
        assert_eq!(back, addr);
        assert!(void_ptr::from(usize::from(ptr)) == ptr);
    }
}

#[test]
fn distinct_addresses_are_not_equal() {
    assert!(void_ptr::from(0x1000usize) != void_ptr::from(0x1001usize));
    assert!(void_ptr(8) == void_ptr(8));
}

#[test]
fn copies_are_equal_to_the_value_copied() {
    let ptr = void_ptr::from(0x7ffe_1234usize);
    let copy = ptr;
    let cloned = ptr.clone();
    assert!(copy == ptr);
    assert!(cloned == ptr);
    assert_eq!(usize::from(copy), 0x7ffe_1234);
}

#[test]
fn debug_string_is_lower_case_hex_without_padding() {
    assert_eq!(void_ptr::from(1usize).debug_string(), "0x1");
    assert_eq!(void_ptr::from(9usize).debug_string(), "0x9");
    assert_eq!(void_ptr::from(10usize).debug_string(), "0xa");
    assert_eq!(void_ptr::from(15usize).debug_string(), "0xf");
    assert_eq!(void_ptr::from(16usize).debug_string(), "0x10");
    assert_eq!(void_ptr::from(255usize).debug_string(), "0xff");
    assert_eq!(void_ptr::from(0x1000usize).debug_string(), "0x1000");
    assert_eq!(void_ptr::from(0xdead_beefusize).debug_string(), "0xdeadbeef");
    assert_eq!(void_ptr::from(0x0123_4567usize).debug_string(), "0x1234567");
}

#[test]
fn debug_string_agrees_with_std_hex_formatting() {
    for addr in [0usize, 7, 0x80, 0xabc, 0x89ab_cdef, usize::MAX, usize::MAX / 3] {
        assert_eq!(void_ptr::from(addr).debug_string(), format!("{:#x}", addr));
    }
}

#[test]
fn debug_string_of_an_address_is_how_std_prints_that_pointer() {
    let value = 5u8;
    let printed = format!("{:p}", &value);
    let addr = usize::from_str_radix(printed.trim_start_matches("0x"), 16).unwrap();
    assert_eq!(void_ptr::from(addr).debug_string(), printed);
}

#[test]
fn pointer_value_can_cross_threads() {
    let ptr = needs_send_and_sync(void_ptr::from(0x40usize));
    assert_eq!(usize::from(ptr), 0x40);
    let shared = needs_send_and_sync(&ptr);
    assert_eq!(shared.0, 0x40);
}
