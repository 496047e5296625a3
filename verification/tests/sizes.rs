#[test]
fn it_works() {
    let result: usize = modbus::add(2, 2);
    assert_eq!(result, 4);
}

#[test]
fn add_reaches_the_largest_size() {
    assert_eq!(modbus::add(usize::MAX - 1, 1), usize::MAX);
    assert_eq!(modbus::add(0, 0), 0);
}
