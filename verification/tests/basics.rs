#[test]
fn it_works() {
    let result = testable_design::add(2, 2);
    assert_eq!(result, 4);
}
