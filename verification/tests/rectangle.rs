use fibonacci::area;

#[test]
fn area_of_thirty_by_fifty() {
    assert_eq!(area(30, 50), 1500);
}

#[test]
fn area_with_a_side_of_zero() {
    assert_eq!(area(0, 50), 0);
    assert_eq!(area(30, 0), 0);
    assert_eq!(area(0, u32::MAX), 0);
}

#[test]
fn area_does_not_depend_on_which_side_is_which() {
    assert_eq!(area(7, 13), 91);
    assert_eq!(area(13, 7), 91);
}

#[test]
fn area_up_to_the_largest_value() {
    assert_eq!(area(1, u32::MAX), u32::MAX);
    assert_eq!(area(65_535, 65_537), u32::MAX);
    assert_eq!(area(65_535, 65_535), 4_294_836_225);
}
