use learn_rust_in_y_minutes::matching::FooBar;
use learn_rust_in_y_minutes::types::OptionalI32;

#[test]
fn describe_names_the_integer_that_is_held() {
    assert_eq!(OptionalI32::AnI32(1).describe(), "it's an i32: 1");
    assert_eq!(OptionalI32::AnI32(2).describe(), "it's an i32: 2");
    assert_eq!(OptionalI32::AnI32(0).describe(), "it's an i32: 0");
    assert_eq!(OptionalI32::AnI32(-40).describe(), "it's an i32: -40");
    assert_eq!(OptionalI32::AnI32(i32::MIN).describe(), "it's an i32: -2147483648");
    assert_eq!(OptionalI32::AnI32(i32::MAX).describe(), "it's an i32: 2147483647");
}

#[test]
fn describe_says_when_nothing_is_held() {
    assert_eq!(OptionalI32::Nothing.describe(), "it's nothing");
}

#[test]
fn describe_names_two_different_numbers_in_their_order() {
    let bar = FooBar { x: 15, y: OptionalI32::AnI32(32) };
    assert_eq!(bar.describe(), "Different numbers: 15, 32");
    let swapped = FooBar { x: 32, y: OptionalI32::AnI32(15) };
    assert_eq!(swapped.describe(), "Different numbers: 32, 15");
    let negative = FooBar { x: -7, y: OptionalI32::AnI32(7) };
    assert_eq!(negative.describe(), "Different numbers: -7, 7");
    let ends = FooBar { x: i32::MIN, y: OptionalI32::AnI32(i32::MAX) };
    assert_eq!(ends.describe(), "Different numbers: -2147483648, 2147483647");
}

#[test]
fn describe_has_a_sentence_for_two_zeros() {
    let zeros = FooBar { x: 0, y: OptionalI32::AnI32(0) };
    assert_eq!(zeros.describe(), "The numbers are zero!");
}

#[test]
fn describe_calls_equal_numbers_the_same() {
    for n in [i32::MIN, -1, 1, 15, 32, i32::MAX] {
        let equal = FooBar { x: n, y: OptionalI32::AnI32(n) };
        assert_eq!(equal.describe(), "The nubmers are the same!");
    }
}

#[test]
fn describe_treats_one_zero_as_a_different_number() {
    let first = FooBar { x: 0, y: OptionalI32::AnI32(1) };
    assert_eq!(first.describe(), "Different numbers: 0, 1");
    let second = FooBar { x: 1, y: OptionalI32::AnI32(0) };
    assert_eq!(second.describe(), "Different numbers: 1, 0");
}

#[test]
fn describe_says_when_the_second_number_is_missing() {
    for x in [i32::MIN, -1, 0, 15, i32::MAX] {
        let bar = FooBar { x, y: OptionalI32::Nothing };
        assert_eq!(bar.describe(), "The second number is nothing");
    }
}

#[test]
fn describe_leaves_its_argument_as_it_was() {
    let bar = FooBar { x: 15, y: OptionalI32::AnI32(32) };
    let first = bar.describe();
    let second = bar.describe();
    assert_eq!(first, second);
    assert_eq!(bar, FooBar { x: 15, y: OptionalI32::AnI32(32) });
}
