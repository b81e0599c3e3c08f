use aggregator::pair::largest_line;
use aggregator::render::joined_line;
use aggregator::{some_function, some_function_where, Pair};

#[derive(Clone, Debug)]
struct Point {
    x: i32,
    y: i32,
}

#[test]
fn joined_line_puts_a_comma_and_a_space_between() {
    assert_eq!(joined_line("left", "right"), "left, right");
}

#[test]
fn joined_line_of_empty_parts() {
    assert_eq!(joined_line("", ""), ", ");
}

#[test]
fn some_function_returns_ten() {
    let (_, value) = some_function(&1, &2);
    assert_eq!(value, 10);
    let (_, value) = some_function(&String::from("text"), &Some(false));
    assert_eq!(value, 10);
}

#[test]
fn some_function_where_returns_ten() {
    let (_, value) = some_function_where(&1, &2);
    assert_eq!(value, 10);
    let (_, value) = some_function_where(&'c', &vec![1u8]);
    assert_eq!(value, 10);
}

#[test]
fn some_function_shows_two_numbers() {
    let (line, _) = some_function(&5, &7);
    assert_eq!(line, "5, 7");
}

#[test]
fn some_function_uses_the_pretty_debug_form_of_a_struct() {
    let (line, value) = some_function(&"origin", &Point { x: 1, y: -2 });
    assert_eq!(line, "origin, Point {\n    x: 1,\n    y: -2,\n}");
    assert_eq!(value, 10);
}

#[test]
fn some_function_uses_the_pretty_debug_form_of_a_list() {
    let (line, _) = some_function(&1.5, &vec![1, 2]);
    assert_eq!(line, "1.5, [\n    1,\n    2,\n]");
}

#[test]
fn some_function_quotes_a_debugged_text() {
    let (line, _) = some_function(&"plain", &"quoted");
    assert_eq!(line, "plain, \"quoted\"");
}

#[test]
fn some_function_where_gives_the_line_of_some_function() {
    let point = Point { x: 3, y: 4 };
    assert_eq!(
        some_function_where(&"here", &point),
        some_function(&"here", &point)
    );
    assert_eq!(
        some_function_where(&"here", &point).0,
        "here, Point {\n    x: 3,\n    y: 4,\n}"
    );
    assert_eq!(point.x + point.y, 7);
}

#[test]
fn largest_line_for_each_member() {
    assert_eq!(largest_line(true, "10"), "The largest member is x = 10");
    assert_eq!(largest_line(false, "10"), "The largest number is y = 10");
}

#[test]
fn pair_names_y_when_y_is_greater() {
    assert_eq!(
        Pair::new(5, 10).cmp_display(),
        "The largest number is y = 10"
    );
}

#[test]
fn pair_names_x_when_x_is_greater() {
    assert_eq!(
        Pair::new(10, 5).cmp_display(),
        "The largest member is x = 10"
    );
}

#[test]
fn pair_names_x_on_a_tie() {
    assert_eq!(Pair::new(7, 7).cmp_display(), "The largest member is x = 7");
}

#[test]
fn pair_of_negative_numbers() {
    assert_eq!(
        Pair::new(-3, -8).cmp_display(),
        "The largest member is x = -3"
    );
}

#[test]
fn pair_of_texts_compares_by_the_order_of_texts() {
    assert_eq!(
        Pair::new("apple", "banana").cmp_display(),
        "The largest number is y = banana"
    );
    assert_eq!(
        Pair::new(String::from("pear"), String::from("fig")).cmp_display(),
        "The largest member is x = pear"
    );
}

#[test]
fn pair_of_floats_that_do_not_compare_names_y() {
    assert_eq!(
        Pair::new(f64::NAN, 1.5).cmp_display(),
        "The largest number is y = 1.5"
    );
    assert_eq!(
        Pair::new(1.5, f64::NAN).cmp_display(),
        "The largest number is y = NaN"
    );
}
