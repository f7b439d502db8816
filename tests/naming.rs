use structbuilder_derive::naming::camel_to_snake;

#[test]
fn test_empty() {
    let src = String::from("");
    let expected = src.clone();
    let actual = camel_to_snake(&src);
    assert_eq!(expected, actual);
}

#[test]
fn test_regular_snake() {
    let src = String::from("abc_def");
    let expected = src.clone();
    let actual = camel_to_snake(&src);
    assert_eq!(expected, actual);
}

#[test]
fn test_only_caps() {
    let src = String::from("ABC");
    let expected = src.clone();
    let actual = camel_to_snake(&src);
    assert_eq!(expected, actual);
}

#[test]
fn test_screaming_snake() {
    let src = String::from("SCREAMING_SNAKE");
    let expected = src.clone();
    let actual = camel_to_snake(&src);
    assert_eq!(expected, actual);
}

#[test]
fn test_camel() {
    let src = String::from("theThingIs");
    let expected = String::from("the_thing_is");
    let actual = camel_to_snake(&src);
    assert_eq!(expected, actual);
}

#[test]
fn test_snake_with_some_upper() {
    let src = String::from("is_USB_connected");
    let expected = src.clone();
    let actual = camel_to_snake(&src);
    assert_eq!(expected, actual);
}

#[test]
fn test_snake_with_one_upper() {
    let src = String::from("can_I_touch");
    let expected = src.clone();
    let actual = camel_to_snake(&src);
    assert_eq!(expected, actual);
}

#[test]
fn acronym_after_fresh_boundary_is_rejoined() {
    assert_eq!(camel_to_snake(&String::from("aBC")), "a_BC");
    assert_eq!(camel_to_snake(&String::from("myHTTPServer")), "my_HTTPServer");
}

#[test]
fn leading_capital_is_kept() {
    assert_eq!(camel_to_snake(&String::from("Name")), "Name");
    assert_eq!(camel_to_snake(&String::from("xY")), "x_y");
}

#[test]
fn non_ascii_letters_pass_through() {
    assert_eq!(camel_to_snake(&String::from("caféÉte")), "caféÉte");
    assert_eq!(camel_to_snake(&String::from("fooBar9Baz")), "foo_bar9_baz");
}
