use fibonacci::greet;

#[test]
fn greet_wraps_the_name() {
    assert_eq!(greet("World"), "Hello, World!");
}

#[test]
fn greet_with_an_empty_name() {
    assert_eq!(greet(""), "Hello, !");
}

#[test]
fn greet_keeps_the_name_as_given() {
    assert_eq!(greet("  Zoë Müller "), "Hello,   Zoë Müller !");
    assert_eq!(greet("Hello, !"), "Hello, Hello, !!");
}

#[test]
fn greet_twice_gives_equal_text() {
    assert_eq!(greet("Ada"), greet("Ada"));
    assert_ne!(greet("Ada"), greet("ada"));
}
