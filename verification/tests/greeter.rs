use app_startup::greeter::greet;

#[test]
fn greets_world() {
    assert_eq!(greet("World"), "Hello, World! You've been greeted!");
}

#[test]
fn greets_empty_name() {
    assert_eq!(greet(""), "Hello, ! You've been greeted!");
}

#[test]
fn greets_any_name() {
    assert_eq!(greet("Ada Lovelace"), "Hello, Ada Lovelace! You've been greeted!");
}

#[test]
fn greeting_is_pure() {
    assert_eq!(greet("twice"), greet("twice"));
}
