use diet_store::greeting::greet;

#[test]
fn greet_names_the_one_it_greets() {
    assert_eq!(greet("Ada"), "Hello, Ada! You've been greeted from Rust!");
}

#[test]
fn greet_takes_any_name() {
    assert_eq!(greet(""), "Hello, ! You've been greeted from Rust!");
    assert_eq!(greet("J\u{fc}rgen {}"), "Hello, J\u{fc}rgen {}! You've been greeted from Rust!");
}
