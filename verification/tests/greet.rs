use greeter::{Greeter, Greeting};

#[test]
fn hello_world() {
    let g = Greeting::new("Hello");
    assert_eq!(g.greet("World"), "Hello, World!");
}

#[test]
fn stores_prefix() {
    let g = Greeting::new("Good morning");
    assert_eq!(g.prefix, "Good morning");
}

#[test]
fn other_prefix_and_name() {
    let g = Greeting::new("Hi");
    assert_eq!(g.greet("there"), "Hi, there!");
}

#[test]
fn empty_prefix_and_name() {
    let g = Greeting::new("");
    assert_eq!(g.greet(""), ", !");
}
