#![allow(non_snake_case)]

use channels::dispatch::sayHello;
use channels::dispatch::strlen;
use channels::dispatch::SayHello;

#[test]
fn strlen_counts_bytes() {
    assert_eq!(13, strlen("Hello, world!"));
    assert_eq!(0, strlen(""));
}

#[test]
fn greetings_are_composed_per_type() {
    assert_eq!("Hello, x", "x".sayHello());
    assert_eq!("Hello, y", String::from("y").sayHello());
    assert_eq!("Hello, z", sayHello(&"z"));
}
