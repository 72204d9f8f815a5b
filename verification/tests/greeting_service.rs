use greeting_service::HelloWorld;
use soroban_sdk::{Env, Symbol};

#[test]
fn echo_world() {
    let env = Env::default();
    let input = Symbol::new(&env, "World");
    let out = HelloWorld::hello(env.clone(), input.clone());
    assert_eq!(out, input);
}

#[test]
fn echo_hello() {
    let env = Env::default();
    let input = Symbol::new(&env, "Hello");
    let out = HelloWorld::hello(env.clone(), input.clone());
    assert_eq!(out, input);
}

#[test]
fn echo_longest_symbol() {
    let env = Env::default();
    let input = Symbol::new(&env, "a_symbol_of_thirty_two_chars_max");
    let out = HelloWorld::hello(env.clone(), input.clone());
    assert_eq!(out, input);
}

#[test]
fn echo_same_input_twice() {
    let env = Env::default();
    let input = Symbol::new(&env, "again");
    let first = HelloWorld::hello(env.clone(), input.clone());
    let second = HelloWorld::hello(env.clone(), input.clone());
    assert_eq!(first, second);
    assert_eq!(first, input);
}

#[test]
fn greeting_is_hello() {
    let env = Env::default();
    let out = HelloWorld::greeting(env.clone());
    assert_eq!(out, Symbol::new(&env, "Hello"));
}

#[test]
fn greeting_twice_equal() {
    let env = Env::default();
    let first = HelloWorld::greeting(env.clone());
    let second = HelloWorld::greeting(env.clone());
    assert_eq!(first, second);
    assert_eq!(first, Symbol::new(&env, "Hello"));
    assert_eq!(second, Symbol::new(&env, "Hello"));
}

#[test]
fn greeting_is_not_another_symbol() {
    let env = Env::default();
    let out = HelloWorld::greeting(env.clone());
    assert_ne!(out, Symbol::new(&env, "World"));
}
