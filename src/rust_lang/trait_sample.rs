use vstd::prelude::*;
use crate::rust_lang::trait_s::{Greet, Person, greet_someone, hello_line, goodbye_line};

verus! {

/// Greets directly and through a generic greeter; returns the lines said.
pub fn use_trait() -> (lines: Vec<String>)
    ensures
        lines@.len() == 4,
        lines@[0]@ == hello_line(seq!['A', 'l', 'i', 'c', 'e']),
        lines@[1]@ == goodbye_line(),
        lines@[2]@ == hello_line(seq!['A', 'l', 'i', 'c', 'e']),
        lines@[3]@ == goodbye_line(),
{
    let person = Person { name: String::from_str("Alice") };
    proof {
        reveal_strlit("Alice");
    }
    let mut lines: Vec<String> = Vec::new();
    lines.push(person.say_hello());
    lines.push(person.say_goodbye());
    let mut greeted = greet_someone(&person);
    lines.append(&mut greeted);
    lines
}

} // verus!
