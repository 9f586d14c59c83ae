use vstd::prelude::*;

verus! {

pub open spec fn hello_line(name: Seq<char>) -> Seq<char> {
    seq!['H', 'e', 'l', 'l', 'o', ',', ' ', 'm', 'y', ' ', 'n', 'a', 'm', 'e', ' ', 'i', 's', ' ']
        + name + seq!['!']
}

pub open spec fn goodbye_line() -> Seq<char> {
    seq!['G', 'o', 'o', 'd', 'b', 'y', 'e', '!']
}

/// The length in bytes of the UTF-8 encoding of `s`, as `str::len` gives it.
pub open spec fn byte_len(s: Seq<char>) -> usize {
    vstd::utf8::encode_utf8(s).len() as usize
}

proof fn lemma_ascii_byte_len(s: Seq<char>)
    requires
        forall|i: int| 0 <= i < s.len() ==> (#[trigger] s[i]) as u32 <= 0x7F,
    ensures
        vstd::utf8::encode_utf8(s).len() == s.len(),
    decreases s.len(),
{
    if s.len() > 0 {
        assert(s[0] as u32 <= 0x7F);
        let t = s.drop_first();
        assert forall|i: int| 0 <= i < t.len() implies (#[trigger] t[i]) as u32 <= 0x7F by {
            assert(t[i] == s[i + 1]);
        }
        lemma_ascii_byte_len(t);
    }
}

/// Something that can greet: each method returns the line it says.
pub trait Greet {
    spec fn spec_hello(&self) -> Seq<char>;

    fn say_hello(&self) -> (r: String)
        ensures
            r@ == self.spec_hello(),
    ;

    fn say_goodbye(&self) -> (r: String)
        ensures
            r@ == goodbye_line(),
    {
        let r = String::from_str("Goodbye!");
        proof {
            reveal_strlit("Goodbye!");
            assert("Goodbye!"@ =~= goodbye_line());
        }
        r
    }
}

pub struct Person {
    pub name: String,
}

impl Greet for Person {
    open spec fn spec_hello(&self) -> Seq<char> {
        hello_line(self.name@)
    }

    fn say_hello(&self) -> (r: String) {
        let r = String::from_str("Hello, my name is ").concat(self.name.as_str()).concat("!");
        proof {
            reveal_strlit("Hello, my name is ");
            reveal_strlit("!");
            assert("Hello, my name is "@ + self.name@ + "!"@ =~= hello_line(self.name@));
        }
        r
    }
}

impl Person {
    /// `Person[name=<name>]`.
    pub fn describe(&self) -> (r: String)
        ensures
            r@ == seq!['P', 'e', 'r', 's', 'o', 'n', '[', 'n', 'a', 'm', 'e', '='] + self.name@
                + seq![']'],
    {
        let r = String::from_str("Person[name=").concat(self.name.as_str()).concat("]");
        proof {
            reveal_strlit("Person[name=");
            reveal_strlit("]");
            assert("Person[name="@ + self.name@ + "]"@ =~= seq![
                'P',
                'e',
                'r',
                's',
                'o',
                'n',
                '[',
                'n',
                'a',
                'm',
                'e',
                '=',
            ] + self.name@ + seq![']']);
        }
        r
    }

    /// The length of the name in bytes, cut to its low 32 bits as `as u32` does.
    pub fn name_len(&self) -> (n: u32)
        ensures
            n as int == byte_len(self.name@) as int % 0x1_0000_0000,
    {
        let len = self.name.as_str().len() as u64;
        let n = #[verifier::truncate] (len as u32);
        assert(n as u64 == len % 0x1_0000_0000) by (bit_vector)
            requires
                n == #[verifier::truncate] (len as u32),
        ;
        n
    }

    /// `Log: Person(<name>)`.
    pub fn log_line(&self) -> (r: String)
        ensures
            r@ == seq!['L', 'o', 'g', ':', ' ', 'P', 'e', 'r', 's', 'o', 'n', '('] + self.name@
                + seq![')'],
    {
        let r = String::from_str("Log: Person(").concat(self.name.as_str()).concat(")");
        proof {
            reveal_strlit("Log: Person(");
            reveal_strlit(")");
            assert("Log: Person("@ + self.name@ + ")"@ =~= seq![
                'L',
                'o',
                'g',
                ':',
                ' ',
                'P',
                'e',
                'r',
                's',
                'o',
                'n',
                '(',
            ] + self.name@ + seq![')']);
        }
        r
    }
}

/// A growable collection with an item type of its own.
pub trait Container {
    type Item;

    spec fn contents(&self) -> Seq<Self::Item>;

    fn get(&self, index: usize) -> (r: Option<&Self::Item>)
        ensures
            index < self.contents().len() ==> r == Some(&self.contents()[index as int]),
            index >= self.contents().len() ==> r is None,
    ;

    fn add(&mut self, item: Self::Item)
        ensures
            final(self).contents() == old(self).contents().push(item),
    ;
}

pub struct MyVec<T> {
    pub items: Vec<T>,
}

impl<T> Container for MyVec<T> {
    type Item = T;

    open spec fn contents(&self) -> Seq<T> {
        self.items@
    }

    fn get(&self, index: usize) -> (r: Option<&T>) {
        if index < self.items.len() {
            Some(&self.items[index])
        } else {
            None
        }
    }

    fn add(&mut self, item: T) {
        self.items.push(item);
    }
}

/// What a greeter says, hello then goodbye.
pub fn greet_someone<G: Greet>(g: &G) -> (lines: Vec<String>)
    ensures
        lines@.len() == 2,
        lines@[0]@ == g.spec_hello(),
        lines@[1]@ == goodbye_line(),
{
    let mut lines = Vec::new();
    lines.push(g.say_hello());
    lines.push(g.say_goodbye());
    lines
}

pub fn print_greeting<T: Greet>(item: T) -> (r: String)
    ensures
        r@ == item.spec_hello(),
{
    item.say_hello()
}

pub fn is_sync<T: Sync>(t: T) {
}

/// What the trait tour computes, for the caller to show.
pub struct TraitTour {
    /// The greeting lines, in the order they are said.
    pub lines: Vec<String>,
    pub item_at_2: Option<i32>,
    pub as_string: String,
    pub as_u32: u32,
}

/// Runs the trait samples on fixed values and returns what they produce.
pub fn use_trait() -> (t: TraitTour)
    ensures
        t.lines@.len() == 6,
        t.lines@[0]@ == hello_line(seq!['A', 'l', 'i', 'c', 'e']),
        t.lines@[1]@ == goodbye_line(),
        t.lines@[2]@ == hello_line(seq!['A', 'l', 'i', 'c', 'e']),
        t.lines@[3]@ == goodbye_line(),
        t.lines@[4]@ == hello_line(seq!['A', 'l', 'i', 'c', 'e']),
        t.lines@[5]@ == seq!['L', 'o', 'g', ':', ' ', 'P', 'e', 'r', 's', 'o', 'n', '(', 'B', 'o', 'b', ')'],
        t.item_at_2 == Some(3i32),
        t.as_string@ == seq!['P', 'e', 'r', 's', 'o', 'n', '[', 'n', 'a', 'm', 'e', '=', 'A', 'l', 'i', 'c', 'e', ']'],
        t.as_u32 == 5,
{
    let person = Person { name: String::from_str("Alice") };
    proof {
        reveal_strlit("Alice");
    }
    let mut lines: Vec<String> = Vec::new();
    lines.push(person.say_hello());
    lines.push(person.say_goodbye());
    let mut greeted = greet_someone(&person);
    lines.append(&mut greeted);

    let mut container = MyVec { items: vec![1i32, 2, 3] };
    container.add(4);
    let item_at_2 = match container.get(2) {
        Some(x) => Some(*x),
        None => None,
    };

    let as_string = person.describe();
    let as_u32 = person.name_len();
    proof {
        let alice = seq!['A', 'l', 'i', 'c', 'e'];
        assert(person.name@ == alice);
        assert forall|i: int| 0 <= i < alice.len() implies (#[trigger] alice[i]) as u32 <= 0x7F by {}
        lemma_ascii_byte_len(alice);
    }
    lines.push(print_greeting(person));

    let person2 = Person { name: String::from_str("Bob") };
    proof {
        reveal_strlit("Bob");
    }
    lines.push(person2.log_line());
    is_sync(person2);
    TraitTour { lines, item_at_2, as_string, as_u32 }
}

} // verus!
