use vstd::prelude::*;

verus! {

/// The characters of `s` before the first `c`; all of `s` when it holds none.
pub open spec fn before_first(s: Seq<char>, c: char) -> Seq<char>
    decreases s.len(),
{
    if s.len() == 0 {
        s
    } else if s[0] == c {
        Seq::empty()
    } else {
        seq![s[0]] + before_first(s.drop_first(), c)
    }
}

proof fn lemma_before_first(s: Seq<char>, c: char, i: int)
    requires
        0 <= i <= s.len(),
        forall|j: int| 0 <= j < i ==> s[j] != c,
        i == s.len() || s[i] == c,
    ensures
        before_first(s, c) == s.take(i),
    decreases i,
{
    if i > 0 {
        lemma_before_first(s.drop_first(), c, i - 1);
        assert(seq![s[0]] + s.drop_first().take(i - 1) =~= s.take(i));
    } else if s.len() > 0 {
        assert(s.take(0) =~= Seq::<char>::empty());
    } else {
        assert(s.take(0) =~= s);
    }
}

/// The part of `s` before the first `c`.
pub fn prefix_before(s: &str, c: char) -> (r: &str)
    ensures
        r@ == before_first(s@, c),
{
    let n = s.unicode_len();
    let mut i: usize = 0;
    while i < n
        invariant
            n == s@.len(),
            i <= n,
            forall|j: int| 0 <= j < i ==> s@[j] != c,
        decreases n - i,
    {
        if s.get_char(i) == c {
            proof {
                lemma_before_first(s@, c, i as int);
            }
            return s.substring_char(0, i);
        }
        i = i + 1;
    }
    proof {
        lemma_before_first(s@, c, n as int);
        assert(s@.take(n as int) =~= s@);
    }
    s.substring_char(0, n)
}

/// Whichever of the two strings is longer in bytes; `y` on a tie.
pub fn longest<'a>(x: &'a str, y: &'a str) -> (r: &'a str)
    ensures
        r@ == if x.len() > y.len() {
            x@
        } else {
            y@
        },
{
    if x.len() > y.len() {
        x
    } else {
        y
    }
}

/// A struct that borrows a part of a longer text.
pub struct ImportantExcept<'a> {
    pub part: &'a str,
}

impl<'a> ImportantExcept<'a> {
    pub fn level(&self) -> (l: i32)
        ensures
            l == 3,
    {
        3
    }

    /// Hands back the borrowed part; the announcement is for the caller to show.
    pub fn announce_and_return_part(&self, announcement: &str) -> (r: &str)
        ensures
            r@ == self.part@,
    {
        self.part
    }

    pub fn get_part(&self, delimiter: &str) -> (r: &str)
        ensures
            r@ == self.part@,
    {
        self.part
    }
}

/// The first word of `s`: everything before the first space.
pub fn first_word(s: &str) -> (r: &str)
    ensures
        r@ == before_first(s@, ' '),
{
    prefix_before(s, ' ')
}

pub const STATIC_TEXT: &'static str = "This string lives for the entire programme";

/// A string that lives for the whole program.
pub fn static_lift_time() -> (r: &'static str)
    ensures
        r@ == STATIC_TEXT@,
{
    STATIC_TEXT
}

/// `ann` when `x` is longer in bytes than `y`, else `y`.
pub fn longest_with_an_announcement<'a, 'b>(x: &'a str, y: &'a str, ann: &'b str) -> (r: &'a str) where
    'b: 'a,

    ensures
        r@ == if x.len() > y.len() {
            ann@
        } else {
            y@
        },
{
    if x.len() > y.len() {
        ann
    } else {
        y
    }
}

pub const LONG_TEXT: &'static str = "long string is long";

pub const SHORT_TEXT: &'static str = "xyz";

pub const NOVEL: &'static str = "Call me Ishmael. Some years ago...";

pub const ANNOUNCEMENT: &'static str = "Finding the longest string!";

/// What the lifetime tour computes, for the caller to show.
pub struct LifeTimeTour {
    pub longest: &'static str,
    pub first_sentence: &'static str,
    pub level: i32,
    pub static_text: &'static str,
    pub announced: &'static str,
}

/// Runs the lifetime samples on fixed texts and returns what they produce.
pub fn use_life_time() -> (t: LifeTimeTour)
    ensures
        t.longest@ == if LONG_TEXT.len() > SHORT_TEXT.len() {
            LONG_TEXT@
        } else {
            SHORT_TEXT@
        },
        t.first_sentence@ == before_first(NOVEL@, '.'),
        t.level == 3,
        t.static_text@ == STATIC_TEXT@,
        t.announced@ == if LONG_TEXT.len() > SHORT_TEXT.len() {
            ANNOUNCEMENT@
        } else {
            SHORT_TEXT@
        },
{
    let ret = longest(LONG_TEXT, SHORT_TEXT);
    let first_sentence = prefix_before(NOVEL, '.');
    let i = ImportantExcept { part: first_sentence };
    let part = i.part;
    let level = i.level();
    let static_ref = static_lift_time();
    let ret2 = longest_with_an_announcement(LONG_TEXT, SHORT_TEXT, ANNOUNCEMENT);
    LifeTimeTour {
        longest: ret,
        first_sentence: part,
        level,
        static_text: static_ref,
        announced: ret2,
    }
}

} // verus!
