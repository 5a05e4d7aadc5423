//! Verified helpers over strings, seen as sequences of characters.
use vstd::prelude::*;

verus! {

/// The places at which a scan over a piece of text stops.
#[derive(Clone, Copy, Debug)]
pub enum Boundary {
    /// The end of a scheme candidate: `:`, `/`, `?` or `#`.
    Scheme,
    /// The end of an authority: `/`, `?` or `#`.
    Authority,
    /// The end of a path: `?` or `#`.
    Path,
    /// The end of a query: `#`.
    Query,
    /// The end of a placeholder name: `}`.
    Placeholder,
}

impl Boundary {
    /// Whether the character `c` closes a component of this kind.
    pub open spec fn ends_at(self, c: char) -> bool {
        match self {
            Boundary::Scheme => c == ':' || c == '/' || c == '?' || c == '#',
            Boundary::Authority => c == '/' || c == '?' || c == '#',
            Boundary::Path => c == '?' || c == '#',
            Boundary::Query => c == '#',
            Boundary::Placeholder => c == '}',
        }
    }

    /// Tells whether the character `c` closes a component of this kind.
    pub fn closes(&self, c: char) -> (r: bool)
        ensures
            r == self.ends_at(c),
    {
        match self {
            Boundary::Scheme => c == ':' || c == '/' || c == '?' || c == '#',
            Boundary::Authority => c == '/' || c == '?' || c == '#',
            Boundary::Path => c == '?' || c == '#',
            Boundary::Query => c == '#',
            Boundary::Placeholder => c == '}',
        }
    }
}

/// Whether `s` begins with the character `c`.
pub open spec fn begins_with(s: Seq<char>, c: char) -> bool {
    s.len() > 0 && s[0] == c
}

/// Whether `s` ends with the character `c`.
pub open spec fn finishes_with(s: Seq<char>, c: char) -> bool {
    s.len() > 0 && s[s.len() - 1] == c
}

/// The length of `s` once every trailing `c` is taken away.
pub open spec fn trimmed_len(s: Seq<char>, c: char) -> nat
    decreases s.len(),
{
    if finishes_with(s, c) {
        trimmed_len(s.drop_last(), c)
    } else {
        s.len()
    }
}

/// The first index at or after `from` whose character closes `boundary`,
/// or the length of `s` when there is none.
pub open spec fn component_end(s: Seq<char>, from: int, boundary: Boundary) -> int
    decreases s.len() - from,
{
    if from < 0 || from >= s.len() {
        s.len() as int
    } else if boundary.ends_at(s[from]) {
        from
    } else {
        component_end(s, from + 1, boundary)
    }
}

/// Trimming never lengthens, and what is left does not end with `c`.
pub proof fn lemma_trimmed_len(s: Seq<char>, c: char)
    ensures
        trimmed_len(s, c) <= s.len(),
        !finishes_with(s.subrange(0, trimmed_len(s, c) as int), c),
    decreases s.len(),
{
    if finishes_with(s, c) {
        lemma_trimmed_len(s.drop_last(), c);
        let n = trimmed_len(s, c) as int;
        assert(s.drop_last().subrange(0, n) =~= s.subrange(0, n));
    } else {
        assert(s.subrange(0, s.len() as int) =~= s);
    }
}

/// Tells whether `s` begins with the character `c`.
pub fn starts_with_char(s: &str, c: char) -> (r: bool)
    ensures
        r == begins_with(s@, c),
{
    let n: usize = s.unicode_len();
    n > 0 && s.get_char(0) == c
}

/// Tells whether `s` ends with the character `c`.
pub fn ends_with_char(s: &str, c: char) -> (r: bool)
    ensures
        r == finishes_with(s@, c),
{
    let n: usize = s.unicode_len();
    n > 0 && s.get_char(n - 1) == c
}

/// Whether the two texts hold the same characters.
pub fn same_text(a: &str, b: &str) -> (r: bool)
    ensures
        r == (a@ == b@),
{
    let x = a.to_owned();
    let y = b.to_owned();
    x == y
}

/// The characters of `s` from `from` up to, not including, `to`.
pub fn slice(s: &str, from: usize, to: usize) -> (r: String)
    requires
        from <= to <= s@.len(),
    ensures
        r@ == s@.subrange(from as int, to as int),
{
    s.substring_char(from, to).to_owned()
}

/// Scans `s` from `from` for the first character that closes `boundary`.
pub fn scan(s: &str, from: usize, boundary: Boundary) -> (r: usize)
    requires
        from <= s@.len(),
    ensures
        r == component_end(s@, from as int, boundary),
        from <= r <= s@.len(),
{
    let n: usize = s.unicode_len();
    let mut i: usize = from;
    while i < n && !boundary.closes(s.get_char(i))
        invariant
            n == s@.len(),
            from <= i <= n,
            component_end(s@, from as int, boundary) == component_end(s@, i as int, boundary),
        decreases n - i,
    {
        i = i + 1;
    }
    i
}

/// The number of characters of `s` that are left once every trailing `c`
/// is taken away.
pub fn trim_end(s: &str, c: char) -> (r: usize)
    ensures
        r == trimmed_len(s@, c),
        r <= s@.len(),
{
    let mut n: usize = s.unicode_len();
    proof {
        assert(s@.subrange(0, n as int) =~= s@);
    }
    while n > 0 && s.get_char(n - 1) == c
        invariant
            n <= s@.len(),
            trimmed_len(s@, c) == trimmed_len(s@.subrange(0, n as int), c),
        decreases n,
    {
        proof {
            let t = s@.subrange(0, n as int);
            assert(finishes_with(t, c));
            assert(t.drop_last() =~= s@.subrange(0, n - 1));
        }
        n = n - 1;
    }
    proof {
        assert(!finishes_with(s@.subrange(0, n as int), c));
    }
    n
}

/// The character of a decimal digit.
pub open spec fn digit(d: nat) -> char {
    if d == 0 {
        '0'
    } else if d == 1 {
        '1'
    } else if d == 2 {
        '2'
    } else if d == 3 {
        '3'
    } else if d == 4 {
        '4'
    } else if d == 5 {
        '5'
    } else if d == 6 {
        '6'
    } else if d == 7 {
        '7'
    } else if d == 8 {
        '8'
    } else {
        '9'
    }
}

/// The decimal digits of `n`, without leading zeros.
pub open spec fn decimal(n: nat) -> Seq<char>
    decreases n,
{
    if n < 10 {
        seq![digit(n)]
    } else {
        decimal(n / 10).push(digit(n % 10))
    }
}

fn digit_text(d: u16) -> (r: &'static str)
    requires
        d < 10,
    ensures
        r@ == seq![digit(d as nat)],
{
    proof {
        reveal_strlit("0");
        reveal_strlit("1");
        reveal_strlit("2");
        reveal_strlit("3");
        reveal_strlit("4");
        reveal_strlit("5");
        reveal_strlit("6");
        reveal_strlit("7");
        reveal_strlit("8");
        reveal_strlit("9");
    }
    let r = if d == 0 {
        "0"
    } else if d == 1 {
        "1"
    } else if d == 2 {
        "2"
    } else if d == 3 {
        "3"
    } else if d == 4 {
        "4"
    } else if d == 5 {
        "5"
    } else if d == 6 {
        "6"
    } else if d == 7 {
        "7"
    } else if d == 8 {
        "8"
    } else {
        "9"
    };
    assert(r@ =~= seq![digit(d as nat)]);
    r
}

/// The number `n` in decimal digits.
pub fn to_decimal(n: u16) -> (r: String)
    ensures
        r@ == decimal(n as nat),
    decreases n,
{
    if n < 10 {
        digit_text(n).to_owned()
    } else {
        let r = to_decimal(n / 10).concat(digit_text(n % 10));
        assert(r@ =~= decimal(n as nat / 10).push(digit(n as nat % 10)));
        r
    }
}

} // verus!
