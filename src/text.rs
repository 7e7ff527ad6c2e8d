//! Small string utilities: exact comparison and decimal rendering.
use vstd::prelude::*;
use vstd::string::*;

verus! {

/// The decimal digit character for `d` (which must be below ten).
pub open spec fn digit_char(d: nat) -> char {
    if d == 0 {
        '0'
    } else if d == 1 {
        '1'
    } else if d == 2 {
        '2'
    } else if d == 3 {
        '3'
    } else if d == 4 {
        '4'
    } else if d == 5 {
        '5'
    } else if d == 6 {
        '6'
    } else if d == 7 {
        '7'
    } else if d == 8 {
        '8'
    } else {
        '9'
    }
}

/// The decimal representation of `n`, most significant digit first, no leading zeros.
pub open spec fn dec(n: nat) -> Seq<char>
    decreases n,
{
    if n < 10 {
        seq![digit_char(n)]
    } else {
        dec(n / 10) + seq![digit_char(n % 10)]
    }
}

/// Whether two strings hold exactly the same characters.
pub fn str_eq(a: &str, b: &str) -> (r: bool)
    ensures
        r == (a@ == b@),
{
    let n = a.unicode_len();
    if n != b.unicode_len() {
        return false;
    }
    let mut i: usize = 0;
    while i < n
        invariant
            n == a@.len(),
            n == b@.len(),
            i <= n,
            a@.subrange(0, i as int) == b@.subrange(0, i as int),
        decreases n - i,
    {
        if a.get_char(i) != b.get_char(i) {
            assert(a@[i as int] != b@[i as int]);
            return false;
        }
        assert(a@.subrange(0, i + 1) =~= a@.subrange(0, i as int).push(a@[i as int]));
        assert(b@.subrange(0, i + 1) =~= b@.subrange(0, i as int).push(b@[i as int]));
        i = i + 1;
    }
    assert(a@ =~= a@.subrange(0, n as int));
    assert(b@ =~= b@.subrange(0, n as int));
    true
}

/// Whether `p` is a prefix of `s`.
pub open spec fn has_prefix(s: Seq<char>, p: Seq<char>) -> bool {
    p.len() <= s.len() && s.subrange(0, p.len() as int) == p
}

/// Whether `s` begins with the characters of `p`.
pub fn starts_with(s: &str, p: &str) -> (r: bool)
    ensures
        r == has_prefix(s@, p@),
{
    let n = p.unicode_len();
    if n > s.unicode_len() {
        return false;
    }
    let mut i: usize = 0;
    while i < n
        invariant
            n == p@.len(),
            n <= s@.len(),
            i <= n,
            s@.subrange(0, i as int) == p@.subrange(0, i as int),
        decreases n - i,
    {
        if s.get_char(i) != p.get_char(i) {
            assert(s@.subrange(0, n as int)[i as int] != p@[i as int]);
            return false;
        }
        assert(s@.subrange(0, i + 1) =~= s@.subrange(0, i as int).push(s@[i as int]));
        assert(p@.subrange(0, i + 1) =~= p@.subrange(0, i as int).push(p@[i as int]));
        i = i + 1;
    }
    assert(p@ =~= p@.subrange(0, n as int));
    true
}

fn digit_str(d: u128) -> (r: &'static str)
    requires
        d < 10,
    ensures
        r@ == seq![digit_char(d as nat)],
{
    proof {
        reveal_strlit("0");
        reveal_strlit("1");
        reveal_strlit("2");
        reveal_strlit("3");
        reveal_strlit("4");
        reveal_strlit("5");
        reveal_strlit("6");
        reveal_strlit("7");
        reveal_strlit("8");
        reveal_strlit("9");
    }
    if d == 0 {
        assert("0"@ =~= seq!['0']);
        "0"
    } else if d == 1 {
        assert("1"@ =~= seq!['1']);
        "1"
    } else if d == 2 {
        assert("2"@ =~= seq!['2']);
        "2"
    } else if d == 3 {
        assert("3"@ =~= seq!['3']);
        "3"
    } else if d == 4 {
        assert("4"@ =~= seq!['4']);
        "4"
    } else if d == 5 {
        assert("5"@ =~= seq!['5']);
        "5"
    } else if d == 6 {
        assert("6"@ =~= seq!['6']);
        "6"
    } else if d == 7 {
        assert("7"@ =~= seq!['7']);
        "7"
    } else if d == 8 {
        assert("8"@ =~= seq!['8']);
        "8"
    } else {
        assert("9"@ =~= seq!['9']);
        "9"
    }
}

/// Renders `n` in decimal.
pub fn decimal(n: u128) -> (r: String)
    ensures
        r@ == dec(n as nat),
    decreases n,
{
    if n < 10 {
        String::from_str(digit_str(n))
    } else {
        let mut s = decimal(n / 10);
        s.append(digit_str(n % 10));
        s
    }
}

} // verus!
