//! ASCII case folding and comparison of short vocabulary words.

use vstd::prelude::*;
use vstd::string::*;

verus! {

/// The upper-case form of an ASCII letter; every other character is itself.
pub open spec fn upper(c: char) -> char {
    if 'a' <= c && c <= 'z' {
        ((c as u32) - 32) as char
    } else {
        c
    }
}

/// A whole text with each character folded by [`upper`].
pub open spec fn upper_seq(s: Seq<char>) -> Seq<char> {
    s.map_values(|c: char| upper(c))
}

/// Folds one character to upper case.
pub fn to_upper(c: char) -> (r: char)
    ensures
        r == upper(c),
{
    if 'a' <= c && c <= 'z' {
        let code: u8 = c as u8;
        let folded: u8 = code - 32;
        folded as char
    } else {
        c
    }
}

/// Whether `s`, folded to upper case, reads exactly as `word`.
pub fn matches_upper(s: &str, word: &str) -> (r: bool)
    ensures
        r == (upper_seq(s@) == word@),
{
    let n: usize = word.unicode_len();
    if s.unicode_len() != n {
        assert(upper_seq(s@).len() != word@.len());
        return false;
    }
    let mut i: usize = 0;
    while i < n
        invariant
            i <= n,
            n == word@.len(),
            n == s@.len(),
            forall|j: int| 0 <= j < i ==> upper(#[trigger] s@[j]) == word@[j],
        decreases n - i,
    {
        if to_upper(s.get_char(i)) != word.get_char(i) {
            assert(upper_seq(s@)[i as int] != word@[i as int]);
            return false;
        }
        i = i + 1;
    }
    assert(upper_seq(s@) =~= word@);
    true
}

/// The character for a decimal digit.
pub open spec fn digit(d: int) -> char {
    if d == 0 {
        '0'
    } else if d == 1 {
        '1'
    } else if d == 2 {
        '2'
    } else if d == 3 {
        '3'
    } else if d == 4 {
        '4'
    } else if d == 5 {
        '5'
    } else if d == 6 {
        '6'
    } else if d == 7 {
        '7'
    } else if d == 8 {
        '8'
    } else {
        '9'
    }
}

/// A natural number in decimal, without leading zeros.
pub open spec fn nat_text(n: nat) -> Seq<char>
    decreases n,
{
    if n < 10 {
        seq![digit(n as int)]
    } else {
        nat_text(n / 10).push(digit((n % 10) as int))
    }
}

/// An integer in decimal, with a minus sign where it is negative.
pub open spec fn int_text(n: int) -> Seq<char> {
    if n < 0 {
        seq!['-'] + nat_text((-n) as nat)
    } else {
        nat_text(n as nat)
    }
}

/// The one-character text of a decimal digit.
fn digit_str(d: u64) -> (r: &'static str)
    requires
        d < 10,
    ensures
        r@ == seq![digit(d as int)],
{
    proof {
        reveal_strlit("0");
        reveal_strlit("1");
        reveal_strlit("2");
        reveal_strlit("3");
        reveal_strlit("4");
        reveal_strlit("5");
        reveal_strlit("6");
        reveal_strlit("7");
        reveal_strlit("8");
        reveal_strlit("9");
    }
    let r = if d == 0 {
        "0"
    } else if d == 1 {
        "1"
    } else if d == 2 {
        "2"
    } else if d == 3 {
        "3"
    } else if d == 4 {
        "4"
    } else if d == 5 {
        "5"
    } else if d == 6 {
        "6"
    } else if d == 7 {
        "7"
    } else if d == 8 {
        "8"
    } else {
        "9"
    };
    assert(r@ =~= seq![digit(d as int)]);
    r
}

/// Appends a natural number in decimal to `out`.
fn push_nat(out: String, n: u64) -> (r: String)
    ensures
        r@ == out@ + nat_text(n as nat),
    decreases n,
{
    if n < 10 {
        let r = out.concat(digit_str(n));
        r
    } else {
        let front = push_nat(out, n / 10);
        let r = front.concat(digit_str(n % 10));
        assert(r@ =~= out@ + nat_text(n as nat));
        r
    }
}

/// Writes an integer in decimal.
pub fn decimal(n: i64) -> (r: String)
    ensures
        r@ == int_text(n as int),
{
    if n < 0 {
        proof {
            reveal_strlit("-");
        }
        let magnitude: u64 = if n == i64::MIN {
            9223372036854775808u64
        } else {
            (-n) as u64
        };
        let r = push_nat(String::from_str("-"), magnitude);
        assert("-"@ =~= seq!['-']);
        r
    } else {
        let r = push_nat(String::new(), n as u64);
        assert(r@ =~= nat_text(n as nat));
        r
    }
}

} // verus!
