//! Small verified text helpers: string comparison and decimal rendering,
//! used by the locale setting and the note-name builder.

use vstd::prelude::*;
use vstd::string::StrSliceExecFns;
use vstd::string::StringExecFns;

verus! {

/// Whether two strings hold the same characters.
pub fn str_eq(a: &str, b: &str) -> (r: bool)
    ensures
        r == (a@ == b@),
{
    let a_len: usize = a.unicode_len();
    let b_len: usize = b.unicode_len();
    if a_len != b_len {
        return false;
    }
    let mut i: usize = 0;
    while i < a_len
        invariant
            i <= a_len,
            a_len == a@.len(),
            a_len == b@.len(),
            forall|k: int| 0 <= k < i ==> a@[k] == b@[k],
        decreases a_len - i,
    {
        if a.get_char(i) != b.get_char(i) {
            return false;
        }
        i = i + 1;
    }
    proof {
        assert(a@ =~= b@);
    }
    true
}

/// The character for one decimal digit.
pub open spec fn digit_char(d: int) -> char {
    if d == 0 {
        '0'
    } else if d == 1 {
        '1'
    } else if d == 2 {
        '2'
    } else if d == 3 {
        '3'
    } else if d == 4 {
        '4'
    } else if d == 5 {
        '5'
    } else if d == 6 {
        '6'
    } else if d == 7 {
        '7'
    } else if d == 8 {
        '8'
    } else {
        '9'
    }
}

/// The decimal digits of a non-negative integer, most significant first.
pub open spec fn decimal_digits(n: int) -> Seq<char>
    recommends
        n >= 0,
    decreases n,
{
    if n < 10 {
        seq![digit_char(n)]
    } else {
        decimal_digits(n / 10).push(digit_char(n % 10))
    }
}

/// The decimal rendering of a possibly negative integer.
pub open spec fn decimal_of(n: int) -> Seq<char> {
    if n < 0 {
        seq!['-'] + decimal_digits(-n)
    } else {
        decimal_digits(n)
    }
}

/// One decimal digit as a string.
fn digit_str(d: u64) -> (s: &'static str)
    requires
        d < 10,
    ensures
        s@ == seq![digit_char(d as int)],
{
    proof {
        reveal_strlit("0");
        reveal_strlit("1");
        reveal_strlit("2");
        reveal_strlit("3");
        reveal_strlit("4");
        reveal_strlit("5");
        reveal_strlit("6");
        reveal_strlit("7");
        reveal_strlit("8");
        reveal_strlit("9");
    }
    let s: &'static str = if d == 0 {
        "0"
    } else if d == 1 {
        "1"
    } else if d == 2 {
        "2"
    } else if d == 3 {
        "3"
    } else if d == 4 {
        "4"
    } else if d == 5 {
        "5"
    } else if d == 6 {
        "6"
    } else if d == 7 {
        "7"
    } else if d == 8 {
        "8"
    } else {
        "9"
    };
    proof {
        assert(s@ =~= seq![digit_char(d as int)]);
    }
    s
}

/// Renders a non-negative integer in decimal.
pub fn u64_to_string(n: u64) -> (s: String)
    ensures
        s@ == decimal_digits(n as int),
{
    let mut digits: Vec<u64> = Vec::new();
    let mut m: u64 = n;
    proof {
        assert(digits_reversed(digits@) =~= Seq::<char>::empty());
        assert(decimal_digits(n as int) + digits_reversed(digits@) =~= decimal_digits(n as int));
    }
    loop
        invariant_except_break
            decimal_digits(n as int) == decimal_digits(m as int) + digits_reversed(digits@),
            m == 0 ==> digits@.len() == 0,
        invariant
            forall|k: int| 0 <= k < digits@.len() ==> 0 <= #[trigger] digits@[k] < 10,
        ensures
            decimal_digits(n as int) == digits_reversed(digits@),
            forall|k: int| 0 <= k < digits@.len() ==> 0 <= #[trigger] digits@[k] < 10,
            digits@.len() >= 1,
        decreases m,
    {
        let ghost before: Seq<u64> = digits@;
        let d: u64 = m % 10;
        digits.push(d);
        proof {
            assert(digits_reversed(digits@) =~= seq![digit_char(d as int)] + digits_reversed(
                before,
            ));
            if m >= 10 {
                assert(decimal_digits(m as int) == decimal_digits(m as int / 10).push(
                    digit_char(m as int % 10),
                ));
                assert(decimal_digits(m as int / 10) + digits_reversed(digits@)
                    =~= decimal_digits(m as int) + digits_reversed(before));
            } else {
                assert(decimal_digits(m as int) =~= seq![digit_char(m as int)]);
                assert(digits_reversed(digits@) =~= decimal_digits(m as int) + digits_reversed(
                    before,
                ));
            }
        }
        m = m / 10;
        if m == 0 {
            break ;
        }
    }
    let mut s = String::new();
    let mut k: usize = digits.len();
    while k > 0
        invariant
            k <= digits@.len(),
            forall|j: int| 0 <= j < digits@.len() ==> 0 <= #[trigger] digits@[j] < 10,
            s@ == digits_reversed(digits@).subrange(0, digits@.len() - k),
        decreases k,
    {
        k = k - 1;
        let d: u64 = digits[k];
        s.append(digit_str(d));
        proof {
            assert(s@ =~= digits_reversed(digits@).subrange(0, digits@.len() - k));
        }
    }
    proof {
        assert(s@ =~= digits_reversed(digits@));
    }
    s
}

/// The digits collected least-significant first, read back most
/// significant first.
pub open spec fn digits_reversed(ds: Seq<u64>) -> Seq<char> {
    Seq::new(ds.len(), |i: int| digit_char(ds[ds.len() - 1 - i] as int))
}

/// Renders a possibly negative integer in decimal.
pub fn i64_to_string(n: i64) -> (s: String)
    ensures
        s@ == decimal_of(n as int),
{
    if n >= 0 {
        u64_to_string(n as u64)
    } else {
        let magnitude: u64 = if n == i64::MIN {
            9_223_372_036_854_775_808u64
        } else {
            (-n) as u64
        };
        let mut s = String::from_str("-");
        proof {
            reveal_strlit("-");
            assert(s@ =~= seq!['-']);
        }
        s.append(u64_to_string(magnitude).as_str());
        proof {
            assert(s@ =~= decimal_of(n as int));
        }
        s
    }
}

} // verus!
