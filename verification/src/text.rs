//! Small verified helpers on strings: equality and decimal rendering.
use vstd::prelude::*;
use vstd::string::StrSliceExecFns;
use vstd::string::StringExecFns;

verus! {

/// Character-wise equality of two string slices, decided in executable code.
pub fn str_eq(a: &str, b: &str) -> (r: bool)
    ensures
        r == (a@ == b@),
{
    let alen = a.unicode_len();
    let blen = b.unicode_len();
    if alen != blen {
        return false;
    }
    let mut i: usize = 0;
    while i < alen
        invariant
            alen == a@.len(),
            blen == b@.len(),
            alen == blen,
            i <= alen,
            forall|j: int| 0 <= j < i ==> a@[j] == b@[j],
        decreases alen - i,
    {
        if a.get_char(i) != b.get_char(i) {
            return false;
        }
        i += 1;
    }
    proof {
        assert(a@ =~= b@);
    }
    true
}

/// The decimal digit for a value below ten.
pub open spec fn spec_digit(d: int) -> char
    recommends
        0 <= d < 10,
{
    if d == 0 { '0' }
    else if d == 1 { '1' }
    else if d == 2 { '2' }
    else if d == 3 { '3' }
    else if d == 4 { '4' }
    else if d == 5 { '5' }
    else if d == 6 { '6' }
    else if d == 7 { '7' }
    else if d == 8 { '8' }
    else if d == 9 { '9' }
    else { '?' }
}

/// The decimal rendering of a non-negative number, most significant digit
/// first; zero renders as the empty sequence.
pub open spec fn spec_dec(n: int) -> Seq<char>
    recommends
        n >= 0,
    decreases n,
{
    if n <= 0 {
        Seq::empty()
    } else {
        spec_dec(n / 10).push(spec_digit(n % 10))
    }
}

/// The decimal rendering used in URLs: `"0"` for zero, no leading zeros
/// otherwise.
pub open spec fn spec_u64_dec(n: u64) -> Seq<char> {
    if n == 0 {
        seq!['0']
    } else {
        spec_dec(n as int)
    }
}

fn digit_str(d: u64) -> (c: &'static str)
    requires
        d < 10,
    ensures
        c@ == seq![spec_digit(d as int)],
{
    proof {
        reveal_strlit("0");
        reveal_strlit("1");
        reveal_strlit("2");
        reveal_strlit("3");
        reveal_strlit("4");
        reveal_strlit("5");
        reveal_strlit("6");
        reveal_strlit("7");
        reveal_strlit("8");
        reveal_strlit("9");
    }
    let c = if d == 0 { "0" }
    else if d == 1 { "1" }
    else if d == 2 { "2" }
    else if d == 3 { "3" }
    else if d == 4 { "4" }
    else if d == 5 { "5" }
    else if d == 6 { "6" }
    else if d == 7 { "7" }
    else if d == 8 { "8" }
    else { "9" };
    proof {
        assert(c@ =~= seq![spec_digit(d as int)]);
    }
    c
}

fn push_dec(s: &mut String, m: u64)
    ensures
        final(s)@ == old(s)@ + spec_dec(m as int),
    decreases m,
{
    if m == 0 {
        proof {
            assert(old(s)@ + spec_dec(0) =~= old(s)@);
        }
        return;
    }
    let d = m % 10;
    push_dec(s, m / 10);
    s.append(digit_str(d));
    proof {
        assert(old(s)@ + spec_dec(m as int)
            =~= (old(s)@ + spec_dec(m as int / 10)) + seq![spec_digit(m as int % 10)]);
    }
}

/// Render a `u64` in decimal.
pub fn u64_dec(n: u64) -> (r: String)
    ensures
        r@ == spec_u64_dec(n),
{
    let mut s = String::new();
    if n == 0 {
        s.append("0");
        proof {
            reveal_strlit("0");
            assert(s@ =~= seq!['0']);
        }
    } else {
        push_dec(&mut s, n);
        proof {
            assert(s@ =~= spec_dec(n as int));
        }
    }
    s
}

} // verus!
