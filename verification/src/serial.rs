//! Serials: the place of a record in the list as the server numbers it,
//! written in decimal digits, zeros in front allowed.

use vstd::prelude::*;
use vstd::string::StrSliceExecFns;

verus! {

/// The decimal digit for a number below ten.
pub open spec fn digit(d: nat) -> char {
    if d == 0 {
        '0'
    } else if d == 1 {
        '1'
    } else if d == 2 {
        '2'
    } else if d == 3 {
        '3'
    } else if d == 4 {
        '4'
    } else if d == 5 {
        '5'
    } else if d == 6 {
        '6'
    } else if d == 7 {
        '7'
    } else if d == 8 {
        '8'
    } else {
        '9'
    }
}

/// The number that a decimal digit stands for; zero for any other character.
pub open spec fn digit_value(c: char) -> nat {
    if c == '1' {
        1
    } else if c == '2' {
        2
    } else if c == '3' {
        3
    } else if c == '4' {
        4
    } else if c == '5' {
        5
    } else if c == '6' {
        6
    } else if c == '7' {
        7
    } else if c == '8' {
        8
    } else if c == '9' {
        9
    } else {
        0
    }
}

/// A number in decimal digits, without zeros in front.
pub open spec fn decimal(n: nat) -> Seq<char>
    decreases n,
{
    if n < 10 {
        seq![digit(n)]
    } else {
        decimal(n / 10).push(digit(n % 10))
    }
}

/// The number that a run of decimal digits stands for.
pub open spec fn value(digits: Seq<char>) -> nat
    decreases digits.len(),
{
    if digits.len() == 0 {
        0
    } else {
        value(digits.drop_last()) * 10 + digit_value(digits.last())
    }
}

/// A text without the zeros in front of it.
pub open spec fn significant(s: Seq<char>) -> Seq<char>
    decreases s.len(),
{
    if s.len() > 0 && s[0] == '0' {
        significant(s.drop_first())
    } else {
        s
    }
}

/// The serial `s` stands for the place `n`, counted from one: it is `n` in
/// decimal digits, with any number of zeros in front.
pub open spec fn denotes(s: Seq<char>, n: nat) -> bool {
    n >= 1 && significant(s) == decimal(n)
}

/// The digits of a number stand for that number.
pub proof fn lemma_value_of_decimal(n: nat)
    ensures
        value(decimal(n)) == n,
    decreases n,
{
    if n < 10 {
        assert(decimal(n).drop_last() =~= Seq::<char>::empty());
        assert(value(decimal(n).drop_last()) == 0);
    } else {
        lemma_value_of_decimal(n / 10);
        assert(decimal(n).drop_last() =~= decimal(n / 10));
    }
}

/// One serial stands for one place at most.
pub proof fn law_serial_names_one_place(s: Seq<char>, a: nat, b: nat)
    requires
        denotes(s, a),
        denotes(s, b),
    ensures
        a == b,
{
    lemma_value_of_decimal(a);
    lemma_value_of_decimal(b);
}

/// The decimal digit for a number below ten.
fn digit_for(d: usize) -> (c: char)
    requires
        d < 10,
    ensures
        c == digit(d as nat),
{
    if d == 0 {
        '0'
    } else if d == 1 {
        '1'
    } else if d == 2 {
        '2'
    } else if d == 3 {
        '3'
    } else if d == 4 {
        '4'
    } else if d == 5 {
        '5'
    } else if d == 6 {
        '6'
    } else if d == 7 {
        '7'
    } else if d == 8 {
        '8'
    } else {
        '9'
    }
}

/// Writes a number in decimal digits.
pub fn to_decimal(n: usize) -> (digits: Vec<char>)
    ensures
        digits@ == decimal(n as nat),
    decreases n,
{
    if n < 10 {
        let mut digits: Vec<char> = Vec::new();
        digits.push(digit_for(n));
        assert(digits@ =~= seq![digit(n as nat)]);
        digits
    } else {
        let mut digits = to_decimal(n / 10);
        digits.push(digit_for(n % 10));
        digits
    }
}

/// Whether the serial `s` stands for the place `n`, counted from one.
pub fn stands_for(s: &str, n: usize) -> (yes: bool)
    ensures
        yes == denotes(s@, n as nat),
{
    if n == 0 {
        return false;
    }
    let len = s.unicode_len();
    let mut from: usize = 0;
    assert(s@.skip(0) =~= s@);
    while from < len && s.get_char(from) == '0'
        invariant
            from <= len == s@.len(),
            significant(s@) == significant(s@.skip(from as int)),
        decreases len - from,
    {
        assert(s@.skip(from as int)[0] == s@[from as int]);
        assert(s@.skip(from as int).drop_first() =~= s@.skip(from + 1));
        from += 1;
    }
    let ghost rest = s@.skip(from as int);
    assert(significant(rest) == rest) by {
        if rest.len() > 0 {
            assert(rest[0] == s@[from as int]);
        }
    }
    let digits = to_decimal(n);
    if len - from != digits.len() {
        return false;
    }
    let mut i: usize = 0;
    while i < digits.len()
        invariant
            i <= digits.len(),
            from <= len == s@.len(),
            len - from == digits.len(),
            rest == s@.skip(from as int),
            significant(s@) == rest,
            digits@ == decimal(n as nat),
            n >= 1,
            forall|k: int| 0 <= k < i ==> rest[k] == digits@[k],
        decreases digits.len() - i,
    {
        assert(rest[i as int] == s@[from + i]);
        if s.get_char(from + i) != digits[i] {
            return false;
        }
        i += 1;
    }
    assert(rest =~= digits@);
    true
}

} // verus!
