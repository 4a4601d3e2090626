use vstd::prelude::*;

verus! {

/// The decimal digit character for `d` (which is below ten).
pub open spec fn digit_char(d: nat) -> char {
    if d == 0 { '0' }
    else if d == 1 { '1' }
    else if d == 2 { '2' }
    else if d == 3 { '3' }
    else if d == 4 { '4' }
    else if d == 5 { '5' }
    else if d == 6 { '6' }
    else if d == 7 { '7' }
    else if d == 8 { '8' }
    else { '9' }
}

/// The last `width` decimal digits of `n`, zero-padded on the left.
pub open spec fn padded(n: nat, width: nat) -> Seq<char>
    decreases width,
{
    if width == 0 {
        Seq::empty()
    } else {
        padded(n / 10, (width - 1) as nat).push(digit_char(n % 10))
    }
}

fn digit_str(d: u32) -> (r: &'static str)
    requires
        d < 10,
    ensures
        r@ == seq![digit_char(d as nat)],
{
    proof {
        reveal_strlit("0");
        reveal_strlit("1");
        reveal_strlit("2");
        reveal_strlit("3");
        reveal_strlit("4");
        reveal_strlit("5");
        reveal_strlit("6");
        reveal_strlit("7");
        reveal_strlit("8");
        reveal_strlit("9");
    }
    if d == 0 { "0" }
    else if d == 1 { "1" }
    else if d == 2 { "2" }
    else if d == 3 { "3" }
    else if d == 4 { "4" }
    else if d == 5 { "5" }
    else if d == 6 { "6" }
    else if d == 7 { "7" }
    else if d == 8 { "8" }
    else { "9" }
}

/// Appends the last `width` decimal digits of `n`, zero-padded.
pub fn push_padded(s: &mut String, n: u32, width: usize)
    ensures
        final(s)@ == old(s)@ + padded(n as nat, width as nat),
    decreases width,
{
    if width > 0 {
        push_padded(s, n / 10, width - 1);
        s.append(digit_str(n % 10));
    }
}

pub open spec fn is_digit(c: char) -> bool {
    c == '0' || c == '1' || c == '2' || c == '3' || c == '4' || c == '5' || c == '6' || c == '7'
        || c == '8' || c == '9'
}

/// The value of a decimal digit character.
pub open spec fn digit_value(c: char) -> nat {
    if c == '1' { 1 }
    else if c == '2' { 2 }
    else if c == '3' { 3 }
    else if c == '4' { 4 }
    else if c == '5' { 5 }
    else if c == '6' { 6 }
    else if c == '7' { 7 }
    else if c == '8' { 8 }
    else if c == '9' { 9 }
    else { 0 }
}

pub open spec fn all_digits(s: Seq<char>) -> bool {
    forall|i: int| 0 <= i < s.len() ==> #[trigger] is_digit(s[i])
}

/// The number that a string of decimal digits spells.
pub open spec fn value_of(s: Seq<char>) -> nat
    decreases s.len(),
{
    if s.len() == 0 {
        0
    } else {
        value_of(s.drop_last()) * 10 + digit_value(s.last())
    }
}

pub open spec fn pow10(w: nat) -> nat
    decreases w,
{
    if w == 0 { 1 } else { 10 * pow10((w - 1) as nat) }
}

/// A number below `10^width`, written in `width` digits, reads back as itself.
pub proof fn lemma_padded_value(n: nat, width: nat)
    requires
        n < pow10(width),
    ensures
        padded(n, width).len() == width,
        all_digits(padded(n, width)),
        value_of(padded(n, width)) == n,
    decreases width,
{
    if width > 0 {
        let w1 = (width - 1) as nat;
        assert(n / 10 < pow10(w1)) by (nonlinear_arith)
            requires
                n < pow10(width),
                pow10(width) == 10 * pow10(w1),
        ;
        lemma_padded_value(n / 10, w1);
        let p = padded(n / 10, w1);
        let d = n % 10;
        assert(padded(n, width) == p.push(digit_char(d)));
        assert(padded(n, width).drop_last() =~= p);
        assert(is_digit(digit_char(d)) && digit_value(digit_char(d)) == d);
        assert forall|i: int| 0 <= i < padded(n, width).len() implies #[trigger] is_digit(
            padded(n, width)[i],
        ) by {
            if i < p.len() {
                assert(padded(n, width)[i] == p[i]);
            }
        }
        vstd::arithmetic::div_mod::lemma_fundamental_div_mod(n as int, 10);
    }
}

/// Reads `width` decimal digits of `s` from `start`, or `None` where one of
/// them is not a digit.
pub fn read_number(s: &str, start: usize, width: usize) -> (r: Option<u32>)
    requires
        start + width <= s@.len(),
        start + width <= usize::MAX,
        width <= 4,
    ensures
        match r {
            Some(v) => all_digits(s@.subrange(start as int, start + width))
                && v == value_of(s@.subrange(start as int, start + width)),
            None => !all_digits(s@.subrange(start as int, start + width)),
        },
{
    let mut v: u32 = 0;
    let mut i: usize = 0;
    while i < width
        invariant
            start + width <= s@.len(),
            start + width <= usize::MAX,
            width <= 4,
            i <= width,
            all_digits(s@.subrange(start as int, start + i)),
            v == value_of(s@.subrange(start as int, start + i)),
            v < pow10(i as nat),
        decreases width - i,
    {
        let c = s.get_char(start + i);
        let ghost sub = s@.subrange(start as int, start + i + 1);
        assert(sub.drop_last() =~= s@.subrange(start as int, start + i));
        if !(c == '0' || c == '1' || c == '2' || c == '3' || c == '4' || c == '5' || c == '6'
            || c == '7' || c == '8' || c == '9') {
            assert(!is_digit(sub[i as int]));
            assert(s@.subrange(start as int, start + width)[i as int] == sub[i as int]);
            return None;
        }
        let d: u32 = if c == '1' { 1 }
        else if c == '2' { 2 }
        else if c == '3' { 3 }
        else if c == '4' { 4 }
        else if c == '5' { 5 }
        else if c == '6' { 6 }
        else if c == '7' { 7 }
        else if c == '8' { 8 }
        else if c == '9' { 9 }
        else { 0 };
        assert(pow10(i as nat) <= 1000) by {
            reveal_with_fuel(pow10, 4);
        }
        assert(pow10((i + 1) as nat) == 10 * pow10(i as nat));
        v = v * 10 + d;
        assert forall|j: int| 0 <= j < sub.len() implies #[trigger] is_digit(sub[j]) by {
            if j < i {
                assert(sub[j] == s@.subrange(start as int, start + i)[j]);
            }
        }
        i = i + 1;
    }
    Some(v)
}

} // verus!
