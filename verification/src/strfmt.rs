//! Decimal rendering of unsigned integers, used for the uptime and
//! thread-count strings that every response embeds.

use vstd::prelude::*;

verus! {

/// The digit character for a value below ten.
pub open spec fn char_of_digit(d: nat) -> char {
    if d == 0 {
        '0'
    } else if d == 1 {
        '1'
    } else if d == 2 {
        '2'
    } else if d == 3 {
        '3'
    } else if d == 4 {
        '4'
    } else if d == 5 {
        '5'
    } else if d == 6 {
        '6'
    } else if d == 7 {
        '7'
    } else if d == 8 {
        '8'
    } else {
        '9'
    }
}

/// The numeric value of a digit character; ten for any other character.
pub open spec fn digit_val(c: char) -> nat {
    if c == '0' {
        0
    } else if c == '1' {
        1
    } else if c == '2' {
        2
    } else if c == '3' {
        3
    } else if c == '4' {
        4
    } else if c == '5' {
        5
    } else if c == '6' {
        6
    } else if c == '7' {
        7
    } else if c == '8' {
        8
    } else if c == '9' {
        9
    } else {
        10
    }
}

/// The usual decimal rendering of `n`, most significant digit first,
/// with no leading zeros (except for `n == 0`, rendered as "0").
pub open spec fn dec_str(n: nat) -> Seq<char>
    decreases n,
{
    if n < 10 {
        seq![char_of_digit(n)]
    } else {
        dec_str(n / 10).push(char_of_digit(n % 10))
    }
}

/// The number a sequence of digit characters denotes.
pub open spec fn dec_val(s: Seq<char>) -> nat
    decreases s.len(),
{
    if s.len() == 0 {
        0
    } else {
        dec_val(s.drop_last()) * 10 + digit_val(s.last())
    }
}

/// Reading back a decimal rendering recovers the number: `dec_str` loses
/// nothing.
pub proof fn lemma_dec_val_of_dec_str(n: nat)
    ensures
        dec_val(dec_str(n)) == n,
    decreases n,
{
    if n < 10 {
        let s = dec_str(n);
        assert(s =~= seq![char_of_digit(n)]);
        assert(s.drop_last() =~= Seq::<char>::empty());
        assert(dec_val(s.drop_last()) == 0);
        assert(digit_val(char_of_digit(n)) == n);
    } else {
        lemma_dec_val_of_dec_str(n / 10);
        let s = dec_str(n);
        assert(s =~= dec_str(n / 10).push(char_of_digit(n % 10)));
        assert(s.drop_last() =~= dec_str(n / 10));
        assert(s.last() == char_of_digit(n % 10));
        assert(digit_val(char_of_digit(n % 10)) == n % 10);
        assert(dec_val(s) == (n / 10) * 10 + n % 10);
    }
}

/// The milliseconds below one second, rendered as exactly three digits,
/// zero-padded on the left.
pub open spec fn pad3_str(n: nat) -> Seq<char> {
    if n < 10 {
        seq!['0', '0'] + dec_str(n)
    } else if n < 100 {
        seq!['0'] + dec_str(n)
    } else {
        dec_str(n)
    }
}

/// An uptime of `ms` milliseconds rendered as whole seconds, a dot,
/// three fractional digits, and a trailing "s" (`1234` becomes "1.234s").
pub open spec fn uptime_str(ms: nat) -> Seq<char> {
    dec_str(ms / 1000) + seq!['.'] + pad3_str(ms % 1000) + seq!['s']
}

/// How long a decimal rendering is, for numbers below a thousand.
pub proof fn lemma_dec_str_len_small(n: nat)
    requires
        n < 1000,
    ensures
        n < 10 ==> dec_str(n).len() == 1,
        10 <= n < 100 ==> dec_str(n).len() == 2,
        100 <= n ==> dec_str(n).len() == 3,
{
    if n >= 10 {
        if n >= 100 {
            assert(dec_str(n / 10 / 10) =~= seq![char_of_digit(n / 10 / 10)]);
        }
        assert(dec_str(n / 10).len() == dec_str(n / 10 / 10).len() + 1 || n / 10 < 10);
    }
}

/// The padded form is always three characters long.
pub proof fn lemma_pad3_len(n: nat)
    requires
        n < 1000,
    ensures
        pad3_str(n).len() == 3,
{
    lemma_dec_str_len_small(n);
}

/// A leading zero does not change the number a digit string denotes.
pub proof fn lemma_dec_val_zero_prefix(s: Seq<char>)
    ensures
        dec_val(seq!['0'] + s) == dec_val(s),
    decreases s.len(),
{
    if s.len() == 0 {
        assert(seq!['0'] + s =~= seq!['0']);
        assert(seq!['0'].drop_last() =~= Seq::<char>::empty());
        assert(seq!['0'].last() == '0');
        assert(dec_val(Seq::<char>::empty()) == 0);
        assert(dec_val(seq!['0']) == dec_val(seq!['0'].drop_last()) * 10 + digit_val('0'));
    } else {
        lemma_dec_val_zero_prefix(s.drop_last());
        let t = seq!['0'] + s;
        assert(t.drop_last() =~= seq!['0'] + s.drop_last());
        assert(t.last() == s.last());
        assert(dec_val(t) == dec_val(t.drop_last()) * 10 + digit_val(t.last()));
        assert(dec_val(s) == dec_val(s.drop_last()) * 10 + digit_val(s.last()));
    }
}

/// Reading back the zero-padded form recovers the number.
pub proof fn lemma_pad3_val(n: nat)
    requires
        n < 1000,
    ensures
        dec_val(pad3_str(n)) == n,
{
    lemma_dec_val_of_dec_str(n);
    if n < 10 {
        lemma_dec_val_zero_prefix(dec_str(n));
        lemma_dec_val_zero_prefix(seq!['0'] + dec_str(n));
        assert(seq!['0', '0'] + dec_str(n) =~= seq!['0'] + (seq!['0'] + dec_str(n)));
    } else if n < 100 {
        lemma_dec_val_zero_prefix(dec_str(n));
    }
}

/// Distinct uptimes render to distinct strings: the uptime field of a
/// response determines the elapsed milliseconds exactly, so a sequence of
/// responses shows non-decreasing uptime strings precisely when the
/// underlying elapsed times are non-decreasing.
pub proof fn lemma_uptime_str_injective(a: nat, b: nat)
    requires
        uptime_str(a) == uptime_str(b),
    ensures
        a == b,
{
    let la = dec_str(a / 1000).len() as int;
    let lb = dec_str(b / 1000).len() as int;
    lemma_pad3_len(a % 1000);
    lemma_pad3_len(b % 1000);
    assert(uptime_str(a).len() == la + 5);
    assert(uptime_str(b).len() == lb + 5);
    assert(la == lb);
    assert(uptime_str(a).take(la) =~= dec_str(a / 1000));
    assert(uptime_str(b).take(lb) =~= dec_str(b / 1000));
    lemma_dec_val_of_dec_str(a / 1000);
    lemma_dec_val_of_dec_str(b / 1000);
    assert(a / 1000 == b / 1000);
    assert(uptime_str(a).subrange(la + 1, la + 4) =~= pad3_str(a % 1000));
    assert(uptime_str(b).subrange(lb + 1, lb + 4) =~= pad3_str(b % 1000));
    lemma_pad3_val(a % 1000);
    lemma_pad3_val(b % 1000);
    assert(a % 1000 == b % 1000);
    assert(a == 1000 * (a / 1000) + a % 1000);
    assert(b == 1000 * (b / 1000) + b % 1000);
}

/// A single digit as a string slice.
fn digit_str(d: u64) -> (r: &'static str)
    requires
        d < 10,
    ensures
        r@ =~= seq![char_of_digit(d as nat)],
{
    proof {
        reveal_strlit("0");
        reveal_strlit("1");
        reveal_strlit("2");
        reveal_strlit("3");
        reveal_strlit("4");
        reveal_strlit("5");
        reveal_strlit("6");
        reveal_strlit("7");
        reveal_strlit("8");
        reveal_strlit("9");
    }
    if d == 0 {
        "0"
    } else if d == 1 {
        "1"
    } else if d == 2 {
        "2"
    } else if d == 3 {
        "3"
    } else if d == 4 {
        "4"
    } else if d == 5 {
        "5"
    } else if d == 6 {
        "6"
    } else if d == 7 {
        "7"
    } else if d == 8 {
        "8"
    } else {
        "9"
    }
}

/// The decimal rendering of `n` as an owned string.
pub fn u64_to_dec(n: u64) -> (r: String)
    ensures
        r@ == dec_str(n as nat),
    decreases n,
{
    if n < 10 {
        let d = digit_str(n);
        d.to_owned()
    } else {
        let mut s = u64_to_dec(n / 10);
        s.append(digit_str(n % 10));
        proof {
            assert(s@ =~= dec_str((n / 10) as nat).push(char_of_digit((n % 10) as nat)));
        }
        s
    }
}

/// The milliseconds below one second as an owned, three-digit string.
fn pad3(n: u64) -> (r: String)
    requires
        n < 1000,
    ensures
        r@ == pad3_str(n as nat),
{
    proof {
        reveal_strlit("0");
        reveal_strlit("00");
    }
    if n < 10 {
        let mut s = "00".to_owned();
        s.append(digit_str(n));
        proof {
            assert(s@ =~= seq!['0', '0'] + dec_str(n as nat));
        }
        s
    } else if n < 100 {
        let mut s = "0".to_owned();
        let d = u64_to_dec(n);
        s.append(d.as_str());
        proof {
            assert(s@ =~= seq!['0'] + dec_str(n as nat));
        }
        s
    } else {
        u64_to_dec(n)
    }
}

/// An uptime of `ms` milliseconds in the form the responses carry:
/// seconds with three decimal places and an "s" suffix.
pub fn format_uptime(ms: u64) -> (r: String)
    ensures
        r@ == uptime_str(ms as nat),
{
    proof {
        reveal_strlit(".");
        reveal_strlit("s");
    }
    let mut s = u64_to_dec(ms / 1000);
    s.append(".");
    let frac = pad3(ms % 1000);
    s.append(frac.as_str());
    s.append("s");
    proof {
        assert(s@ =~= uptime_str(ms as nat));
    }
    s
}

} // verus!
