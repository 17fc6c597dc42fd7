use vstd::prelude::*;

verus! {

/// The character of decimal digit `d`.
pub open spec fn digit_char(d: nat) -> char {
    if d == 0 {
        '0'
    } else if d == 1 {
        '1'
    } else if d == 2 {
        '2'
    } else if d == 3 {
        '3'
    } else if d == 4 {
        '4'
    } else if d == 5 {
        '5'
    } else if d == 6 {
        '6'
    } else if d == 7 {
        '7'
    } else if d == 8 {
        '8'
    } else {
        '9'
    }
}

/// The decimal digits of `n`, most significant first, without leading zeros.
pub open spec fn digits(n: nat) -> Seq<char>
    decreases n,
{
    if n < 10 {
        seq![digit_char(n)]
    } else {
        digits(n / 10).push(digit_char(n % 10))
    }
}

/// `s` with zeros in front, up to `width` characters.
pub open spec fn zero_pad(s: Seq<char>, width: nat) -> Seq<char> {
    if s.len() < width {
        Seq::new((width - s.len()) as nat, |i: int| '0') + s
    } else {
        s
    }
}

/// `n` in decimal, zero-padded to `width` characters; a minus sign counts
/// toward the width and stands before the zeros.
pub open spec fn padded(n: int, width: nat) -> Seq<char> {
    if n < 0 {
        seq!['-'] + zero_pad(digits((-n) as nat), if width > 0 { (width - 1) as nat } else { 0 })
    } else {
        zero_pad(digits(n as nat), width)
    }
}

/// `n` in decimal, with no padding.
pub open spec fn decimal(n: int) -> Seq<char> {
    padded(n, 0)
}

/// Ten to the power `k`.
pub open spec fn pow10(k: nat) -> nat
    decreases k,
{
    if k == 0 {
        1
    } else {
        10 * pow10((k - 1) as nat)
    }
}

proof fn lemma_digits_len(n: nat, k: nat)
    requires
        1 <= k,
        n < pow10(k),
    ensures
        1 <= digits(n).len() <= k,
    decreases n,
{
    reveal_with_fuel(pow10, 2);
    if n >= 10 {
        assert(k >= 2) by {
            if k == 1 {
                assert(pow10(1) == 10);
            }
        }
        let p = pow10((k - 1) as nat);
        assert(n / 10 < p) by (nonlinear_arith)
            requires
                n < 10 * p,
        ;
        lemma_digits_len(n / 10, (k - 1) as nat);
    }
}

proof fn lemma_u64_digits_len(n: u64)
    ensures
        1 <= digits(n as nat).len() <= 20,
{
    reveal_with_fuel(pow10, 21);
    assert(pow10(20) == 100_000_000_000_000_000_000nat);
    lemma_digits_len(n as nat, 20);
}

/// A number below one hundred, padded to two places, takes exactly two.
pub proof fn lemma_two_places(n: int)
    requires
        0 <= n < 100,
    ensures
        padded(n, 2).len() == 2,
{
    reveal_with_fuel(digits, 2);
}

fn digit_str(d: u64) -> (r: &'static str)
    requires
        d < 10,
    ensures
        r@ == seq![digit_char(d as nat)],
{
    proof {
        reveal_strlit("0");
        reveal_strlit("1");
        reveal_strlit("2");
        reveal_strlit("3");
        reveal_strlit("4");
        reveal_strlit("5");
        reveal_strlit("6");
        reveal_strlit("7");
        reveal_strlit("8");
        reveal_strlit("9");
    }
    match d {
        0 => "0",
        1 => "1",
        2 => "2",
        3 => "3",
        4 => "4",
        5 => "5",
        6 => "6",
        7 => "7",
        8 => "8",
        _ => "9",
    }
}

fn digit_count(n: u64) -> (r: usize)
    ensures
        r == digits(n as nat).len(),
    decreases n,
{
    if n < 10 {
        1
    } else {
        let k = digit_count(n / 10);
        proof {
            lemma_u64_digits_len(n / 10);
        }
        k + 1
    }
}

fn append_digits(s: &mut String, n: u64)
    ensures
        final(s)@ == old(s)@ + digits(n as nat),
    decreases n,
{
    if n >= 10 {
        append_digits(s, n / 10);
    }
    s.append(digit_str(n % 10));
    assert(final(s)@ =~= old(s)@ + digits(n as nat));
}

/// Appends `n` in decimal, zero-padded to `width` characters.
pub fn append_padded(s: &mut String, n: i64, width: usize)
    ensures
        final(s)@ == old(s)@ + padded(n as int, width as nat),
{
    proof {
        reveal_strlit("-");
        reveal_strlit("0");
    }
    let magnitude: u64 = if n < 0 { (0i128 - n as i128) as u64 } else { n as u64 };
    let mut fill: usize = width;
    if n < 0 {
        s.append("-");
        fill = if width > 0 { width - 1 } else { 0 };
    }
    let ghost start = s@;
    let len = digit_count(magnitude);
    let mut k: usize = len;
    while k < fill
        invariant
            len <= k,
            k <= fill || k == len,
            s@ =~= start + Seq::new((k - len) as nat, |i: int| '0'),
        decreases fill - k,
    {
        proof {
            reveal_strlit("0");
        }
        s.append("0");
        k = k + 1;
        assert(s@ =~= start + Seq::new((k - len) as nat, |i: int| '0'));
    }
    append_digits(s, magnitude);
    proof {
        let ds = digits(magnitude as nat);
        assert(zero_pad(ds, fill as nat) =~= Seq::new((k - len) as nat, |i: int| '0') + ds);
        if n < 0 {
            assert(start =~= old(s)@ + seq!['-']);
        }
        assert(final(s)@ =~= old(s)@ + padded(n as int, width as nat));
    }
}

} // verus!
