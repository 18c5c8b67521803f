use vstd::prelude::*;

verus! {

/// The character for one decimal digit.
pub open spec fn digit_char(d: int) -> char {
    if d == 0 {
        '0'
    } else if d == 1 {
        '1'
    } else if d == 2 {
        '2'
    } else if d == 3 {
        '3'
    } else if d == 4 {
        '4'
    } else if d == 5 {
        '5'
    } else if d == 6 {
        '6'
    } else if d == 7 {
        '7'
    } else if d == 8 {
        '8'
    } else {
        '9'
    }
}

/// The usual decimal writing of a non-negative integer: no sign, no
/// leading zeros, and `0` written as one digit.
pub open spec fn dec_str(n: int) -> Seq<char>
    recommends
        0 <= n,
    decreases n,
{
    if n < 10 {
        seq![digit_char(n)]
    } else {
        dec_str(n / 10).push(digit_char(n % 10))
    }
}

/// Digits collected least-significant first, read back most-significant
/// first.
spec fn rev_digit_chars(ds: Seq<u64>) -> Seq<char> {
    Seq::new(ds.len(), |i: int| digit_char(ds[ds.len() - 1 - i] as int))
}

fn digit_str(d: u64) -> (r: &'static str)
    requires
        d < 10,
    ensures
        r@ =~= seq![digit_char(d as int)],
{
    proof {
        reveal_strlit("0");
        reveal_strlit("1");
        reveal_strlit("2");
        reveal_strlit("3");
        reveal_strlit("4");
        reveal_strlit("5");
        reveal_strlit("6");
        reveal_strlit("7");
        reveal_strlit("8");
        reveal_strlit("9");
    }
    match d {
        0 => "0",
        1 => "1",
        2 => "2",
        3 => "3",
        4 => "4",
        5 => "5",
        6 => "6",
        7 => "7",
        8 => "8",
        _ => "9",
    }
}

/// Writes `n` in decimal.
pub fn u64_to_string(n: u64) -> (r: String)
    ensures
        r@ == dec_str(n as int),
{
    let mut digits: Vec<u64> = Vec::new();
    digits.push(n % 10);
    let mut m: u64 = n / 10;
    proof {
        assert(rev_digit_chars(digits@) =~= seq![digit_char(n as int % 10)]);
        assert(dec_str(n as int) =~= (if m > 0 {
            dec_str(m as int)
        } else {
            Seq::<char>::empty()
        }) + rev_digit_chars(digits@));
    }
    while m > 0
        invariant
            dec_str(n as int) =~= (if m > 0 {
                dec_str(m as int)
            } else {
                Seq::<char>::empty()
            }) + rev_digit_chars(digits@),
            forall|k: int| 0 <= k < digits@.len() ==> digits@[k] < 10,
        decreases m,
    {
        let d: u64 = m % 10;
        let ghost pre = digits@;
        digits.push(d);
        let ghost old_m = m;
        m = m / 10;
        proof {
            assert(rev_digit_chars(pre.push(d)) =~= seq![digit_char(d as int)]
                + rev_digit_chars(pre));
            if old_m >= 10 {
                assert(dec_str(old_m as int) =~= dec_str(m as int) + seq![
                    digit_char(d as int),
                ]);
            } else {
                assert(dec_str(old_m as int) =~= seq![digit_char(d as int)]);
            }
            assert(dec_str(n as int) =~= (if m > 0 {
                dec_str(m as int)
            } else {
                Seq::<char>::empty()
            }) + rev_digit_chars(digits@));
        }
    }
    let mut s = String::new();
    let total = digits.len();
    let mut i: usize = total;
    while i > 0
        invariant
            total == digits@.len(),
            i <= total,
            s@ =~= rev_digit_chars(digits@).take(total - i),
            forall|k: int| 0 <= k < digits@.len() ==> digits@[k] < 10,
        decreases i,
    {
        i -= 1;
        let d = digits[i];
        s.append(digit_str(d));
        proof {
            assert(s@ =~= rev_digit_chars(digits@).take(total - i));
        }
    }
    proof {
        assert(s@ =~= rev_digit_chars(digits@));
        assert(dec_str(n as int) =~= rev_digit_chars(digits@));
    }
    s
}

} // verus!
