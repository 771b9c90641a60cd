use vstd::prelude::*;
use vstd::string::StringExecFns;

verus! {

/// The character of one decimal digit.
pub open spec fn digit_char(d: int) -> char {
    if d == 0 {
        '0'
    } else if d == 1 {
        '1'
    } else if d == 2 {
        '2'
    } else if d == 3 {
        '3'
    } else if d == 4 {
        '4'
    } else if d == 5 {
        '5'
    } else if d == 6 {
        '6'
    } else if d == 7 {
        '7'
    } else if d == 8 {
        '8'
    } else {
        '9'
    }
}

/// The decimal digits of a non-negative number, most significant first,
/// with no leading zeros (zero itself is the single digit 0).
pub open spec fn dec_digits(n: nat) -> Seq<char>
    decreases n,
{
    if n < 10 {
        seq![digit_char(n as int)]
    } else {
        dec_digits(n / 10).push(digit_char((n % 10) as int))
    }
}

/// The decimal text of an i64, with a leading minus sign when negative.
pub open spec fn dec_text(n: int) -> Seq<char> {
    if n < 0 {
        seq!['-'] + dec_digits((-n) as nat)
    } else {
        dec_digits(n as nat)
    }
}

/// The one-character text of one decimal digit.
fn digit_str(d: u64) -> (r: &'static str)
    requires
        d < 10,
    ensures
        r@ == seq![digit_char(d as int)],
{
    proof {
        reveal_strlit("0");
        reveal_strlit("1");
        reveal_strlit("2");
        reveal_strlit("3");
        reveal_strlit("4");
        reveal_strlit("5");
        reveal_strlit("6");
        reveal_strlit("7");
        reveal_strlit("8");
        reveal_strlit("9");
    }
    match d {
        0 => "0",
        1 => "1",
        2 => "2",
        3 => "3",
        4 => "4",
        5 => "5",
        6 => "6",
        7 => "7",
        8 => "8",
        _ => "9",
    }
}

/// Renders a number in decimal, exactly as its digits say.
pub fn u64_to_dec(n: u64) -> (r: String)
    ensures
        r@ == dec_digits(n as nat),
{
    let mut digits: Vec<u64> = Vec::new();
    let mut m = n;
    loop
        invariant_except_break
            digits@.len() == 0 ==> m == n,
            digits@.len() >= 1 ==> m >= 1 && dec_digits(n as nat) == dec_digits(m as nat)
                + digits@.map_values(|d: u64| digit_char(d as int)).reverse(),
        invariant
            forall|j: int| 0 <= j < digits@.len() ==> digits@[j] < 10,
        ensures
            digits@.len() >= 1,
            dec_digits(n as nat) == digits@.map_values(|d: u64| digit_char(d as int)).reverse(),
        decreases m, (if digits@.len() == 0 {
            1int
        } else {
            0int
        }),
    {
        let ghost m0 = m;
        let ghost prev = digits@.map_values(|d: u64| digit_char(d as int));
        digits.push(m % 10);
        m = m / 10;
        proof {
            let dig = digit_char((m0 % 10) as int);
            let cur = digits@.map_values(|d: u64| digit_char(d as int));
            assert(cur =~= prev.push(dig));
            assert(cur.reverse() =~= seq![dig] + prev.reverse());
            if m0 < 10 {
                assert(dec_digits(m0 as nat) == seq![dig]);
            } else {
                assert(dec_digits(m0 as nat) == dec_digits(m as nat).push(dig));
                assert(dec_digits(m0 as nat) =~= dec_digits(m as nat) + seq![dig]);
            }
            if prev.len() == 0 {
                assert(dec_digits(n as nat) == dec_digits(m0 as nat));
                assert(dec_digits(n as nat) =~= dec_digits(m0 as nat) + prev.reverse());
            }
            if m == 0 {
                assert(dec_digits(n as nat) =~= cur.reverse());
            } else {
                assert(dec_digits(n as nat) =~= dec_digits(m as nat) + cur.reverse());
            }
        }
        if m == 0 {
            break ;
        }
    }
    let ghost rendered = digits@.map_values(|d: u64| digit_char(d as int));
    let ghost goal = dec_digits(n as nat);
    let mut out = String::new();
    let mut i: usize = digits.len();
    proof {
        assert(goal =~= rendered.reverse());
        assert(goal.take(0) =~= Seq::<char>::empty());
    }
    while i > 0
        invariant
            i <= digits@.len(),
            forall|j: int| 0 <= j < digits@.len() ==> digits@[j] < 10,
            rendered == digits@.map_values(|d: u64| digit_char(d as int)),
            goal == rendered.reverse(),
            goal.len() == digits@.len(),
            out@ == goal.take(digits@.len() - i),
        decreases i,
    {
        i = i - 1;
        out.append(digit_str(digits[i]));
        proof {
            assert(rendered.reverse()[digits@.len() - 1 - i] == rendered[i as int]);
            assert(goal.take(digits@.len() - i) =~= goal.take(digits@.len() - i - 1).push(
                goal[digits@.len() - 1 - i],
            ));
        }
    }
    proof {
        assert(goal.take(digits@.len() as int) =~= goal);
    }
    out
}

/// Renders a signed number in decimal.
pub fn i64_to_dec(n: i64) -> (r: String)
    ensures
        r@ == dec_text(n as int),
{
    if n >= 0 {
        u64_to_dec(n as u64)
    } else {
        let mag: u64 = if n == i64::MIN {
            9223372036854775808u64
        } else {
            (-n) as u64
        };
        let mut out = String::from_str("-");
        out.append(u64_to_dec(mag).as_str());
        proof {
            reveal_strlit("-");
            assert(out@ =~= dec_text(n as int));
        }
        out
    }
}

} // verus!
