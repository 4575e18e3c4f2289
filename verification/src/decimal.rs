//! Decimal rendering of the integers that go into query parameters: the
//! pagination offset, and the zero-padded year/month of a volume query.

use vstd::prelude::*;

verus! {

/// The character for one decimal digit.
pub open spec fn dec_digit(d: nat) -> char {
    if d == 0 {
        '0'
    } else if d == 1 {
        '1'
    } else if d == 2 {
        '2'
    } else if d == 3 {
        '3'
    } else if d == 4 {
        '4'
    } else if d == 5 {
        '5'
    } else if d == 6 {
        '6'
    } else if d == 7 {
        '7'
    } else if d == 8 {
        '8'
    } else {
        '9'
    }
}

/// The usual decimal rendering of `n`: no sign, no leading zero except for
/// `n == 0` itself.
pub open spec fn dec_str(n: nat) -> Seq<char>
    decreases n,
{
    if n < 10 {
        seq![dec_digit(n)]
    } else {
        dec_str(n / 10).push(dec_digit(n % 10))
    }
}

/// The digits collected least-significant first, read back as characters
/// from the most significant end.
spec fn digits_rev(s: Seq<u8>) -> Seq<char>
    decreases s.len(),
{
    if s.len() == 0 {
        Seq::empty()
    } else {
        seq![dec_digit(s.last() as nat)] + digits_rev(s.drop_last())
    }
}

/// One digit as a string slice.
pub(crate) fn digit_str(d: u8) -> (r: &'static str)
    requires
        d < 10,
    ensures
        r@ == seq![dec_digit(d as nat)],
{
    if d == 0 {
        proof {
            reveal_strlit("0");
            assert("0"@ =~= seq![dec_digit(d as nat)]);
        }
        "0"
    } else if d == 1 {
        proof {
            reveal_strlit("1");
            assert("1"@ =~= seq![dec_digit(d as nat)]);
        }
        "1"
    } else if d == 2 {
        proof {
            reveal_strlit("2");
            assert("2"@ =~= seq![dec_digit(d as nat)]);
        }
        "2"
    } else if d == 3 {
        proof {
            reveal_strlit("3");
            assert("3"@ =~= seq![dec_digit(d as nat)]);
        }
        "3"
    } else if d == 4 {
        proof {
            reveal_strlit("4");
            assert("4"@ =~= seq![dec_digit(d as nat)]);
        }
        "4"
    } else if d == 5 {
        proof {
            reveal_strlit("5");
            assert("5"@ =~= seq![dec_digit(d as nat)]);
        }
        "5"
    } else if d == 6 {
        proof {
            reveal_strlit("6");
            assert("6"@ =~= seq![dec_digit(d as nat)]);
        }
        "6"
    } else if d == 7 {
        proof {
            reveal_strlit("7");
            assert("7"@ =~= seq![dec_digit(d as nat)]);
        }
        "7"
    } else if d == 8 {
        proof {
            reveal_strlit("8");
            assert("8"@ =~= seq![dec_digit(d as nat)]);
        }
        "8"
    } else {
        proof {
            reveal_strlit("9");
            assert("9"@ =~= seq![dec_digit(d as nat)]);
        }
        "9"
    }
}

/// Renders `n` in decimal.
pub fn format_u32(n: u32) -> (s: String)
    ensures
        s@ == dec_str(n as nat),
{
    let mut digits: Vec<u8> = Vec::new();
    let mut m: u32 = n;
    digits.push((m % 10) as u8);
    m = m / 10;
    proof {
        assert(digits@.drop_last() =~= Seq::<u8>::empty());
        assert(digits_rev(Seq::<u8>::empty()) =~= Seq::<char>::empty());
        if m == 0 {
            assert(digits_rev(digits@) =~= seq![dec_digit(digits@.last() as nat)]
                + Seq::<char>::empty());
            assert(dec_str(n as nat) =~= digits_rev(digits@));
        } else {
            assert(dec_str(m as nat) + seq![dec_digit((n as nat) % 10)] =~= dec_str(n as nat));
            assert(seq![dec_digit(digits@.last() as nat)] + Seq::<char>::empty() =~= digits_rev(
                digits@,
            ));
            assert(dec_str(n as nat) =~= dec_str(m as nat) + digits_rev(digits@));
        }
    }
    while m > 0
        invariant
            digits@.len() >= 1,
            forall|k: int| 0 <= k < digits@.len() ==> digits@[k] < 10,
            m == 0 ==> dec_str(n as nat) == digits_rev(digits@),
            m > 0 ==> dec_str(n as nat) == dec_str(m as nat) + digits_rev(digits@),
        decreases m,
    {
        let d: u8 = (m % 10) as u8;
        let ghost prev = digits@;
        digits.push(d);
        let m_next = m / 10;
        proof {
            assert(digits@.drop_last() =~= prev);
            assert(digits_rev(digits@) =~= seq![dec_digit(d as nat)] + digits_rev(prev));
            if m_next == 0 {
                // m itself is the most significant digit
                assert(dec_str(m as nat) =~= seq![dec_digit(d as nat)]);
                assert(dec_str(n as nat) =~= digits_rev(digits@));
            } else {
                assert(dec_str(m as nat) =~= dec_str(m_next as nat) + seq![dec_digit(d as nat)]);
                assert(dec_str(n as nat) =~= dec_str(m_next as nat) + digits_rev(digits@));
            }
        }
        m = m_next;
    }
    let mut s = String::new();
    let mut i: usize = digits.len();
    proof {
        assert(digits@.take(i as int) =~= digits@);
        assert(s@ + digits_rev(digits@.take(i as int)) =~= digits_rev(digits@));
    }
    while i > 0
        invariant
            i <= digits@.len(),
            forall|k: int| 0 <= k < digits@.len() ==> digits@[k] < 10,
            s@ + digits_rev(digits@.take(i as int)) == digits_rev(digits@),
        decreases i,
    {
        i = i - 1;
        let piece = digit_str(digits[i]);
        let ghost s_prev = s@;
        s.append(piece);
        proof {
            let taken = digits@.take(i as int + 1);
            assert(taken.last() == digits@[i as int]);
            assert(taken.drop_last() =~= digits@.take(i as int));
            assert(digits_rev(taken) =~= seq![dec_digit(digits@[i as int] as nat)] + digits_rev(
                digits@.take(i as int),
            ));
            assert(s@ + digits_rev(digits@.take(i as int)) =~= (s_prev + digits_rev(taken)));
        }
    }
    proof {
        assert(digits@.take(0) =~= Seq::<u8>::empty());
        assert(s@ =~= s@ + digits_rev(digits@.take(0)));
    }
    s
}

} // verus!
