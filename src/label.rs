use vstd::prelude::*;

verus! {

pub open spec fn is_digit(c: char) -> bool {
    '0' <= c && c <= '9'
}

pub open spec fn digit_value(c: char) -> nat {
    (c as u32 - '0' as u32) as nat
}

/// The number written by a string of decimal digits.
pub open spec fn decimal_value(d: Seq<char>) -> nat
    decreases d.len(),
{
    if d.len() == 0 {
        0
    } else {
        10 * decimal_value(d.drop_last()) + digit_value(d.last())
    }
}

pub open spec fn all_digits(d: Seq<char>) -> bool {
    forall|k: int| 0 <= k < d.len() ==> is_digit(#[trigger] d[k])
}

/// The digits of a label read as an unsigned number: the label with one
/// leading `+` sign taken off, if there is one.
pub open spec fn number_digits(s: Seq<char>) -> Seq<char> {
    if s.len() > 0 && s[0] == '+' {
        s.subrange(1, s.len() as int)
    } else {
        s
    }
}

/// The release number that a label names, if it names one that fits in 16 bits.
pub open spec fn label_number(s: Seq<char>) -> Option<u16> {
    let d = number_digits(s);
    if d.len() > 0 && all_digits(d) && decimal_value(d) <= 65535 {
        Some(decimal_value(d) as u16)
    } else {
        None
    }
}

proof fn lemma_decimal_prefix_le(d: Seq<char>, i: int)
    requires
        0 <= i <= d.len(),
    ensures
        decimal_value(d.subrange(0, i)) <= decimal_value(d),
    decreases d.len() - i,
{
    if i < d.len() {
        lemma_decimal_prefix_le(d, i + 1);
        assert(d.subrange(0, i + 1).drop_last() =~= d.subrange(0, i));
    } else {
        assert(d.subrange(0, i) =~= d);
    }
}

/// Reads a label as a release number, as `u16::from_str` does.
pub fn parse_version(label: &str) -> (r: Option<u16>)
    ensures
        r == label_number(label@),
{
    let n = label.unicode_len();
    let mut start: usize = 0;
    if n > 0 && label.get_char(0) == '+' {
        start = 1;
    }
    let ghost d = number_digits(label@);
    assert(d =~= label@.subrange(start as int, n as int));
    if start == n {
        return None;
    }
    let mut acc: u32 = 0;
    let mut i: usize = start;
    while i < n
        invariant
            n == label@.len(),
            start <= i <= n,
            d == label@.subrange(start as int, n as int),
            d == number_digits(label@),
            acc as nat == decimal_value(d.subrange(0, i - start)),
            acc <= 65535,
            all_digits(d.subrange(0, i - start)),
        decreases n - i,
    {
        let c = label.get_char(i);
        let ghost k = i - start;
        assert(d.subrange(0, k + 1).drop_last() =~= d.subrange(0, k));
        assert(d[k] == c);
        if !('0' <= c && c <= '9') {
            assert(!is_digit(d[k]));
            assert(!all_digits(d));
            return None;
        }
        let v: u32 = acc * 10 + (c as u32 - '0' as u32);
        if v > 65535 {
            proof {
                lemma_decimal_prefix_le(d, k + 1);
                assert(d.subrange(0, k + 1).last() == c);
                assert(decimal_value(d.subrange(0, k + 1)) == v);
            }
            return None;
        }
        acc = v;
        i = i + 1;
        assert(all_digits(d.subrange(0, k + 1))) by {
            assert forall|j: int| 0 <= j < k + 1 implies is_digit(#[trigger] d.subrange(0, k + 1)[j]) by {
                if j < k {
                    assert(d.subrange(0, k + 1)[j] == d.subrange(0, k)[j]);
                }
            }
        }
    }
    assert(d.subrange(0, n - start) =~= d);
    Some(acc as u16)
}

} // verus!
