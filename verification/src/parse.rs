use vstd::prelude::*;

verus! {

/// A decimal digit character.
pub open spec fn is_dec_digit(c: char) -> bool {
    48 <= c as int <= 57
}

/// The numeric value of a decimal digit character.
pub open spec fn dec_digit_value(c: char) -> int {
    c as int - 48
}

/// Every character of `s` is a decimal digit.
pub open spec fn all_dec_digits(s: Seq<char>) -> bool {
    forall|i: int| 0 <= i < s.len() ==> is_dec_digit(#[trigger] s[i])
}

/// The value of `s` read as a base-ten numeral.
pub open spec fn dec_value(s: Seq<char>) -> int
    decreases s.len(),
{
    if s.len() == 0 {
        0
    } else {
        dec_value(s.drop_last()) * 10 + dec_digit_value(s.last())
    }
}

/// The run of characters that must be decimal digits: everything after an
/// optional single leading plus sign.
pub open spec fn digits_part(s: Seq<char>) -> Seq<char> {
    if s.len() > 0 && s[0] == '+' {
        s.skip(1)
    } else {
        s
    }
}

/// A string is accepted as an iteration count when, after an optional leading
/// plus sign, it is a non-empty run of decimal digits whose value fits in a
/// `u32`.
pub open spec fn valid_iteration_count(s: Seq<char>) -> bool {
    &&& digits_part(s).len() > 0
    &&& all_dec_digits(digits_part(s))
    &&& dec_value(digits_part(s)) <= u32::MAX
}

proof fn lemma_all_dec_digits_take(s: Seq<char>, i: int)
    requires
        all_dec_digits(s),
        0 <= i <= s.len(),
    ensures
        all_dec_digits(s.take(i)),
{
    assert forall|j: int| 0 <= j < s.take(i).len() implies is_dec_digit(#[trigger] s.take(i)[j]) by {
        assert(s.take(i)[j] == s[j]);
    }
}

proof fn lemma_dec_value_nonneg(s: Seq<char>)
    requires
        all_dec_digits(s),
    ensures
        dec_value(s) >= 0,
    decreases s.len(),
{
    if s.len() > 0 {
        lemma_all_dec_digits_take(s, s.len() - 1);
        assert(s.drop_last() =~= s.take(s.len() - 1));
        lemma_dec_value_nonneg(s.drop_last());
        assert(is_dec_digit(s.last()));
    }
}

/// Reading a longer prefix of a digit string never yields a smaller value.
proof fn lemma_dec_value_take_le(s: Seq<char>, i: int)
    requires
        all_dec_digits(s),
        0 <= i <= s.len(),
    ensures
        dec_value(s.take(i)) <= dec_value(s),
    decreases s.len() - i,
{
    if i < s.len() {
        assert(s.take(i + 1).drop_last() =~= s.take(i));
        assert(s.take(i + 1).last() == s[i]);
        lemma_all_dec_digits_take(s, i);
        lemma_dec_value_nonneg(s.take(i));
        assert(is_dec_digit(s[i]));
        assert(dec_value(s.take(i + 1)) >= dec_value(s.take(i)));
        lemma_dec_value_take_le(s, i + 1);
    } else {
        assert(s.take(i) =~= s);
    }
}

/// Parses the iteration-count argument: accepts exactly the non-empty decimal
/// numerals, with one optional leading plus sign, whose value fits in a `u32`,
/// and returns that value.
pub fn parse_iterations(s: &str) -> (r: Option<u32>)
    ensures
        r is Some <==> valid_iteration_count(s@),
        r matches Some(v) ==> v == dec_value(digits_part(s@)),
{
    let n: usize = s.unicode_len();
    if n == 0 {
        return None;
    }
    let first: char = s.get_char(0);
    let start: usize = if first == '+' {
        1
    } else {
        0
    };
    let ghost ds: Seq<char> = digits_part(s@);
    proof {
        assert(ds =~= s@.skip(start as int));
    }
    if n == start {
        return None;
    }
    let mut i: usize = start;
    let mut acc: u64 = 0;
    while i < n
        invariant
            n == s@.len(),
            start <= i <= n,
            start < n,
            ds == digits_part(s@),
            ds =~= s@.skip(start as int),
            all_dec_digits(ds.take(i - start)),
            acc == dec_value(ds.take(i - start)),
            acc <= u32::MAX,
        decreases n - i,
    {
        let c: char = s.get_char(i);
        let d: u32 = c as u32;
        proof {
            assert(ds[i - start] == s@[i as int]);
        }
        if d < 48 || d > 57 {
            proof {
                assert(!is_dec_digit(ds[i - start]));
            }
            return None;
        }
        let digit: u64 = (d - 48) as u64;
        let next: u64 = acc * 10 + digit;
        proof {
            assert(ds.take(i - start + 1).drop_last() =~= ds.take(i - start));
            assert(ds.take(i - start + 1).last() == ds[i - start]);
            assert(dec_value(ds.take(i - start + 1)) == acc * 10 + digit);
        }
        if next > 0xffff_ffff {
            proof {
                if all_dec_digits(ds) {
                    lemma_dec_value_take_le(ds, i - start + 1);
                    assert(ds.take(ds.len() as int) =~= ds);
                }
            }
            return None;
        }
        proof {
            assert forall|j: int| 0 <= j < ds.take(i - start + 1).len()
                implies is_dec_digit(#[trigger] ds.take(i - start + 1)[j]) by {
                if j < i - start {
                    assert(ds.take(i - start + 1)[j] == ds.take(i - start)[j]);
                } else {
                    assert(ds.take(i - start + 1)[j] == ds[i - start]);
                }
            }
        }
        acc = next;
        i = i + 1;
    }
    proof {
        assert(ds.take(n - start) =~= ds);
    }
    Some(acc as u32)
}

} // verus!
