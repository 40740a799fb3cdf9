use vstd::prelude::*;

verus! {

pub open spec fn is_digit(c: char) -> bool {
    '0' <= c && c <= '9'
}

pub open spec fn all_digits(s: Seq<char>) -> bool {
    forall|i: int| 0 <= i < s.len() ==> is_digit(#[trigger] s[i])
}

/// The value of a string of decimal digits.
pub open spec fn number_value(s: Seq<char>) -> int
    decreases s.len(),
{
    if s.len() == 0 {
        0
    } else {
        number_value(s.drop_last()) * 10 + (s.last() as int - '0' as int)
    }
}

/// Milliseconds in one duration unit: `s`, `m` or `h`.
pub open spec fn unit_millis(c: char) -> Option<int> {
    if c == 's' {
        Some(1000)
    } else if c == 'm' {
        Some(60_000)
    } else if c == 'h' {
        Some(3_600_000)
    } else {
        None
    }
}

/// A duration as the configuration files write it — decimal digits and a
/// unit, such as "30m", "15s" or "0s" — in milliseconds; `None` for any
/// other text, or a duration beyond `u64` milliseconds.
pub open spec fn duration_millis(s: Seq<char>) -> Option<u64> {
    if s.len() >= 2 && all_digits(s.drop_last()) && unit_millis(s.last()) is Some
        && number_value(s.drop_last()) * unit_millis(s.last())->0 <= u64::MAX {
        Some((number_value(s.drop_last()) * unit_millis(s.last())->0) as u64)
    } else {
        None
    }
}

/// A time of day as the configuration files write it — one or two digits
/// of hour, a colon and two digits of minute, such as "08:00" — in seconds
/// since midnight; `None` for any other text or an hour or minute out of
/// range.
pub open spec fn time_of_day_secs(s: Seq<char>) -> Option<u32> {
    let n = s.len() as int;
    if (n == 4 || n == 5) && s[n - 3] == ':' && all_digits(s.take(n - 3)) && all_digits(
        s.skip(n - 2),
    ) && number_value(s.take(n - 3)) < 24 && number_value(s.skip(n - 2)) < 60 {
        Some((number_value(s.take(n - 3)) * 3600 + number_value(s.skip(n - 2)) * 60) as u32)
    } else {
        None
    }
}

proof fn lemma_number_value_nonneg(s: Seq<char>)
    requires
        all_digits(s),
    ensures
        number_value(s) >= 0,
    decreases s.len(),
{
    if s.len() > 0 {
        assert(all_digits(s.drop_last()));
        lemma_number_value_nonneg(s.drop_last());
    }
}

/// A longer string of digits is worth at least as much as its prefix.
proof fn lemma_number_value_grows(s: Seq<char>, j: int)
    requires
        all_digits(s),
        0 <= j <= s.len(),
    ensures
        number_value(s.take(j)) <= number_value(s),
    decreases s.len() - j,
{
    if j < s.len() {
        lemma_number_value_grows(s, j + 1);
        let t = s.take(j + 1);
        assert(t.drop_last() =~= s.take(j));
        assert(all_digits(s.take(j)));
        lemma_number_value_nonneg(s.take(j));
    } else {
        assert(s.take(j) =~= s);
    }
}

/// The value of the digits of `s` from `from` to `to`, if they are all
/// digits and the value fits in a `u64`.
fn digits_value(s: &str, from: usize, to: usize) -> (r: Option<u64>)
    requires
        from <= to <= s@.len(),
    ensures
        r == if all_digits(s@.subrange(from as int, to as int)) && number_value(
            s@.subrange(from as int, to as int),
        ) <= u64::MAX {
            Some(number_value(s@.subrange(from as int, to as int)) as u64)
        } else {
            None
        },
{
    let ghost whole = s@.subrange(from as int, to as int);
    let mut value: u64 = 0;
    let mut i = from;
    while i < to
        invariant
            from <= i <= to <= s@.len(),
            whole == s@.subrange(from as int, to as int),
            all_digits(whole.take(i - from)),
            value == number_value(whole.take(i - from)),
        decreases to - i,
    {
        let c = s.get_char(i);
        let ghost prefix = whole.take(i - from + 1);
        assert(prefix.drop_last() =~= whole.take(i - from));
        assert(prefix.last() == c);
        if !(c >= '0' && c <= '9') {
            assert(!all_digits(whole)) by {
                assert(whole[i - from] == c);
            }
            return None;
        }
        let d = (c as u32 - '0' as u32) as u64;
        match value.checked_mul(10) {
            Some(v10) => match v10.checked_add(d) {
                Some(v) => {
                    value = v;
                },
                None => {
                    proof {
                        if all_digits(whole) {
                            lemma_number_value_grows(whole, i - from + 1);
                        }
                    }
                    return None;
                },
            },
            None => {
                proof {
                    if all_digits(whole) {
                        lemma_number_value_grows(whole, i - from + 1);
                    }
                }
                return None;
            },
        }
        i = i + 1;
        proof {
            assert(all_digits(whole.take(i - from))) by {
                assert forall|k: int| 0 <= k < i - from implies is_digit(
                    #[trigger] whole.take(i - from)[k],
                ) by {
                    if k < i - from - 1 {
                        assert(whole.take(i - from)[k] == whole.take(i - from - 1)[k]);
                    }
                }
            }
        }
    }
    assert(whole.take(to - from) =~= whole);
    Some(value)
}

/// Read a duration such as "30m", "15s" or "0s", in milliseconds.
pub fn parse_duration(s: &str) -> (r: Option<u64>)
    ensures
        r == duration_millis(s@),
{
    let n = s.unicode_len();
    if n < 2 {
        return None;
    }
    let unit = s.get_char(n - 1);
    let factor: u64 = if unit == 's' {
        1000
    } else if unit == 'm' {
        60_000
    } else if unit == 'h' {
        3_600_000
    } else {
        return None;
    };
    assert(s@.subrange(0, n - 1) =~= s@.drop_last());
    let digits = digits_value(s, 0, n - 1);
    proof {
        let num = s@.drop_last();
        if all_digits(num) {
            lemma_number_value_nonneg(num);
            let v = number_value(num);
            let f = factor as int;
            assert(v > u64::MAX ==> v * f > u64::MAX) by (nonlinear_arith)
                requires
                    f >= 1000,
            ;
        }
    }
    match digits {
        Some(v) => v.checked_mul(factor),
        None => None,
    }
}

/// Read a time of day such as "08:00", in seconds since midnight.
pub fn parse_time_of_day(s: &str) -> (r: Option<u32>)
    ensures
        r == time_of_day_secs(s@),
{
    let n = s.unicode_len();
    if n != 4 && n != 5 {
        return None;
    }
    if s.get_char(n - 3) != ':' {
        return None;
    }
    assert(s@.subrange(0, n - 3) =~= s@.take(n - 3));
    assert(s@.subrange(n - 2, n as int) =~= s@.skip(n - 2));
    let hours = match digits_value(s, 0, n - 3) {
        Some(h) => h,
        None => return None,
    };
    let minutes = match digits_value(s, n - 2, n) {
        Some(m) => m,
        None => return None,
    };
    proof {
        lemma_number_value_nonneg(s@.take(n - 3));
        lemma_number_value_nonneg(s@.skip(n - 2));
    }
    if hours < 24 && minutes < 60 {
        Some((hours * 3600 + minutes * 60) as u32)
    } else {
        None
    }
}

} // verus!
