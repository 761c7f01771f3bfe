use crate::control::Temperature;
use vstd::prelude::*;

verus! {

/// The characters `char::is_whitespace` accepts: Unicode's `White_Space` set.
pub open spec fn is_space(c: char) -> bool {
    ||| '\u{9}' <= c <= '\u{d}'
    ||| c == ' '
    ||| c == '\u{85}'
    ||| c == '\u{a0}'
    ||| c == '\u{1680}'
    ||| '\u{2000}' <= c <= '\u{200a}'
    ||| c == '\u{2028}'
    ||| c == '\u{2029}'
    ||| c == '\u{202f}'
    ||| c == '\u{205f}'
    ||| c == '\u{3000}'
}

/// `s` without its leading whitespace.
pub open spec fn trim_start(s: Seq<char>) -> Seq<char>
    decreases s.len(),
{
    if s.len() > 0 && is_space(s[0]) {
        trim_start(s.drop_first())
    } else {
        s
    }
}

/// `s` without its trailing whitespace.
pub open spec fn trim_end(s: Seq<char>) -> Seq<char>
    decreases s.len(),
{
    if s.len() > 0 && is_space(s.last()) {
        trim_end(s.drop_last())
    } else {
        s
    }
}

/// `s` without the whitespace around it.
pub open spec fn trimmed(s: Seq<char>) -> Seq<char> {
    trim_end(trim_start(s))
}

pub open spec fn is_digit(c: char) -> bool {
    '0' <= c <= '9'
}

/// A non-empty run of decimal digits.
pub open spec fn is_digits(d: Seq<char>) -> bool {
    d.len() > 0 && forall|i: int| 0 <= i < d.len() ==> is_digit(#[trigger] d[i])
}

/// The number that the decimal digits `d` write.
pub open spec fn decimal_value(d: Seq<char>) -> int
    decreases d.len(),
{
    if d.len() == 0 {
        0
    } else {
        decimal_value(d.drop_last()) * 10 + (d.last() as int - '0' as int)
    }
}

/// The integer that `t` writes: digits, after an optional `+` or `-`.
pub open spec fn integer_value(t: Seq<char>) -> Option<int> {
    if t.len() > 0 && t[0] == '-' && is_digits(t.drop_first()) {
        Some(-decimal_value(t.drop_first()))
    } else if t.len() > 0 && t[0] == '+' && is_digits(t.drop_first()) {
        Some(decimal_value(t.drop_first()))
    } else if is_digits(t) {
        Some(decimal_value(t))
    } else {
        None
    }
}

/// The millidegrees that the sensor text `s` reports: the integer that it
/// writes once surrounding whitespace is removed, when that integer fits in an
/// `i64`; `0` for any other text.
pub open spec fn reading_of(s: Seq<char>) -> int {
    let v = integer_value(trimmed(s));
    if v is Some && i64::MIN <= v->0 <= i64::MAX {
        v->0
    } else {
        0
    }
}

fn is_space_char(c: char) -> (r: bool)
    ensures
        r == is_space(c),
{
    ('\u{9}' <= c && c <= '\u{d}') || c == ' ' || c == '\u{85}' || c == '\u{a0}' || c
        == '\u{1680}' || ('\u{2000}' <= c && c <= '\u{200a}') || c == '\u{2028}' || c
        == '\u{2029}' || c == '\u{202f}' || c == '\u{205f}' || c == '\u{3000}'
}

proof fn lemma_prefix_value(d: Seq<char>, k: int)
    requires
        forall|i: int| 0 <= i < d.len() ==> is_digit(#[trigger] d[i]),
        0 <= k <= d.len(),
    ensures
        0 <= decimal_value(d.subrange(0, k)) <= decimal_value(d),
    decreases d.len(),
{
    if k == d.len() {
        assert(d.subrange(0, k) =~= d);
        if d.len() > 0 {
            lemma_prefix_value(d.drop_last(), k - 1);
            assert(d.drop_last().subrange(0, k - 1) =~= d.drop_last());
        }
    } else {
        let p = d.drop_last();
        lemma_prefix_value(p, k);
        assert(p.subrange(0, k) =~= d.subrange(0, k));
        lemma_prefix_value(p, p.len() as int);
        assert(p.subrange(0, p.len() as int) =~= p);
    }
}

/// The temperature that the sensor text `content` reports: a whole number of
/// millidegrees Celsius, possibly surrounded by whitespace. Text that does not
/// hold such a number, or one beyond `i64`, reads as 0 millidegrees.
pub fn parse_temperature(content: &str) -> (r: Temperature)
    ensures
        r@ == reading_of(content@),
{
    let ghost s = content@;
    let n = content.unicode_len();
    let mut lo: usize = 0;
    assert(s.subrange(0, n as int) =~= s);
    while lo < n && is_space_char(content.get_char(lo))
        invariant
            s == content@,
            n == s.len(),
            lo <= n,
            trim_start(s) == trim_start(s.subrange(lo as int, n as int)),
        decreases n - lo,
    {
        assert(s.subrange(lo as int, n as int).drop_first() =~= s.subrange(lo + 1, n as int));
        lo = lo + 1;
    }
    assert(trim_start(s) == s.subrange(lo as int, n as int));
    let mut hi: usize = n;
    while hi > lo && is_space_char(content.get_char(hi - 1))
        invariant
            s == content@,
            n == s.len(),
            lo <= hi <= n,
            trimmed(s) == trim_end(s.subrange(lo as int, hi as int)),
        decreases hi,
    {
        assert(s.subrange(lo as int, hi as int).drop_last() =~= s.subrange(lo as int, hi - 1));
        hi = hi - 1;
    }
    let ghost t = s.subrange(lo as int, hi as int);
    assert(trimmed(s) == t);
    if lo == hi {
        return Temperature { millidegrees: 0 };
    }
    let first = content.get_char(lo);
    let negative = first == '-';
    let mut i: usize = lo;
    if first == '-' || first == '+' {
        i = i + 1;
        assert(t.drop_first() =~= s.subrange(i as int, hi as int));
    } else {
        assert(t =~= s.subrange(i as int, hi as int));
    }
    let start = i;
    if start == hi {
        return Temperature { millidegrees: 0 };
    }
    let mut magnitude: u64 = 0;
    while i < hi
        invariant
            s == content@,
            n == s.len(),
            lo <= start <= i <= hi <= n,
            t == s.subrange(lo as int, hi as int),
            trimmed(s) == t,
            negative == (t[0] == '-'),
            lo < hi,
            start == lo ==> t == s.subrange(start as int, hi as int) && t[0] != '-' && t[0] != '+',
            start == lo + 1 ==> (t[0] == '-' || t[0] == '+') && t.drop_first() == s.subrange(
                start as int,
                hi as int,
            ),
            start == lo || start == lo + 1,
            forall|j: int| start <= j < i ==> is_digit(#[trigger] s[j]),
            magnitude == decimal_value(s.subrange(start as int, i as int)),
        decreases hi - i,
    {
        let c = content.get_char(i);
        if !('0' <= c && c <= '9') {
            assert(s.subrange(start as int, hi as int)[i - start] == c);
            assert(!is_digits(s.subrange(start as int, hi as int)));
            if start == lo {
                assert(!is_digits(t));
            } else {
                assert(!is_digit(t[0]));
                assert(!is_digits(t.drop_first()));
                assert(!is_digits(t));
            }
            return Temperature { millidegrees: 0 };
        }
        let digit: u64 = (c as u32 - '0' as u32) as u64;
        let ghost next = s.subrange(start as int, i + 1);
        assert(next.drop_last() =~= s.subrange(start as int, i as int));
        let stepped = match magnitude.checked_mul(10) {
            Some(scaled) => scaled.checked_add(digit),
            None => None,
        };
        match stepped {
            Some(v) => {
                magnitude = v;
            },
            None => {
                proof {
                    let digits = s.subrange(start as int, hi as int);
                    if is_digits(digits) {
                        lemma_prefix_value(digits, i + 1 - start);
                        assert(digits.subrange(0, i + 1 - start) =~= next);
                    }
                }
                return Temperature { millidegrees: 0 };
            },
        }
        i = i + 1;
    }
    assert(is_digits(s.subrange(start as int, hi as int)));
    if negative {
        if magnitude <= 9_223_372_036_854_775_808u64 {
            if magnitude == 9_223_372_036_854_775_808u64 {
                Temperature { millidegrees: i64::MIN }
            } else {
                Temperature { millidegrees: -(magnitude as i64) }
            }
        } else {
            Temperature { millidegrees: 0 }
        }
    } else if magnitude <= i64::MAX as u64 {
        Temperature { millidegrees: magnitude as i64 }
    } else {
        Temperature { millidegrees: 0 }
    }
}

} // verus!
