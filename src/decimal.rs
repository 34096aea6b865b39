//! Base-10 integers as they appear in the status table, leading zeros allowed.

use vstd::prelude::*;

verus! {

pub open spec fn is_digit(c: char) -> bool {
    '0' <= c <= '9'
}

pub open spec fn all_digits(s: Seq<char>) -> bool {
    forall|i: int| 0 <= i < s.len() ==> is_digit(#[trigger] s[i])
}

/// The value of a run of digits read in base 10; leading zeros count for nothing.
pub open spec fn digits_value(s: Seq<char>) -> nat
    decreases s.len(),
{
    if s.len() == 0 {
        0
    } else {
        digits_value(s.drop_last()) * 10 + (s.last() as nat - '0' as nat) as nat
    }
}

/// A non-empty run of digits, optionally after one `+`: its value.
pub open spec fn unsigned_value(s: Seq<char>) -> Option<nat> {
    let d = if s.len() > 0 && s[0] == '+' {
        s.drop_first()
    } else {
        s
    };
    if d.len() > 0 && all_digits(d) {
        Some(digits_value(d))
    } else {
        None
    }
}

/// A non-empty run of digits, optionally after one `+` or `-`: its value.
pub open spec fn signed_value(s: Seq<char>) -> Option<int> {
    if s.len() > 0 && s[0] == '-' {
        let d = s.drop_first();
        if d.len() > 0 && all_digits(d) {
            Some(-(digits_value(d) as int))
        } else {
            None
        }
    } else {
        match unsigned_value(s) {
            Some(v) => Some(v as int),
            None => None,
        }
    }
}

/// `s` read as a `u32` in base 10, as `str::parse::<u32>` reads it.
pub open spec fn u32_of(s: Seq<char>) -> Option<u32> {
    match unsigned_value(s) {
        Some(v) => if v <= u32::MAX {
            Some(v as u32)
        } else {
            None
        },
        None => None,
    }
}

/// `s` read as an `i32` in base 10, as `str::parse::<i32>` reads it.
pub open spec fn i32_of(s: Seq<char>) -> Option<i32> {
    match signed_value(s) {
        Some(v) => if i32::MIN <= v <= i32::MAX {
            Some(v as i32)
        } else {
            None
        },
        None => None,
    }
}

proof fn lemma_prefix_value_bounded(s: Seq<char>, i: int)
    requires
        all_digits(s),
        0 <= i <= s.len(),
    ensures
        digits_value(s.subrange(0, i)) <= digits_value(s),
    decreases s.len(),
{
    if i < s.len() {
        let t = s.drop_last();
        assert(all_digits(t));
        assert(t.subrange(0, i) =~= s.subrange(0, i));
        lemma_prefix_value_bounded(t, i);
    } else {
        assert(s.subrange(0, i) =~= s);
    }
}

/// The value of the digits `s[start..]`, when they are all digits, there is
/// at least one, and the value is at most `bound`.
fn digits_up_to(s: &Vec<char>, start: usize, bound: u64) -> (r: Option<u64>)
    requires
        start <= s@.len(),
        bound <= u32::MAX as u64 + 1,
    ensures
        ({
            let d = s@.subrange(start as int, s@.len() as int);
            match r {
                Some(v) => d.len() > 0 && all_digits(d) && v == digits_value(d) && v <= bound,
                None => !(d.len() > 0 && all_digits(d) && digits_value(d) <= bound),
            }
        }),
{
    let ghost d = s@.subrange(start as int, s@.len() as int);
    if start == s.len() {
        return None;
    }
    let mut acc: u64 = 0;
    let mut i: usize = start;
    while i < s.len()
        invariant
            start <= i <= s@.len(),
            d == s@.subrange(start as int, s@.len() as int),
            all_digits(d.subrange(0, i - start)),
            acc == digits_value(d.subrange(0, i - start)),
            acc <= bound,
            bound <= u32::MAX as u64 + 1,
        decreases s@.len() - i,
    {
        let c = s[i];
        if !('0' <= c && c <= '9') {
            assert(d[i - start] == c);
            return None;
        }
        let ghost p = d.subrange(0, i - start);
        let ghost q = d.subrange(0, i + 1 - start);
        assert(q.drop_last() =~= p);
        acc = acc * 10 + (c as u64 - '0' as u64);
        i = i + 1;
        assert(all_digits(q)) by {
            assert forall|j: int| 0 <= j < q.len() implies is_digit(#[trigger] q[j]) by {
                if j < p.len() {
                    assert(q[j] == p[j]);
                }
            }
        }
        if acc > bound {
            proof {
                if all_digits(d) {
                    lemma_prefix_value_bounded(d, i - start);
                }
            }
            return None;
        }
    }
    assert(d.subrange(0, i - start) =~= d);
    Some(acc)
}

/// Reads `s` as a `u32` in base 10; a leading zero never means octal.
pub fn parse_u32(s: &Vec<char>) -> (r: Option<u32>)
    ensures
        r == u32_of(s@),
{
    let start: usize = if s.len() > 0 && s[0] == '+' {
        1
    } else {
        0
    };
    assert(s@.subrange(start as int, s@.len() as int) =~= if s@.len() > 0 && s@[0] == '+' {
        s@.drop_first()
    } else {
        s@
    });
    match digits_up_to(s, start, u32::MAX as u64) {
        Some(v) => Some(v as u32),
        None => None,
    }
}

/// Reads `s` as an `i32` in base 10; a leading zero never means octal.
pub fn parse_i32(s: &Vec<char>) -> (r: Option<i32>)
    ensures
        r == i32_of(s@),
{
    if s.len() > 0 && s[0] == '-' {
        assert(s@.subrange(1, s@.len() as int) =~= s@.drop_first());
        match digits_up_to(s, 1, 0x8000_0000) {
            Some(v) => Some((0 - (v as i64)) as i32),
            None => None,
        }
    } else {
        let start: usize = if s.len() > 0 && s[0] == '+' {
            1
        } else {
            0
        };
        assert(s@.subrange(start as int, s@.len() as int) =~= if s@.len() > 0 && s@[0] == '+' {
            s@.drop_first()
        } else {
            s@
        });
        match digits_up_to(s, start, 0x7fff_ffff) {
            Some(v) => Some(v as i32),
            None => None,
        }
    }
}

/// The base-10 digits of `n`, without leading zeros.
pub open spec fn decimal_digits(n: nat) -> Seq<char>
    decreases n,
{
    let last = (('0' as nat) + n % 10) as char;
    if n < 10 {
        seq![last]
    } else {
        decimal_digits(n / 10).push(last)
    }
}

/// Relies on `u32`'s `Display` (through `ToString`): base 10, no padding, no sign.
#[verifier::external_body]
pub(crate) fn decimal_text(n: u32) -> (r: String)
    ensures
        r@ == decimal_digits(n as nat),
{
    n.to_string()
}

} // verus!
