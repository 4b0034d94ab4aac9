//! Extracting a cooldown directive out of a rate-limit error's free-text
//! message: the number of seconds that follows the first occurrence of
//! "retry after".

use vstd::prelude::*;
use vstd::string::StrSliceExecFns;

verus! {

/// A decimal digit, as the cooldown directive is written with.
pub open spec fn is_cooldown_digit(c: char) -> bool {
    48 <= c as int <= 57
}

/// The marker that precedes the wait time in a rate-limit message.
pub open spec fn retry_marker() -> Seq<char> {
    seq!['r', 'e', 't', 'r', 'y', ' ', 'a', 'f', 't', 'e', 'r', ' ']
}

/// The marker occurs at `i`, immediately followed by a digit.
pub open spec fn cooldown_match_at(s: Seq<char>, i: int) -> bool {
    &&& 0 <= i
    &&& i + 13 <= s.len()
    &&& s.subrange(i, i + 12) == retry_marker()
    &&& is_cooldown_digit(s[i + 12])
}

/// The position just past the run of digits that starts at `i`.
pub open spec fn digit_run_end(s: Seq<char>, i: int) -> int
    decreases s.len() - i,
{
    if 0 <= i < s.len() && is_cooldown_digit(s[i]) {
        digit_run_end(s, i + 1)
    } else {
        i
    }
}

/// The number denoted by a run of decimal digits, most significant first.
pub open spec fn digits_value(s: Seq<char>) -> int
    decreases s.len(),
{
    if s.len() == 0 {
        0
    } else {
        digits_value(s.drop_last()) * 10 + (s.last() as int - 48)
    }
}

/// The leftmost position at or after `i` where the marker matches.
pub open spec fn find_match_from(s: Seq<char>, i: int) -> Option<int>
    decreases s.len() - i,
{
    if i + 13 > s.len() {
        None
    } else if cooldown_match_at(s, i) {
        Some(i)
    } else {
        find_match_from(s, i + 1)
    }
}

/// What the tolerant pattern match extracts from a message: the value of
/// the digit run that follows the leftmost occurrence of the marker.
pub open spec fn spec_retry_time(s: Seq<char>) -> Option<int> {
    match find_match_from(s, 0) {
        None => None,
        Some(i) => Some(digits_value(s.subrange(i + 12, digit_run_end(s, i + 12)))),
    }
}

proof fn lemma_digit_run_end(s: Seq<char>, i: int)
    requires
        0 <= i <= s.len(),
    ensures
        i <= digit_run_end(s, i) <= s.len(),
        forall|t: int| i <= t < digit_run_end(s, i) ==> is_cooldown_digit(s[t]),
    decreases s.len() - i,
{
    if i < s.len() && is_cooldown_digit(s[i]) {
        lemma_digit_run_end(s, i + 1);
    }
}

proof fn lemma_digits_value_nonneg(s: Seq<char>)
    requires
        forall|t: int| 0 <= t < s.len() ==> is_cooldown_digit(s[t]),
    ensures
        digits_value(s) >= 0,
    decreases s.len(),
{
    if s.len() > 0 {
        assert(s.drop_last() =~= s.subrange(0, s.len() - 1));
        lemma_digits_value_nonneg(s.drop_last());
    }
}

proof fn lemma_digits_value_step(s: Seq<char>, a: int, j: int)
    requires
        0 <= a <= j < s.len(),
    ensures
        digits_value(s.subrange(a, j + 1)) == digits_value(s.subrange(a, j)) * 10 + (s[j] as int
            - 48),
{
    let t = s.subrange(a, j + 1);
    assert(t.drop_last() =~= s.subrange(a, j));
    assert(t.last() == s[j]);
}

proof fn lemma_digits_value_grows(s: Seq<char>, a: int, j: int, e: int)
    requires
        0 <= a <= j <= e <= s.len(),
        forall|t: int| a <= t < e ==> is_cooldown_digit(s[t]),
    ensures
        digits_value(s.subrange(a, e)) >= digits_value(s.subrange(a, j)),
    decreases e - j,
{
    if j < e {
        lemma_digits_value_step(s, a, j);
        let pre = s.subrange(a, j);
        assert(forall|t: int| 0 <= t < pre.len() ==> is_cooldown_digit(pre[t]));
        lemma_digits_value_nonneg(pre);
        lemma_digits_value_grows(s, a, j + 1, e);
    }
}

/// One character of the marker, by position.
fn marker_char(k: usize) -> (c: char)
    requires
        k < 12,
    ensures
        c == retry_marker()[k as int],
{
    if k == 0 {
        'r'
    } else if k == 1 {
        'e'
    } else if k == 2 {
        't'
    } else if k == 3 {
        'r'
    } else if k == 4 {
        'y'
    } else if k == 5 {
        ' '
    } else if k == 6 {
        'a'
    } else if k == 7 {
        'f'
    } else if k == 8 {
        't'
    } else if k == 9 {
        'e'
    } else if k == 10 {
        'r'
    } else {
        ' '
    }
}

fn digit_at(text: &str, j: usize) -> (b: bool)
    requires
        j < text@.len(),
    ensures
        b == is_cooldown_digit(text@[j as int]),
{
    let u = text.get_char(j) as u32;
    48 <= u && u <= 57
}

fn marker_match_at(text: &str, i: usize) -> (b: bool)
    requires
        i + 13 <= text@.len(),
        text@.len() <= usize::MAX,
    ensures
        b == cooldown_match_at(text@, i as int),
{
    let ghost s = text@;
    let mut k: usize = 0;
    while k < 12
        invariant
            k <= 12,
            i + 13 <= s.len(),
            s.len() <= usize::MAX,
            s == text@,
            forall|j: int| 0 <= j < k ==> s[i + j] == retry_marker()[j],
        decreases 12 - k,
    {
        let c = text.get_char(i + k);
        if c != marker_char(k) {
            proof {
                if s.subrange(i as int, i as int + 12) == retry_marker() {
                    assert(s.subrange(i as int, i as int + 12)[k as int] == s[i + k]);
                    assert(false);
                }
            }
            return false;
        }
        k += 1;
    }
    proof {
        assert(s.subrange(i as int, i as int + 12) =~= retry_marker());
    }
    digit_at(text, i + 12)
}

fn parse_digits(text: &str, start: usize) -> (r: Option<u64>)
    requires
        start <= text@.len(),
    ensures
        ({
            let v = digits_value(text@.subrange(start as int, digit_run_end(text@, start as int)));
            &&& v >= 0
            &&& (v <= u64::MAX as int ==> r == Some(v as u64))
            &&& (v > u64::MAX as int ==> r is None)
        }),
{
    let ghost s = text@;
    let ghost e = digit_run_end(s, start as int);
    proof {
        lemma_digit_run_end(s, start as int);
    }
    let n = text.unicode_len();
    let mut j: usize = start;
    let mut acc: u64 = 0;
    while j < n && digit_at(text, j)
        invariant
            s == text@,
            n == s.len(),
            start <= j <= n,
            e == digit_run_end(s, start as int),
            digit_run_end(s, j as int) == e,
            forall|t: int| start <= t < j ==> is_cooldown_digit(s[t]),
            acc as int == digits_value(s.subrange(start as int, j as int)),
        decreases n - j,
    {
        let c = text.get_char(j);
        let d = (c as u32) - 48;
        proof {
            lemma_digits_value_step(s, start as int, j as int);
        }
        let stepped = acc.checked_mul(10);
        let next: Option<u64> = match stepped {
            Some(x) => x.checked_add(d as u64),
            None => None,
        };
        match next {
            Some(x) => {
                acc = x;
            },
            None => {
                proof {
                    lemma_digit_run_end(s, start as int);
                    assert(digit_run_end(s, j as int) == digit_run_end(s, j as int + 1));
                    lemma_digit_run_end(s, j as int + 1);
                    assert(digits_value(s.subrange(start as int, j + 1)) > u64::MAX as int);
                    lemma_digits_value_grows(s, start as int, j + 1, e);
                }
                return None;
            },
        }
        proof {
            assert(digit_run_end(s, j as int) == digit_run_end(s, j as int + 1));
        }
        j += 1;
    }
    proof {
        assert(digit_run_end(s, j as int) == j as int);
        assert(e == j as int);
    }
    Some(acc)
}

/// Extracts the wait time from a rate-limit message: the run of digits
/// that follows the first occurrence of "retry after ". Returns `None`
/// when no such occurrence exists or the value does not fit in a `u64`.
pub fn parse_retry_time(text: &str) -> (r: Option<u64>)
    ensures
        spec_retry_time(text@) is None ==> r is None,
        spec_retry_time(text@) matches Some(v) ==> v >= 0 && ((v <= u64::MAX as int ==> r == Some(
            v as u64,
        )) && (v > u64::MAX as int ==> r is None)),
{
    let ghost s = text@;
    let n = text.unicode_len();
    if n < 13 {
        proof {
            assert(find_match_from(s, 0) is None);
        }
        return None;
    }
    let mut i: usize = 0;
    while i <= n - 13
        invariant
            s == text@,
            n == s.len(),
            13 <= n,
            i <= n,
            find_match_from(s, 0) == find_match_from(s, i as int),
        decreases n - i,
    {
        if marker_match_at(text, i) {
            proof {
                assert(find_match_from(s, i as int) == Some(i as int));
            }
            return parse_digits(text, i + 12);
        }
        proof {
            assert(find_match_from(s, i as int) == find_match_from(s, i as int + 1));
        }
        i += 1;
    }
    proof {
        assert(find_match_from(s, i as int) is None);
    }
    None
}

} // verus!
