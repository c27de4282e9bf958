//! The wire encodings of primitive values: unsigned integers and booleans that
//! the service sends as decimal strings.
use vstd::prelude::*;

verus! {

pub open spec fn is_digit(c: char) -> bool {
    '0' <= c && c <= '9'
}

pub open spec fn digit_value(c: char) -> nat {
    (c as int - '0' as int) as nat
}

pub open spec fn all_digits(s: Seq<char>) -> bool {
    forall|i: int| 0 <= i < s.len() ==> is_digit(#[trigger] s[i])
}

/// The value of a string of decimal digits, most significant first.
pub open spec fn digits_value(s: Seq<char>) -> nat
    decreases s.len(),
{
    if s.len() == 0 {
        0
    } else {
        digits_value(s.drop_last()) * 10 + digit_value(s.last())
    }
}

/// A string of one or more decimal digits, and nothing else.
pub open spec fn digits_text(s: Seq<char>) -> Option<nat> {
    if s.len() > 0 && all_digits(s) {
        Some(digits_value(s))
    } else {
        None
    }
}

/// What Rust's parsing of an unsigned integer accepts: an optional `+`
/// followed by one or more decimal digits.
pub open spec fn unsigned_text(s: Seq<char>) -> Option<nat> {
    if s.len() > 0 && s[0] == '+' {
        digits_text(s.drop_first())
    } else {
        digits_text(s)
    }
}

/// The `u64` that a decimal string encodes, if it encodes one in range.
pub open spec fn u64_text(s: Seq<char>) -> Option<u64> {
    match unsigned_text(s) {
        Some(v) => if v <= u64::MAX {
            Some(v as u64)
        } else {
            None
        },
        None => None,
    }
}

/// The `u32` that a decimal string encodes, if it encodes one in range.
pub open spec fn u32_text(s: Seq<char>) -> Option<u32> {
    match unsigned_text(s) {
        Some(v) => if v <= u32::MAX {
            Some(v as u32)
        } else {
            None
        },
        None => None,
    }
}

/// The boolean that the service writes as `"0"` or `"1"`.
pub open spec fn flag_text(s: Seq<char>) -> Option<bool> {
    if s =~= seq!['0'] {
        Some(false)
    } else if s =~= seq!['1'] {
        Some(true)
    } else {
        None
    }
}

/// How a boolean is written: `"1"` for true, `"0"` for false.
pub open spec fn flag_wire(b: bool) -> Seq<char> {
    if b {
        seq!['1']
    } else {
        seq!['0']
    }
}

/// Writing a boolean and reading it back gives the boolean.
pub proof fn lemma_flag_round_trip(b: bool)
    ensures
        flag_text(flag_wire(b)) == Some(b),
{
    assert(!(seq!['1'] =~= seq!['0'])) by {
        assert(seq!['1'][0] != seq!['0'][0]);
    }
}

/// Writes a boolean as the service does.
pub fn encode_flag(b: bool) -> (r: &'static str)
    ensures
        r@ == flag_wire(b),
{
    proof {
        reveal_strlit("1");
        reveal_strlit("0");
    }
    if b {
        "1"
    } else {
        "0"
    }
}

/// Appending digits never makes the value smaller.
proof fn lemma_digits_value_prefix(s: Seq<char>, k: int)
    requires
        0 <= k <= s.len(),
        all_digits(s),
    ensures
        digits_value(s.subrange(0, k)) <= digits_value(s),
    decreases s.len(),
{
    if k < s.len() {
        let t = s.drop_last();
        assert(t.subrange(0, k) =~= s.subrange(0, k));
        assert(all_digits(t));
        lemma_digits_value_prefix(t, k);
    } else {
        assert(s.subrange(0, k) =~= s);
    }
}

/// Parses the digits of `s` from index `start` on, as a `u64`.
fn parse_digits(s: &str, start: usize) -> (r: Option<u64>)
    requires
        start <= s@.len(),
    ensures
        r == (match digits_text(s@.subrange(start as int, s@.len() as int)) {
            Some(v) => if v <= u64::MAX {
                Some(v as u64)
            } else {
                None
            },
            None => None,
        }),
{
    let n = s.unicode_len();
    let ghost body = s@.subrange(start as int, s@.len() as int);
    if start == n {
        return None;
    }
    let mut acc: u64 = 0;
    let mut i: usize = start;
    while i < n
        invariant
            start <= i <= n,
            n == s@.len(),
            body == s@.subrange(start as int, n as int),
            all_digits(body.subrange(0, i - start)),
            acc as nat == digits_value(body.subrange(0, i - start)),
        decreases n - i,
    {
        let c = s.get_char(i);
        if !('0' <= c && c <= '9') {
            assert(!all_digits(body)) by {
                assert(body[i - start] == c);
            }
            return None;
        }
        let d: u64 = (c as u32 - '0' as u32) as u64;
        let ghost prefix = body.subrange(0, i + 1 - start);
        assert(prefix.drop_last() =~= body.subrange(0, i - start));
        assert(prefix.last() == c);
        assert(all_digits(prefix)) by {
            assert forall|j: int| 0 <= j < prefix.len() implies is_digit(#[trigger] prefix[j]) by {
                if j < prefix.len() - 1 {
                    assert(prefix[j] == body.subrange(0, i - start)[j]);
                }
            }
        }
        if acc > (u64::MAX - d) / 10 {
            proof {
                assert(digits_value(prefix) > u64::MAX) by (nonlinear_arith)
                    requires
                        digits_value(prefix) == acc * 10 + d,
                        acc > (u64::MAX - d) / 10,
                        d <= 9,
                ;
                if all_digits(body) {
                    lemma_digits_value_prefix(body, i + 1 - start);
                }
            }
            return None;
        }
        assert(acc * 10 + d <= u64::MAX) by (nonlinear_arith)
            requires
                acc <= (u64::MAX - d) / 10,
                d <= 9,
        ;
        acc = acc * 10 + d;
        i = i + 1;
    }
    assert(body.subrange(0, n - start) =~= body);
    Some(acc)
}

/// Parses an unsigned decimal integer as Rust's `u64` parsing does.
pub fn parse_u64(s: &str) -> (r: Option<u64>)
    ensures
        r == u64_text(s@),
{
    let n = s.unicode_len();
    if n > 0 && s.get_char(0) == '+' {
        assert(s@.subrange(1, s@.len() as int) =~= s@.drop_first());
        parse_digits(s, 1)
    } else {
        assert(s@.subrange(0, s@.len() as int) =~= s@);
        parse_digits(s, 0)
    }
}

/// Parses an unsigned decimal integer as Rust's `u32` parsing does.
pub fn parse_u32(s: &str) -> (r: Option<u32>)
    ensures
        r == u32_text(s@),
{
    match parse_u64(s) {
        Some(v) => if v <= u32::MAX as u64 {
            Some(v as u32)
        } else {
            None
        },
        None => {
            proof {
                // Out of range for u64 means out of range for u32 too.
                assert(u32_text(s@) is None);
            }
            None
        },
    }
}

/// Decodes the `"0"`/`"1"` boolean encoding; anything else is rejected.
pub fn parse_flag(s: &str) -> (r: Option<bool>)
    ensures
        r == flag_text(s@),
{
    if s.unicode_len() == 1 {
        let c = s.get_char(0);
        if c == '0' {
            assert(s@ =~= seq!['0']);
            return Some(false);
        } else if c == '1' {
            assert(s@ =~= seq!['1']);
            return Some(true);
        }
    }
    assert(!(s@ =~= seq!['0']) && !(s@ =~= seq!['1'])) by {
        if s@.len() == 1 {
            assert(seq!['0'][0] == '0' && seq!['1'][0] == '1');
        }
    }
    None
}

} // verus!
