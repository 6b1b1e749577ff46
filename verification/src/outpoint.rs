//! Parsing of a channel's funding outpoint, written as
//! `<funding txid>:<output index>`: the text before the first colon is the
//! transaction id, the text between the first and second colon (or the end)
//! must be the output index in decimal.

use vstd::prelude::*;
use vstd::string::*;

verus! {

/// The funding outpoint of a channel: the funding transaction id and the
/// output index within that transaction.
pub struct Outpoint {
    pub funding_txid: String,
    pub output_index: u32,
}

/// The mathematical content of an `Outpoint`.
pub struct OutpointV {
    pub funding_txid: Seq<char>,
    pub output_index: u32,
}

impl View for Outpoint {
    type V = OutpointV;

    open spec fn view(&self) -> OutpointV {
        OutpointV { funding_txid: self.funding_txid@, output_index: self.output_index }
    }
}

/// Whether `c` is a decimal digit.
pub open spec fn is_digit(c: char) -> bool {
    48 <= c as int <= 57
}

/// The value of the decimal digit `c`.
pub open spec fn digit_val(c: char) -> int {
    c as int - 48
}

/// Whether every character of `s` is a decimal digit.
pub open spec fn all_digits(s: Seq<char>) -> bool {
    forall|j: int| 0 <= j < s.len() ==> is_digit(#[trigger] s[j])
}

/// The value of `s` read as a decimal number.
pub open spec fn digits_val(s: Seq<char>) -> int
    decreases s.len(),
{
    if s.len() == 0 {
        0
    } else {
        10 * digits_val(s.drop_last()) + digit_val(s.last())
    }
}

/// The index of the first colon of `s`, or `s.len()` if it has none.
pub open spec fn first_colon(s: Seq<char>) -> int
    decreases s.len(),
{
    if s.len() == 0 {
        0
    } else if s[0] == ':' {
        0
    } else {
        1 + first_colon(s.subrange(1, s.len() as int))
    }
}

/// What parsing a channel point yields: the transaction id before the first
/// colon, and the decimal output index between the first and second colon
/// (or the end); `None` when there is no colon, when the index segment is
/// empty or not all digits, or when its value does not fit in a `u32`.
pub open spec fn spec_parse_outpoint(s: Seq<char>) -> Option<(Seq<char>, u32)> {
    let i = first_colon(s);
    if i == s.len() {
        None
    } else {
        let rest = s.subrange(i + 1, s.len() as int);
        let digits = rest.subrange(0, first_colon(rest));
        if digits.len() > 0 && all_digits(digits) && digits_val(digits) <= u32::MAX {
            Some((s.subrange(0, i), digits_val(digits) as u32))
        } else {
            None
        }
    }
}

proof fn lemma_first_colon_le(s: Seq<char>)
    ensures
        0 <= first_colon(s) <= s.len(),
    decreases s.len(),
{
    if s.len() > 0 && s[0] != ':' {
        lemma_first_colon_le(s.subrange(1, s.len() as int));
    }
}

proof fn lemma_first_colon_at(s: Seq<char>, i: int)
    requires
        0 <= i <= s.len(),
        forall|j: int| 0 <= j < i ==> s[j] != ':',
        i < s.len() ==> s[i] == ':',
    ensures
        first_colon(s) == i,
    decreases i, s.len(),
{
    if s.len() == 0 {
    } else if i == 0 {
    } else {
        let tail = s.subrange(1, s.len() as int);
        assert(forall|j: int| 0 <= j < i - 1 ==> #[trigger] tail[j] == s[j + 1]);
        assert(i - 1 < tail.len() ==> tail[i - 1] == s[i]);
        lemma_first_colon_at(tail, i - 1);
    }
}

proof fn lemma_first_colon_at_least(s: Seq<char>, m: int)
    requires
        0 <= m <= s.len(),
        forall|j: int| 0 <= j < m ==> s[j] != ':',
    ensures
        first_colon(s) >= m,
    decreases m,
{
    lemma_first_colon_le(s);
    if m > 0 {
        let tail = s.subrange(1, s.len() as int);
        assert(forall|j: int| 0 <= j < m - 1 ==> #[trigger] tail[j] == s[j + 1]);
        lemma_first_colon_at_least(tail, m - 1);
    }
}

/// Parse a channel point into its funding outpoint. Returns `None` for any
/// malformed channel point, exactly as `spec_parse_outpoint` lays out.
pub fn parse_outpoint(channel_point: &str) -> (r: Option<Outpoint>)
    ensures
        match r {
            Some(op) => spec_parse_outpoint(channel_point@) == Some(
                (op.funding_txid@, op.output_index),
            ),
            None => spec_parse_outpoint(channel_point@) is None,
        },
{
    let ghost s = channel_point@;
    let n = channel_point.unicode_len();
    let mut i: usize = 0;
    while i < n && channel_point.get_char(i) != ':'
        invariant
            n == s.len(),
            s == channel_point@,
            0 <= i <= n,
            forall|j: int| 0 <= j < i ==> s[j] != ':',
        decreases n - i,
    {
        i = i + 1;
    }
    proof {
        lemma_first_colon_at(s, i as int);
    }
    if i == n {
        return None;
    }
    let ghost rest = s.subrange(i as int + 1, s.len() as int);
    proof {
        assert(forall|j: int| 0 <= j < rest.len() ==> #[trigger] rest[j] == s[i + 1 + j]);
    }

    let mut acc: u32 = 0;
    let mut k: usize = i + 1;
    let mut overflowed = false;
    while k < n && channel_point.get_char(k) != ':'
        invariant
            n == s.len(),
            s == channel_point@,
            rest == s.subrange(i as int + 1, s.len() as int),
            0 <= i < n,
            first_colon(s) == i as int,
            i + 1 <= k <= n,
            forall|j: int| i + 1 <= j < k ==> is_digit(#[trigger] s[j]),
            !overflowed ==> acc == digits_val(s.subrange(i as int + 1, k as int)),
            overflowed ==> digits_val(s.subrange(i as int + 1, k as int)) > u32::MAX,
        decreases n - k,
    {
        let c = channel_point.get_char(k);
        let cu = c as u32;
        if cu < 48 || cu > 57 {
            // the index segment reaches past this character, which is not a digit
            proof {
                assert(forall|j: int| 0 <= j < k - i ==> #[trigger] rest[j] != ':') by {
                    assert(forall|j: int| i + 1 <= j < k ==> #[trigger] s[j] != ':');
                    assert(s[k as int] != ':');
                }
                lemma_first_colon_at_least(rest, k - i as int);
                lemma_first_colon_le(rest);
                let digits = rest.subrange(0, first_colon(rest));
                assert(digits[k - i - 1] == s[k as int]);
                assert(!is_digit(digits[k - i - 1]));
            }
            return None;
        }
        let d = cu - 48;
        let ghost prefix = s.subrange(i as int + 1, k as int);
        let ghost prefix1 = s.subrange(i as int + 1, k as int + 1);
        proof {
            assert(prefix1.drop_last() =~= prefix);
            assert(digits_val(prefix1) == 10 * digits_val(prefix) + digit_val(s[k as int]));
        }
        if !overflowed {
            let next: u64 = (acc as u64) * 10 + (d as u64);
            if next <= u32::MAX as u64 {
                acc = next as u32;
            } else {
                overflowed = true;
            }
        }
        k = k + 1;
    }
    let ghost digits = s.subrange(i as int + 1, k as int);
    proof {
        assert(forall|j: int| 0 <= j < k - i - 1 ==> #[trigger] rest[j] != ':') by {
            assert(forall|j: int| i + 1 <= j < k ==> #[trigger] s[j] != ':');
        }
        assert(k < n ==> rest[k - i - 1] == ':');
        lemma_first_colon_at(rest, k - i - 1);
        assert(rest.subrange(0, k - i - 1) =~= digits);
    }
    if k == i + 1 {
        return None;
    }
    if overflowed {
        return None;
    }
    let txid_slice = channel_point.substring_char(0, i);
    let txid = String::from_str(txid_slice);
    Some(Outpoint { funding_txid: txid, output_index: acc })
}

} // verus!
