//! Decimal numbers: reading one as a response header carries it (digits, an
//! optional plus sign in front, blanks around that are not part of the
//! number), and writing one.

use vstd::prelude::*;
use vstd::string::StringExecFns;

verus! {

/// A space or a horizontal tab.
pub open spec fn is_blank(b: u8) -> bool {
    b == 0x20 || b == 0x09
}

/// One of the ten ASCII digits.
pub open spec fn is_digit(b: u8) -> bool {
    0x30 <= b <= 0x39
}

/// Every byte of `s` is a digit.
pub open spec fn all_digits(s: Seq<u8>) -> bool {
    forall|i: int| 0 <= i < s.len() ==> is_digit(#[trigger] s[i])
}

/// The number of blanks that `s` starts with.
pub open spec fn leading_blanks(s: Seq<u8>) -> nat
    decreases s.len(),
{
    if s.len() > 0 && is_blank(s[0]) {
        1 + leading_blanks(s.skip(1))
    } else {
        0
    }
}

/// The number of blanks that `s` ends with.
pub open spec fn trailing_blanks(s: Seq<u8>) -> nat
    decreases s.len(),
{
    if s.len() > 0 && is_blank(s.last()) {
        1 + trailing_blanks(s.drop_last())
    } else {
        0
    }
}

/// `s` without the blanks at its two ends.
pub open spec fn trimmed(s: Seq<u8>) -> Seq<u8> {
    let rest = s.skip(leading_blanks(s) as int);
    rest.take(rest.len() - trailing_blanks(rest))
}

/// The number that a run of digits writes in base ten.
pub open spec fn decimal_value(digits: Seq<u8>) -> nat
    decreases digits.len(),
{
    if digits.len() == 0 {
        0
    } else {
        decimal_value(digits.drop_last()) * 10 + (digits.last() - 0x30) as nat
    }
}

/// The digits of a trimmed number text: what follows an optional plus sign.
pub open spec fn unsigned_part(core: Seq<u8>) -> Seq<u8> {
    if core.len() > 0 && core[0] == 0x2b {
        core.skip(1)
    } else {
        core
    }
}

/// The number that `s` carries, if it carries one: after the blanks around
/// it are dropped, an optional `+` and then at least one digit and nothing
/// else, with a value that fits in 64 bits.
pub open spec fn decimal_number(s: Seq<u8>) -> Option<u64> {
    let digits = unsigned_part(trimmed(s));
    if digits.len() > 0 && all_digits(digits) && decimal_value(digits) <= u64::MAX {
        Some(decimal_value(digits) as u64)
    } else {
        None
    }
}

proof fn lemma_leading_blanks(s: Seq<u8>, k: int)
    requires
        0 <= k <= s.len(),
        forall|j: int| 0 <= j < k ==> is_blank(#[trigger] s[j]),
        k == s.len() || !is_blank(s[k]),
    ensures
        leading_blanks(s) == k,
    decreases k,
{
    if k > 0 {
        lemma_leading_blanks(s.skip(1), k - 1);
    }
}

proof fn lemma_trailing_blanks(s: Seq<u8>, k: int)
    requires
        0 <= k <= s.len(),
        forall|j: int| s.len() - k <= j < s.len() ==> is_blank(#[trigger] s[j]),
        k == s.len() || !is_blank(s[s.len() - k - 1]),
    ensures
        trailing_blanks(s) == k,
    decreases k,
{
    if k > 0 {
        lemma_trailing_blanks(s.drop_last(), k - 1);
    }
}

proof fn lemma_decimal_value_prefix(digits: Seq<u8>, k: int)
    requires
        0 <= k <= digits.len(),
        all_digits(digits),
    ensures
        decimal_value(digits.take(k)) <= decimal_value(digits),
    decreases digits.len(),
{
    if k == digits.len() {
        assert(digits.take(k) =~= digits);
    } else {
        let front = digits.drop_last();
        assert(front.take(k) =~= digits.take(k));
        lemma_decimal_value_prefix(front, k);
    }
}

/// Reads the decimal number that `bytes` carries. `None` when the bytes are
/// not a number text or the number does not fit in 64 bits.
pub fn parse_decimal(bytes: &[u8]) -> (r: Option<u64>)
    ensures
        r == decimal_number(bytes@),
{
    let n = bytes.len();
    let mut start: usize = 0;
    while start < n && (bytes[start] == 0x20 || bytes[start] == 0x09)
        invariant
            start <= n,
            n == bytes@.len(),
            forall|j: int| 0 <= j < start ==> is_blank(#[trigger] bytes@[j]),
        decreases n - start,
    {
        start += 1;
    }
    let mut end: usize = n;
    while end > start && (bytes[end - 1] == 0x20 || bytes[end - 1] == 0x09)
        invariant
            start <= end <= n,
            n == bytes@.len(),
            forall|j: int| end <= j < n ==> is_blank(#[trigger] bytes@[j]),
        decreases end - start,
    {
        end -= 1;
    }
    proof {
        lemma_leading_blanks(bytes@, start as int);
        lemma_trailing_blanks(bytes@.skip(start as int), n - end);
    }
    let mut at: usize = start;
    if at < end && bytes[at] == 0x2b {
        at += 1;
    }
    let ghost digits = bytes@.subrange(at as int, end as int);
    if at == end {
        return None;
    }
    let first: usize = at;
    let mut value: u64 = 0;
    while at < end
        invariant
            first <= at <= end <= n,
            n == bytes@.len(),
            digits == bytes@.subrange(first as int, end as int),
            digits == unsigned_part(trimmed(bytes@)),
            all_digits(digits.take(at - first)),
            value == decimal_value(digits.take(at - first)),
        decreases end - at,
    {
        let b = bytes[at];
        let ghost seen = digits.take(at - first);
        let ghost next = digits.take(at - first + 1);
        proof {
            assert(digits[at - first] == b);
            assert(next.drop_last() =~= seen);
        }
        if b < 0x30 || b > 0x39 {
            return None;
        }
        let shifted = match value.checked_mul(10) {
            Some(v) => v,
            None => {
                proof {
                    if all_digits(digits) {
                        lemma_decimal_value_prefix(digits, at - first + 1);
                    }
                }
                return None;
            },
        };
        value = match shifted.checked_add((b - 0x30) as u64) {
            Some(v) => v,
            None => {
                proof {
                    if all_digits(digits) {
                        lemma_decimal_value_prefix(digits, at - first + 1);
                    }
                }
                return None;
            },
        };
        at += 1;
    }
    proof {
        assert(digits.take(at - first) =~= digits);
    }
    Some(value)
}

/// The ASCII digit that writes `d`, for `d` below ten.
pub open spec fn digit_byte(d: nat) -> u8 {
    (0x30 + d) as u8
}

/// The bytes that write `n` in base ten, without leading zeros.
pub open spec fn decimal_bytes(n: nat) -> Seq<u8>
    decreases n,
{
    if n < 10 {
        seq![digit_byte(n)]
    } else {
        decimal_bytes(n / 10).push(digit_byte(n % 10))
    }
}

/// The characters that write `n` in base ten, without leading zeros.
pub open spec fn decimal_text(n: nat) -> Seq<char> {
    Seq::new(decimal_bytes(n).len(), |i: int| decimal_bytes(n)[i] as char)
}

/// What `decimal_bytes` writes is digits, at least one, and they write `n`.
pub proof fn lemma_decimal_bytes_value(n: nat)
    ensures
        decimal_bytes(n).len() > 0,
        all_digits(decimal_bytes(n)),
        decimal_value(decimal_bytes(n)) == n,
    decreases n,
{
    if n < 10 {
        let one = seq![digit_byte(n)];
        assert(decimal_value(one.drop_last()) == 0);
    } else {
        lemma_decimal_bytes_value(n / 10);
        let front = decimal_bytes(n / 10);
        let all = front.push(digit_byte(n % 10));
        assert(all.drop_last() =~= front);
    }
}

/// Writing a number and reading it back gives the number: what
/// `decimal_bytes` writes for a 64-bit `n` is read as `n`.
pub proof fn lemma_written_number_reads_back(n: u64)
    ensures
        decimal_number(decimal_bytes(n as nat)) == Some(n),
{
    let s = decimal_bytes(n as nat);
    lemma_decimal_bytes_value(n as nat);
    assert(s.skip(0) =~= s);
}

fn digit_str(d: u64) -> (r: &'static str)
    requires
        d < 10,
    ensures
        r@ == seq![digit_byte(d as nat) as char],
{
    proof {
        reveal_strlit("0");
        reveal_strlit("1");
        reveal_strlit("2");
        reveal_strlit("3");
        reveal_strlit("4");
        reveal_strlit("5");
        reveal_strlit("6");
        reveal_strlit("7");
        reveal_strlit("8");
        reveal_strlit("9");
    }
    if d == 0 {
        "0"
    } else if d == 1 {
        "1"
    } else if d == 2 {
        "2"
    } else if d == 3 {
        "3"
    } else if d == 4 {
        "4"
    } else if d == 5 {
        "5"
    } else if d == 6 {
        "6"
    } else if d == 7 {
        "7"
    } else if d == 8 {
        "8"
    } else {
        "9"
    }
}

/// Writes `n` in base ten.
pub fn write_decimal(n: u64) -> (r: String)
    ensures
        r@ == decimal_text(n as nat),
    decreases n,
{
    if n < 10 {
        String::from_str(digit_str(n))
    } else {
        let mut r = write_decimal(n / 10);
        r.append(digit_str(n % 10));
        r
    }
}

} // verus!
