//! Byte-level text predicates shared by the capture and ABI layers.

use vstd::prelude::*;
use vstd::utf8::encode_utf8;

verus! {

/// `prefix` is a byte prefix of `bytes`.
pub open spec fn bytes_start_with(bytes: Seq<u8>, prefix: Seq<u8>) -> bool {
    prefix.len() <= bytes.len() && bytes.subrange(0, prefix.len() as int) == prefix
}

/// Returns whether the UTF-8 encoding of `text` begins with that of `prefix`.
pub fn starts_with(text: &str, prefix: &str) -> (r: bool)
    ensures
        r == bytes_start_with(encode_utf8(text@), encode_utf8(prefix@)),
{
    let text_bytes = text.as_bytes();
    let prefix_bytes = prefix.as_bytes();
    if prefix_bytes.len() > text_bytes.len() {
        return false;
    }
    let mut index: usize = 0;
    while index < prefix_bytes.len()
        invariant
            prefix_bytes@ == encode_utf8(prefix@),
            text_bytes@ == encode_utf8(text@),
            prefix_bytes.len() <= text_bytes.len(),
            index <= prefix_bytes.len(),
            forall|j: int| 0 <= j < index ==> text_bytes@[j] == prefix_bytes@[j],
        decreases prefix_bytes.len() - index,
    {
        if text_bytes[index] != prefix_bytes[index] {
            assert(text_bytes@.subrange(0, prefix_bytes@.len() as int)[index as int]
                != prefix_bytes@[index as int]);
            return false;
        }
        index = index + 1;
    }
    assert(text_bytes@.subrange(0, prefix_bytes@.len() as int) =~= prefix_bytes@);
    true
}

/// Returns whether two texts hold the same characters.
pub fn text_equals(a: &str, b: &str) -> (r: bool)
    ensures
        r == (a@ == b@),
{
    let count = a.unicode_len();
    if count != b.unicode_len() {
        return false;
    }
    let mut index: usize = 0;
    while index < count
        invariant
            count == a@.len(),
            count == b@.len(),
            index <= count,
            forall|j: int| 0 <= j < index ==> a@[j] == b@[j],
        decreases count - index,
    {
        if a.get_char(index) != b.get_char(index) {
            return false;
        }
        index = index + 1;
    }
    assert(a@ =~= b@);
    true
}

/// Calls `String::push_str`, which appends `tail` to the end of `text`.
#[verifier::external_body]
pub(crate) fn push_str(text: &mut String, tail: &str)
    ensures
        final(text)@ == old(text)@ + tail@,
{
    text.push_str(tail);
}

/// Calls `String::push`, which appends `c` to the end of `text`.
#[verifier::external_body]
pub(crate) fn push_char(text: &mut String, c: char)
    ensures
        final(text)@ == old(text)@.push(c),
{
    text.push(c);
}

/// The decimal digit character for `d` in `0..10`.
pub open spec fn digit_char(d: nat) -> char {
    ((48 + d) as u8) as char
}

/// Decimal digits of `n`, most significant first, without leading zeros.
pub open spec fn decimal_digits(n: nat) -> Seq<char>
    decreases n,
{
    if n < 10 {
        seq![digit_char(n)]
    } else {
        decimal_digits(n / 10).push(digit_char(n % 10))
    }
}

/// Decimal text of a signed integer, as Rust's `Display` renders it.
pub open spec fn decimal_text(v: int) -> Seq<char> {
    if v < 0 {
        seq!['-'] + decimal_digits((-v) as nat)
    } else {
        decimal_digits(v as nat)
    }
}

/// Appends the decimal digits of `n` to `text`.
pub fn push_decimal_u64(text: &mut String, n: u64)
    ensures
        final(text)@ == old(text)@ + decimal_digits(n as nat),
    decreases n,
{
    if n >= 10 {
        push_decimal_u64(text, n / 10);
    }
    let d: u8 = (n % 10) as u8;
    push_char(text, (48u8 + d) as char);
    proof {
        if n >= 10 {
            assert(old(text)@ + decimal_digits(n as nat) =~= old(text)@ + decimal_digits((n / 10) as nat)
                + seq![digit_char((n % 10) as nat)]);
        }
    }
}

/// Appends the decimal text of `v` to `text`.
pub fn push_decimal_i64(text: &mut String, v: i64)
    ensures
        final(text)@ == old(text)@ + decimal_text(v as int),
{
    if v < 0 {
        push_char(text, '-');
        let magnitude: u64 = if v == i64::MIN {
            0x8000_0000_0000_0000u64
        } else {
            (-v) as u64
        };
        push_decimal_u64(text, magnitude);
        assert(old(text)@ + decimal_text(v as int) =~= old(text)@.push('-') + decimal_digits(
            magnitude as nat,
        ));
    } else {
        push_decimal_u64(text, v as u64);
    }
}

/// `needle` occurs as a contiguous run of bytes somewhere in `bytes`.
pub open spec fn bytes_contain(bytes: Seq<u8>, needle: Seq<u8>) -> bool {
    exists|start: int|
        0 <= start <= bytes.len() - needle.len() && #[trigger] bytes.subrange(
            start,
            start + needle.len(),
        ) == needle
}

/// Whether the UTF-8 encoding of `needle` occurs within that of `text`.
pub fn contains(text: &str, needle: &str) -> (r: bool)
    ensures
        r == bytes_contain(encode_utf8(text@), encode_utf8(needle@)),
{
    let text_bytes = text.as_bytes();
    let needle_bytes = needle.as_bytes();
    if needle_bytes.len() > text_bytes.len() {
        return false;
    }
    let last_start = text_bytes.len() - needle_bytes.len();
    let mut start: usize = 0;
    while start <= last_start
        invariant
            text_bytes@ == encode_utf8(text@),
            needle_bytes@ == encode_utf8(needle@),
            needle_bytes.len() <= text_bytes.len(),
            last_start == text_bytes.len() - needle_bytes.len(),
            start <= last_start + 1,
            forall|s: int|
                0 <= s < start ==> #[trigger] text_bytes@.subrange(s, s + needle_bytes.len())
                    != needle_bytes@,
        decreases last_start + 1 - start,
    {
        let mut index: usize = 0;
        let mut matched = true;
        while index < needle_bytes.len()
            invariant
                needle_bytes.len() <= text_bytes.len(),
                start <= text_bytes.len() - needle_bytes.len(),
                index <= needle_bytes.len(),
                matched == (forall|j: int|
                    0 <= j < index ==> text_bytes@[start + j] == needle_bytes@[j]),
            decreases needle_bytes.len() - index,
        {
            if text_bytes[start + index] != needle_bytes[index] {
                matched = false;
            }
            index = index + 1;
        }
        if matched {
            assert(text_bytes@.subrange(start as int, start + needle_bytes.len()) =~= needle_bytes@);
            return true;
        }
        assert(text_bytes@.subrange(start as int, start + needle_bytes.len()) != needle_bytes@) by {
            let j = choose|j: int|
                0 <= j < needle_bytes.len() && text_bytes@[start + j] != needle_bytes@[j];
            assert(text_bytes@.subrange(start as int, start + needle_bytes.len())[j]
                != needle_bytes@[j]);
        }
        start = start + 1;
    }
    false
}

/// Lowercase text of `text` as Rust's `str::to_lowercase` computes it.
pub uninterp spec fn lowercase_text(text: Seq<char>) -> Seq<char>;

/// Calls `str::to_lowercase`, the Unicode lowercase mapping of `text`; that
/// mapping takes tables to state, so its result is named.
#[verifier::external_body]
pub(crate) fn to_lowercase(text: &str) -> (r: String)
    ensures
        r@ == lowercase_text(text@),
{
    text.to_lowercase()
}

/// Rust's `Debug` text of a string: the string in double quotes, with
/// quotes, backslashes and characters that are not printable escaped.
pub uninterp spec fn debug_quoted_text(text: Seq<char>) -> Seq<char>;

/// Calls `<str as Debug>::fmt` through `format!("{:?}", ..)`, which quotes
/// `text` and escapes it by Unicode printability tables, so its result is
/// named.
#[verifier::external_body]
pub(crate) fn debug_quoted(text: &str) -> (r: String)
    ensures
        r@ == debug_quoted_text(text@),
{
    format!("{:?}", text)
}

/// ASCII lowercase of one byte; other bytes are unchanged.
pub open spec fn ascii_lower(byte: u8) -> u8 {
    if 65 <= byte <= 90 {
        (byte + 32) as u8
    } else {
        byte
    }
}

/// Two byte strings are equal ignoring ASCII case.
pub open spec fn bytes_eq_ignore_ascii_case(a: Seq<u8>, b: Seq<u8>) -> bool {
    a.len() == b.len() && forall|i: int| 0 <= i < a.len() ==> ascii_lower(#[trigger] a[i])
        == ascii_lower(b[i])
}

/// Whether `a` and `b` are equal ignoring ASCII case, as
/// `str::eq_ignore_ascii_case` compares them.
pub fn eq_ignore_ascii_case(a: &str, b: &str) -> (r: bool)
    ensures
        r == bytes_eq_ignore_ascii_case(encode_utf8(a@), encode_utf8(b@)),
{
    let a_bytes = a.as_bytes();
    let b_bytes = b.as_bytes();
    if a_bytes.len() != b_bytes.len() {
        return false;
    }
    let mut index: usize = 0;
    while index < a_bytes.len()
        invariant
            a_bytes@ == encode_utf8(a@),
            b_bytes@ == encode_utf8(b@),
            a_bytes.len() == b_bytes.len(),
            index <= a_bytes.len(),
            forall|i: int| 0 <= i < index ==> ascii_lower(#[trigger] a_bytes@[i]) == ascii_lower(
                b_bytes@[i],
            ),
        decreases a_bytes.len() - index,
    {
        let x = a_bytes[index];
        let y = b_bytes[index];
        let lx = if 65 <= x && x <= 90 {
            x + 32
        } else {
            x
        };
        let ly = if 65 <= y && y <= 90 {
            y + 32
        } else {
            y
        };
        if lx != ly {
            return false;
        }
        index = index + 1;
    }
    true
}

/// `values` is strictly increasing.
pub open spec fn strictly_increasing(values: Seq<i32>) -> bool {
    forall|i: int, j: int| 0 <= i < j < values.len() ==> values[i] < values[j]
}

/// Inserts `value` into a strictly increasing vector, keeping it strictly
/// increasing and holding exactly its old values and `value`.
pub fn insert_sorted_unique(values: &mut Vec<i32>, value: i32)
    requires
        strictly_increasing(old(values)@),
    ensures
        strictly_increasing(final(values)@),
        forall|x: i32| #[trigger] final(values)@.contains(x) <==> (old(values)@.contains(x) || x
            == value),
{
    let mut index: usize = 0;
    while index < values.len()
        invariant
            index <= values@.len(),
            strictly_increasing(values@),
            values@ == old(values)@,
            forall|i: int| 0 <= i < index ==> values@[i] < value,
        ensures
            index <= values@.len(),
            strictly_increasing(values@),
            values@ == old(values)@,
            forall|i: int| 0 <= i < index ==> values@[i] < value,
            index < values@.len() ==> values@[index as int] > value,
        decreases values@.len() - index,
    {
        if values[index] == value {
            assert(values@.contains(value)) by {
                assert(values@[index as int] == value);
            }
            return;
        }
        if values[index] > value {
            break;
        }
        index = index + 1;
    }
    let ghost before = values@;
    values.insert(index, value);
    assert forall|i: int, j: int| 0 <= i < j < values@.len() implies values@[i] < values@[j] by {
        if j < index {
            assert(values@[i] == before[i] && values@[j] == before[j]);
        } else if j == index {
            assert(values@[i] == before[i]);
        } else if i < index {
            assert(values@[i] == before[i] && values@[j] == before[j - 1]);
            assert(before[index as int] > value);
            assert(before[i] < value);
        } else if i == index {
            assert(values@[j] == before[j - 1]);
            assert(before[index as int] > value);
        } else {
            assert(values@[i] == before[i - 1] && values@[j] == before[j - 1]);
        }
    }
    assert(before == old(values)@);
    assert forall|x: i32| #[trigger] values@.contains(x) <==> (before.contains(x) || x == value) by {
        if values@.contains(x) {
            let k = choose|k: int| 0 <= k < values@.len() && values@[k] == x;
            if k < index {
                assert(before[k] == x);
            } else if k > index {
                assert(before[k - 1] == x);
            }
        }
        if before.contains(x) {
            let k = choose|k: int| 0 <= k < before.len() && before[k] == x;
            if k < index {
                assert(values@[k] == x);
            } else {
                assert(values@[k + 1] == x);
            }
        }
        if x == value {
            assert(values@[index as int] == x);
        }
    }
}

/// Whether `c` is an ASCII decimal digit.
pub open spec fn is_digit_char(c: char) -> bool {
    '0' <= c <= '9'
}

/// Value of a run of decimal digit characters, most significant first.
pub open spec fn digits_value(digits: Seq<char>) -> nat
    decreases digits.len(),
{
    if digits.len() == 0 {
        0
    } else {
        digits_value(digits.drop_last()) * 10 + ((digits.last() as u32) - 48) as nat
    }
}

/// Decimal digits are digit characters, there is at least one, and their
/// value is the number they render.
pub proof fn lemma_decimal_digits(n: nat)
    ensures
        decimal_digits(n).len() >= 1,
        forall|i: int| 0 <= i < decimal_digits(n).len() ==> is_digit_char(#[trigger] decimal_digits(n)[i]),
        digits_value(decimal_digits(n)) == n,
    decreases n,
{
    assert((digit_char(n % 10) as u32) == 48 + n % 10);
    if n >= 10 {
        lemma_decimal_digits(n / 10);
        let prefix = decimal_digits(n / 10);
        assert(decimal_digits(n).drop_last() =~= prefix);
        vstd::arithmetic::div_mod::lemma_fundamental_div_mod(n as int, 10);
        assert(decimal_digits(n).last() == digit_char(n % 10));
        assert(digits_value(decimal_digits(n)) == digits_value(prefix) * 10 + n % 10);
        assert forall|i: int| 0 <= i < decimal_digits(n).len() implies is_digit_char(
            #[trigger] decimal_digits(n)[i],
        ) by {
            if i < prefix.len() {
                assert(decimal_digits(n)[i] == prefix[i]);
            }
        }
    } else {
        assert(n % 10 == n);
        assert(decimal_digits(n).drop_last() =~= Seq::<char>::empty());
        assert(digits_value(decimal_digits(n)) == digits_value(Seq::<char>::empty()) * 10 + n);
    }
}

/// The value of a prefix of a digit run never exceeds the value of the run.
pub proof fn lemma_digits_prefix_value(digits: Seq<char>, len: int)
    requires
        0 <= len <= digits.len(),
        forall|i: int| 0 <= i < digits.len() ==> is_digit_char(#[trigger] digits[i]),
    ensures
        digits_value(digits.take(len)) <= digits_value(digits),
    decreases digits.len(),
{
    if len < digits.len() {
        let shorter = digits.drop_last();
        assert forall|i: int| 0 <= i < shorter.len() implies is_digit_char(#[trigger] shorter[i]) by {
            assert(shorter[i] == digits[i]);
        }
        lemma_digits_prefix_value(shorter, len);
        assert(shorter.take(len) =~= digits.take(len));
    } else {
        assert(digits.take(len) =~= digits);
    }
}

/// The digits of an unsigned decimal text: an optional leading `+`, then the rest.
pub open spec fn unsigned_digits(text: Seq<char>) -> Seq<char> {
    if text.len() > 0 && text[0] == '+' {
        text.drop_first()
    } else {
        text
    }
}

/// The value of an unsigned decimal text as Rust's integer `FromStr` reads
/// it: an optional `+` and at least one ASCII digit, nothing else.
pub open spec fn unsigned_text_value(text: Seq<char>) -> Option<nat> {
    let digits = unsigned_digits(text);
    if digits.len() == 0 || exists|i: int| 0 <= i < digits.len() && !is_digit_char(#[trigger] digits[i]) {
        None
    } else {
        Some(digits_value(digits))
    }
}

/// Parses an unsigned decimal text whose value is at most `limit`.
pub fn parse_unsigned(text: &str, limit: u64) -> (r: Option<u64>)
    ensures
        r == match unsigned_text_value(text@) {
            Some(value) => if value <= limit {
                Some(value as u64)
            } else {
                None::<u64>
            },
            None => None::<u64>,
        },
{
    let count = text.unicode_len();
    let mut start: usize = 0;
    if count > 0 && text.get_char(0) == '+' {
        start = 1;
    }
    let ghost digits = unsigned_digits(text@);
    assert(digits =~= text@.subrange(start as int, count as int));
    if start == count {
        return None;
    }
    let mut index = start;
    let mut value: u64 = 0;
    while index < count
        invariant
            start <= index <= count,
            count == text@.len(),
            start < count,
            digits == text@.subrange(start as int, count as int),
            digits == unsigned_digits(text@),
            forall|i: int| start <= i < index ==> is_digit_char(#[trigger] text@[i]),
            value == digits_value(text@.subrange(start as int, index as int)),
            value <= limit,
        decreases count - index,
    {
        let c = text.get_char(index);
        if !('0' <= c && c <= '9') {
            assert(digits[index - start] == c);
            assert(!is_digit_char(digits[index - start]));
            return None;
        }
        let ghost next = text@.subrange(start as int, index + 1);
        assert(next.drop_last() =~= text@.subrange(start as int, index as int));
        let digit = (c as u32 - 48) as u64;
        let exceeds = match value.checked_mul(10) {
            Some(scaled) => match scaled.checked_add(digit) {
                Some(total) => total > limit,
                None => true,
            },
            None => true,
        };
        if exceeds {
            proof {
                assert(digits_value(next) == value * 10 + digit);
                assert(digits_value(next) > limit);
                if !(exists|i: int| 0 <= i < digits.len() && !is_digit_char(#[trigger] digits[i])) {
                    lemma_digits_prefix_value(digits, index + 1 - start);
                    assert(digits.take(index + 1 - start) =~= next);
                }
            }
            return None;
        }
        value = value * 10 + digit;
        index = index + 1;
    }
    Some(value)
}

} // verus!
