//! Text as the configuration format reads it: UTF-8 bytes, white space,
//! names that match without regard to case, and decimal numbers.

use vstd::prelude::*;
use vstd::slice::slice_subrange;

verus! {

/// One-byte white space: tab to carriage return, and the space.
pub open spec fn is_space_1(a: u8) -> bool {
    (0x09 <= a && a <= 0x0D) || a == 0x20
}

/// Two-byte white space: next line and no-break space.
pub open spec fn is_space_2(a: u8, b: u8) -> bool {
    a == 0xC2 && (b == 0x85 || b == 0xA0)
}

/// Three-byte white space: the Ogham space mark, the spaces of general
/// punctuation, the two separators, the narrow and the medium mathematical
/// space, and the ideographic space.
pub open spec fn is_space_3(a: u8, b: u8, c: u8) -> bool {
    ||| (a == 0xE1 && b == 0x9A && c == 0x80)
    ||| (a == 0xE2 && b == 0x80 && ((0x80 <= c && c <= 0x8A) || c == 0xA8 || c == 0xA9 || c
        == 0xAF))
    ||| (a == 0xE2 && b == 0x81 && c == 0x9F)
    ||| (a == 0xE3 && b == 0x80 && c == 0x80)
}

/// Length of the white-space character that starts at `i`, zero if none does.
pub open spec fn space_len_at(bytes: Seq<u8>, i: int) -> int {
    if i < 0 || i >= bytes.len() {
        0
    } else if is_space_1(bytes[i]) {
        1
    } else if i + 1 < bytes.len() && is_space_2(bytes[i], bytes[i + 1]) {
        2
    } else if i + 2 < bytes.len() && is_space_3(bytes[i], bytes[i + 1], bytes[i + 2]) {
        3
    } else {
        0
    }
}

/// Length of the white-space character that ends just before `j` and starts
/// at `lo` or later, zero if none does.
pub open spec fn space_len_before(bytes: Seq<u8>, lo: int, j: int) -> int {
    if lo < 0 || j > bytes.len() {
        0
    } else if j - 1 >= lo && is_space_1(bytes[j - 1]) {
        1
    } else if j - 2 >= lo && is_space_2(bytes[j - 2], bytes[j - 1]) {
        2
    } else if j - 3 >= lo && is_space_3(bytes[j - 3], bytes[j - 2], bytes[j - 1]) {
        3
    } else {
        0
    }
}

/// First index at or after `i` at which no white space starts.
pub open spec fn spaces_end(bytes: Seq<u8>, i: int) -> int
    decreases bytes.len() - i,
{
    if space_len_at(bytes, i) > 0 {
        spaces_end(bytes, i + space_len_at(bytes, i))
    } else {
        i
    }
}

/// Start of the white space that ends `bytes[lo..j]`.
pub open spec fn spaces_start(bytes: Seq<u8>, lo: int, j: int) -> int
    decreases j,
{
    if space_len_before(bytes, lo, j) > 0 {
        spaces_start(bytes, lo, j - space_len_before(bytes, lo, j))
    } else {
        j
    }
}

/// `bytes` without the white space at its two ends.
pub open spec fn trimmed(bytes: Seq<u8>) -> Seq<u8> {
    let start = spaces_end(bytes, 0);
    bytes.subrange(start, spaces_start(bytes, start, bytes.len() as int))
}

/// First index at or after `i` that does not hold `mark`, or the length.
pub open spec fn run_end(bytes: Seq<u8>, mark: u8, i: int) -> int
    decreases bytes.len() - i,
{
    if 0 <= i && i < bytes.len() && bytes[i] == mark {
        run_end(bytes, mark, i + 1)
    } else {
        i
    }
}

/// Start of the run of `mark` that ends `bytes[..j]`.
pub open spec fn run_start(bytes: Seq<u8>, mark: u8, j: int) -> int
    decreases j,
{
    if 0 < j && j <= bytes.len() && bytes[j - 1] == mark {
        run_start(bytes, mark, j - 1)
    } else {
        j
    }
}

/// `bytes` without the run of `mark` that it starts with.
pub open spec fn without_leading(bytes: Seq<u8>, mark: u8) -> Seq<u8> {
    bytes.subrange(run_end(bytes, mark, 0), bytes.len() as int)
}

/// `bytes` without the run of `mark` that it ends with.
pub open spec fn without_trailing(bytes: Seq<u8>, mark: u8) -> Seq<u8> {
    bytes.subrange(0, run_start(bytes, mark, bytes.len() as int))
}

/// First index at or after `i` that holds `mark`, or the length.
pub open spec fn index_of(bytes: Seq<u8>, mark: u8, i: int) -> int
    decreases bytes.len() - i,
{
    if 0 <= i && i < bytes.len() && bytes[i] != mark {
        index_of(bytes, mark, i + 1)
    } else {
        i
    }
}

/// First index at or after `i` at which a space and a `#` follow one
/// another, or the length.
pub open spec fn comment_start(bytes: Seq<u8>, i: int) -> int
    decreases bytes.len() - i,
{
    if 0 <= i && i < bytes.len() && !(i + 1 < bytes.len() && bytes[i] == 0x20 && bytes[i + 1]
        == 0x23) {
        comment_start(bytes, i + 1)
    } else {
        i
    }
}

/// An upper-case ASCII letter as its lower-case one; any other byte as it is.
pub open spec fn ascii_lower(a: u8) -> u8 {
    if 0x41 <= a && a <= 0x5A {
        (a + 0x20) as u8
    } else {
        a
    }
}

/// The Kelvin sign, the one character outside ASCII whose lower case is an
/// ASCII letter: `k`.
pub open spec fn kelvin_at(text: Seq<u8>, i: int) -> bool {
    0 <= i && i + 2 < text.len() && text[i] == 0xE2 && text[i + 1] == 0x84 && text[i + 2] == 0xAA
}

/// Whether `text` from `i` on, put in lower case, is `name` from `k` on.
/// `name` is lower-case ASCII.
pub open spec fn lower_matches_from(text: Seq<u8>, i: int, name: Seq<u8>, k: int) -> bool
    decreases name.len() - k,
{
    if k < 0 || k >= name.len() {
        i == text.len()
    } else if 0 <= i && i < text.len() && ascii_lower(text[i]) == name[k] {
        lower_matches_from(text, i + 1, name, k + 1)
    } else if name[k] == 0x6B && kelvin_at(text, i) {
        lower_matches_from(text, i + 3, name, k + 1)
    } else {
        false
    }
}

/// Whether `text` put in lower case is `name`.
pub open spec fn lower_matches(text: Seq<u8>, name: Seq<u8>) -> bool {
    lower_matches_from(text, 0, name, 0)
}

pub open spec fn is_digit(a: u8) -> bool {
    0x30 <= a && a <= 0x39
}

pub open spec fn all_digits(digits: Seq<u8>) -> bool {
    forall|i: int| 0 <= i < digits.len() ==> is_digit(#[trigger] digits[i])
}

/// The number that decimal digits write.
pub open spec fn digits_value(digits: Seq<u8>) -> nat
    decreases digits.len(),
{
    if digits.len() == 0 {
        0
    } else {
        digits_value(digits.drop_last()) * 10 + (digits.last() - 0x30) as nat
    }
}

/// The number that `digits` write, where they are one digit or more and the
/// number is `limit` at most.
pub open spec fn digits_upto(digits: Seq<u8>, limit: nat) -> Option<nat> {
    if digits.len() > 0 && all_digits(digits) && digits_value(digits) <= limit {
        Some(digits_value(digits))
    } else {
        None
    }
}

/// An unsigned decimal number: digits, with or without a plus sign ahead.
pub open spec fn unsigned_of(text: Seq<u8>, limit: nat) -> Option<nat> {
    if text.len() > 0 && text[0] == 0x2B {
        digits_upto(text.skip(1), limit)
    } else {
        digits_upto(text, limit)
    }
}

/// A signed 32-bit decimal number: digits, with or without a sign ahead.
pub open spec fn signed_of(text: Seq<u8>) -> Option<int> {
    if text.len() > 0 && text[0] == 0x2D {
        match digits_upto(text.skip(1), 0x8000_0000) {
            Some(value) => Some(-(value as int)),
            None => None,
        }
    } else {
        match unsigned_of(text, 0x7FFF_FFFF) {
            Some(value) => Some(value as int),
            None => None,
        }
    }
}

fn space_at(bytes: &[u8], i: usize) -> (len: usize)
    ensures
        len == space_len_at(bytes@, i as int),
{
    let n: usize = bytes.len();
    if i >= n {
        return 0;
    }
    let a: u8 = bytes[i];
    if (0x09 <= a && a <= 0x0D) || a == 0x20 {
        return 1;
    }
    if n - i > 1 {
        let b: u8 = bytes[i + 1];
        if a == 0xC2 && (b == 0x85 || b == 0xA0) {
            return 2;
        }
        if n - i > 2 {
            let c: u8 = bytes[i + 2];
            if three_byte_space(a, b, c) {
                return 3;
            }
        }
    }
    0
}

fn three_byte_space(a: u8, b: u8, c: u8) -> (yes: bool)
    ensures
        yes == is_space_3(a, b, c),
{
    (a == 0xE1 && b == 0x9A && c == 0x80) || (a == 0xE2 && b == 0x80 && ((0x80 <= c && c <= 0x8A)
        || c == 0xA8 || c == 0xA9 || c == 0xAF)) || (a == 0xE2 && b == 0x81 && c == 0x9F) || (a
        == 0xE3 && b == 0x80 && c == 0x80)
}

fn space_before(bytes: &[u8], lo: usize, j: usize) -> (len: usize)
    requires
        j <= bytes@.len(),
    ensures
        len == space_len_before(bytes@, lo as int, j as int),
        len <= j - lo || len == 0,
{
    if j <= lo {
        return 0;
    }
    let c: u8 = bytes[j - 1];
    if (0x09 <= c && c <= 0x0D) || c == 0x20 {
        return 1;
    }
    if j - lo >= 2 {
        let b: u8 = bytes[j - 2];
        if b == 0xC2 && (c == 0x85 || c == 0xA0) {
            return 2;
        }
        if j - lo >= 3 {
            let a: u8 = bytes[j - 3];
            if three_byte_space(a, b, c) {
                return 3;
            }
        }
    }
    0
}

/// Takes the white space off both ends.
pub fn trim(bytes: &[u8]) -> (inner: &[u8])
    ensures
        inner@ == trimmed(bytes@),
{
    let n: usize = bytes.len();
    let mut start: usize = 0;
    loop
        invariant
            start <= n,
            n == bytes@.len(),
            spaces_end(bytes@, 0) == spaces_end(bytes@, start as int),
        ensures
            spaces_end(bytes@, 0) == start,
        decreases n - start,
    {
        let k: usize = space_at(bytes, start);
        if k == 0 {
            break ;
        }
        start = start + k;
    }
    let mut end: usize = n;
    loop
        invariant
            start <= end <= n,
            n == bytes@.len(),
            spaces_start(bytes@, start as int, n as int) == spaces_start(
                bytes@,
                start as int,
                end as int,
            ),
        ensures
            spaces_start(bytes@, start as int, n as int) == end,
        decreases end,
    {
        let k: usize = space_before(bytes, start, end);
        if k == 0 {
            break ;
        }
        end = end - k;
    }
    slice_subrange(bytes, start, end)
}

/// Takes off every `mark` that `bytes` starts with.
pub fn strip_leading(bytes: &[u8], mark: u8) -> (rest: &[u8])
    ensures
        rest@ == without_leading(bytes@, mark),
{
    let n: usize = bytes.len();
    let mut start: usize = 0;
    while start < n && bytes[start] == mark
        invariant
            start <= n,
            n == bytes@.len(),
            run_end(bytes@, mark, 0) == run_end(bytes@, mark, start as int),
        decreases n - start,
    {
        start = start + 1;
    }
    slice_subrange(bytes, start, n)
}

/// Takes off every `mark` that `bytes` ends with.
pub fn strip_trailing(bytes: &[u8], mark: u8) -> (rest: &[u8])
    ensures
        rest@ == without_trailing(bytes@, mark),
{
    let n: usize = bytes.len();
    let mut end: usize = n;
    while end > 0 && bytes[end - 1] == mark
        invariant
            end <= n,
            n == bytes@.len(),
            run_start(bytes@, mark, n as int) == run_start(bytes@, mark, end as int),
        decreases end,
    {
        end = end - 1;
    }
    slice_subrange(bytes, 0, end)
}

/// Finds the first `mark` at or after `from`.
pub fn find_byte(bytes: &[u8], mark: u8, from: usize) -> (at: usize)
    ensures
        at == index_of(bytes@, mark, from as int),
        from <= at,
        from <= bytes@.len() ==> at <= bytes@.len(),
        at < bytes@.len() ==> bytes@[at as int] == mark,
{
    let n: usize = bytes.len();
    let mut at: usize = from;
    while at < n && bytes[at] != mark
        invariant
            from <= at,
            from <= n ==> at <= n,
            n == bytes@.len(),
            index_of(bytes@, mark, from as int) == index_of(bytes@, mark, at as int),
        decreases n - at,
    {
        at = at + 1;
    }
    at
}

/// Finds where a comment starts: the first space that a `#` follows.
pub fn find_comment(bytes: &[u8]) -> (at: usize)
    ensures
        at == comment_start(bytes@, 0),
        at <= bytes@.len(),
{
    let n: usize = bytes.len();
    let mut at: usize = 0;
    while at < n && !(n - at > 1 && bytes[at] == 0x20 && bytes[at + 1] == 0x23)
        invariant
            at <= n,
            n == bytes@.len(),
            comment_start(bytes@, 0) == comment_start(bytes@, at as int),
        decreases n - at,
    {
        at = at + 1;
    }
    at
}

/// Whether `text` put in lower case is `name`, which is lower-case ASCII.
pub fn matches_name(text: &[u8], name: &[u8]) -> (yes: bool)
    ensures
        yes == lower_matches(text@, name@),
{
    let n: usize = text.len();
    let m: usize = name.len();
    let mut i: usize = 0;
    let mut k: usize = 0;
    while k < m
        invariant
            i <= n,
            k <= m,
            n == text@.len(),
            m == name@.len(),
            lower_matches(text@, name@) == lower_matches_from(text@, i as int, name@, k as int),
        decreases m - k,
    {
        let want: u8 = name[k];
        if i < n && lower_byte(text[i]) == want {
            i = i + 1;
        } else if want == 0x6B && n - i > 2 && text[i] == 0xE2 && text[i + 1] == 0x84 && text[i
            + 2] == 0xAA {
            i = i + 3;
        } else {
            return false;
        }
        k = k + 1;
    }
    i == n
}

fn lower_byte(a: u8) -> (lower: u8)
    ensures
        lower == ascii_lower(a),
{
    if 0x41 <= a && a <= 0x5A {
        a + 0x20
    } else {
        a
    }
}

/// A longer run of digits writes no smaller number.
proof fn lemma_digits_value_grows(digits: Seq<u8>, shorter: int)
    requires
        0 <= shorter <= digits.len(),
    ensures
        digits_value(digits.take(shorter)) <= digits_value(digits),
    decreases digits.len(),
{
    if shorter == digits.len() {
        assert(digits.take(shorter) =~= digits);
    } else {
        lemma_digits_value_grows(digits.drop_last(), shorter);
        assert(digits.drop_last().take(shorter) =~= digits.take(shorter));
    }
}

/// Reads the digits from `from` to the end as a number of `limit` at most.
fn read_digits(bytes: &[u8], from: usize, limit: u64) -> (value: Option<u64>)
    requires
        from <= bytes@.len(),
    ensures
        value.is_some() == digits_upto(bytes@.skip(from as int), limit as nat).is_some(),
        value.is_some() ==> value.unwrap() == digits_upto(
            bytes@.skip(from as int),
            limit as nat,
        ).unwrap(),
{
    let n: usize = bytes.len();
    let ghost digits = bytes@.skip(from as int);
    if from == n {
        return None;
    }
    let mut value: u64 = 0;
    let mut i: usize = from;
    while i < n
        invariant
            from <= i <= n,
            n == bytes@.len(),
            digits == bytes@.skip(from as int),
            all_digits(digits.take(i - from)),
            value == digits_value(digits.take(i - from)),
            value <= limit,
        decreases n - i,
    {
        let a: u8 = bytes[i];
        if !(0x30 <= a && a <= 0x39) {
            assert(!is_digit(digits[i - from]));
            return None;
        }
        let next: u128 = value as u128 * 10 + (a - 0x30) as u128;
        proof {
            assert(digits.take(i + 1 - from).drop_last() =~= digits.take(i - from));
            assert(digits.take(i + 1 - from).last() == a);
            assert(next == digits_value(digits.take(i + 1 - from)));
            assert forall|j: int| 0 <= j < i + 1 - from implies is_digit(
                #[trigger] digits.take(i + 1 - from)[j],
            ) by {
                if j < i - from {
                    assert(digits.take(i - from)[j] == digits[j]);
                }
            }
        }
        if next > limit as u128 {
            proof {
                if all_digits(digits) {
                    lemma_digits_value_grows(digits, i + 1 - from);
                }
            }
            return None;
        }
        value = next as u64;
        i = i + 1;
    }
    assert(digits.take(n - from) =~= digits);
    Some(value)
}

/// Reads an unsigned decimal number of `limit` at most.
pub fn parse_unsigned(text: &[u8], limit: u64) -> (value: Option<u64>)
    ensures
        value.is_some() == unsigned_of(text@, limit as nat).is_some(),
        value.is_some() ==> value.unwrap() == unsigned_of(text@, limit as nat).unwrap(),
{
    if text.len() > 0 && text[0] == 0x2B {
        read_digits(text, 1, limit)
    } else {
        assert(text@.skip(0) =~= text@);
        read_digits(text, 0, limit)
    }
}

/// Reads a signed 32-bit decimal number.
pub fn parse_signed(text: &[u8]) -> (value: Option<i32>)
    ensures
        value.is_some() == signed_of(text@).is_some(),
        value.is_some() ==> value.unwrap() == signed_of(text@).unwrap(),
{
    if text.len() > 0 && text[0] == 0x2D {
        match read_digits(text, 1, 0x8000_0000) {
            Some(magnitude) => {
                let wide: i64 = -(magnitude as i64);
                Some(wide as i32)
            },
            None => None,
        }
    } else {
        match parse_unsigned(text, 0x7FFF_FFFF) {
            Some(value) => Some(value as i32),
            None => None,
        }
    }
}

} // verus!
