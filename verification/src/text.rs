//! Building blocks for texts: appending characters and decimal numerals.

use vstd::prelude::*;

verus! {

/// Appends one character to `out`.
///
/// Stands for `String::push` of the standard library, which adds the
/// character at the end and changes nothing else.
#[verifier::external_body]
pub(crate) fn push_char(out: &mut String, c: char)
    ensures
        final(out)@ == old(out)@.push(c),
{
    out.push(c);
}

/// The character that shows the decimal digit `d`.
pub open spec fn digit_char(d: int) -> char {
    if d == 0 {
        '0'
    } else if d == 1 {
        '1'
    } else if d == 2 {
        '2'
    } else if d == 3 {
        '3'
    } else if d == 4 {
        '4'
    } else if d == 5 {
        '5'
    } else if d == 6 {
        '6'
    } else if d == 7 {
        '7'
    } else if d == 8 {
        '8'
    } else {
        '9'
    }
}

/// The decimal numeral of `n`, without sign and without leading zeros.
pub open spec fn decimal(n: nat) -> Seq<char>
    decreases n,
{
    if n < 10 {
        seq![digit_char(n as int)]
    } else {
        decimal(n / 10).push(digit_char((n % 10) as int))
    }
}

/// The decimal numeral of `i`, with a leading `-` for a negative number.
pub open spec fn signed_decimal(i: int) -> Seq<char> {
    if i < 0 {
        seq!['-'] + decimal((-i) as nat)
    } else {
        decimal(i as nat)
    }
}

/// The character of one decimal digit.
pub fn digit_to_char(d: u8) -> (c: char)
    requires
        d < 10,
    ensures
        c == digit_char(d as int),
{
    (48u8 + d) as char
}

/// Appends the decimal numeral of `n` to `out`.
pub fn push_decimal(out: &mut String, n: u128)
    ensures
        final(out)@ == old(out)@ + decimal(n as nat),
    decreases n,
{
    if n >= 10 {
        push_decimal(out, n / 10);
    }
    push_char(out, digit_to_char((n % 10) as u8));
}

/// Appends the decimal numeral of `i` to `out`, with its sign if negative.
pub fn push_signed_decimal(out: &mut String, i: i128)
    ensures
        final(out)@ == old(out)@ + signed_decimal(i as int),
{
    if i < 0 {
        push_char(out, '-');
        let magnitude: u128 = if i == i128::MIN {
            170141183460469231731687303715884105728u128
        } else {
            (-i) as u128
        };
        push_decimal(out, magnitude);
    } else {
        push_decimal(out, i as u128);
    }
}

/// Appends `piece` to `out`.
pub fn push_text(out: &mut String, piece: &str)
    ensures
        final(out)@ == old(out)@ + piece@,
{
    out.append(piece);
}

/// Whether two texts hold the same characters.
pub fn same_text(a: &str, b: &str) -> (r: bool)
    ensures
        r == (a@ == b@),
{
    a.to_owned() == b.to_owned()
}

/// The characters of a text, one by one.
pub fn chars_of(s: &str) -> (v: Vec<char>)
    ensures
        v@ == s@,
{
    let mut v: Vec<char> = Vec::new();
    let chars = s.chars();
    for c in it: chars
        invariant
            it.seq() == s@,
            v@ == s@.take(it.index()),
    {
        v.push(c);
        assert(s@.take(it.index() + 1) == s@.take(it.index()).push(c));
    }
    assert(s@.take(s@.len() as int) == s@);
    v
}

/// Whether `a` stands before `b` in the dictionary order of their
/// characters: at the first place where they differ `a` has the smaller
/// character, or `a` ends there and `b` goes on.
pub open spec fn text_lt(a: Seq<char>, b: Seq<char>) -> bool
    decreases a.len(),
{
    if b.len() == 0 {
        false
    } else if a.len() == 0 {
        true
    } else if a[0] != b[0] {
        a[0] < b[0]
    } else {
        text_lt(a.drop_first(), b.drop_first())
    }
}

/// Whether `a` stands before `b` in the dictionary order or equals it.
pub open spec fn text_le(a: Seq<char>, b: Seq<char>) -> bool {
    !text_lt(b, a)
}

/// Of two texts at most one stands before the other.
pub proof fn lemma_text_lt_asymmetric(a: Seq<char>, b: Seq<char>)
    requires
        text_lt(a, b),
    ensures
        !text_lt(b, a),
    decreases a.len(),
{
    if a.len() > 0 && b.len() > 0 && a[0] == b[0] {
        lemma_text_lt_asymmetric(a.drop_first(), b.drop_first());
    }
}

/// The dictionary order is transitive.
pub proof fn lemma_text_le_transitive(a: Seq<char>, b: Seq<char>, c: Seq<char>)
    requires
        text_le(a, b),
        text_le(b, c),
    ensures
        text_le(a, c),
    decreases a.len(),
{
    if a.len() > 0 && b.len() > 0 && c.len() > 0 && a[0] == b[0] && b[0] == c[0] {
        lemma_text_le_transitive(a.drop_first(), b.drop_first(), c.drop_first());
    }
}

/// Of two different texts one stands before the other.
pub proof fn lemma_text_lt_total(a: Seq<char>, b: Seq<char>)
    requires
        a != b,
    ensures
        text_lt(a, b) || text_lt(b, a),
    decreases a.len(),
{
    if a.len() == 0 && b.len() == 0 {
        assert(a =~= b);
    } else if a.len() > 0 && b.len() > 0 && a[0] == b[0] {
        if a.drop_first() == b.drop_first() {
            assert(a =~= seq![a[0]] + a.drop_first());
            assert(b =~= seq![b[0]] + b.drop_first());
        }
        lemma_text_lt_total(a.drop_first(), b.drop_first());
    }
}

/// Whether `a` stands before `b` in the dictionary order.
pub fn comes_before(a: &str, b: &str) -> (r: bool)
    ensures
        r == text_lt(a@, b@),
{
    let x = chars_of(a);
    let y = chars_of(b);
    let mut i: usize = 0;
    assert(a@.skip(0) == a@ && b@.skip(0) == b@);
    while i < x.len() && i < y.len()
        invariant
            i <= x.len(),
            i <= y.len(),
            x@ == a@,
            y@ == b@,
            text_lt(a@, b@) == text_lt(a@.skip(i as int), b@.skip(i as int)),
        decreases x.len() - i,
    {
        assert(a@.skip(i as int).drop_first() == a@.skip(i + 1));
        assert(b@.skip(i as int).drop_first() == b@.skip(i + 1));
        if x[i] != y[i] {
            return x[i] < y[i];
        }
        i += 1;
    }
    i < y.len()
}

/// An outcome as its texts.
pub open spec fn text_result(r: Result<String, String>) -> Result<Seq<char>, Seq<char>> {
    match r {
        Ok(text) => Ok(text@),
        Err(text) => Err(text@),
    }
}

/// Whether `c` is one of the ten decimal digits.
pub open spec fn is_digit(c: char) -> bool {
    '0' <= c <= '9'
}

/// The number that a decimal digit stands for.
pub open spec fn digit_value(c: char) -> nat {
    (c as int - '0' as int) as nat
}

/// Whether a text is made of decimal digits alone.
pub open spec fn all_digits(s: Seq<char>) -> bool {
    forall|i: int| 0 <= i < s.len() ==> is_digit(#[trigger] s[i])
}

/// The number that a row of decimal digits stands for.
pub open spec fn digits_value(s: Seq<char>) -> nat
    decreases s.len(),
{
    if s.len() == 0 {
        0
    } else {
        digits_value(s.drop_last()) * 10 + digit_value(s.last())
    }
}

/// The number that a text stands for as a decimal numeral: one digit or
/// more, with `+` or `-` in front or without a sign, and nothing else.
pub open spec fn parsed_integer(s: Seq<char>) -> Option<int> {
    if s.len() > 0 && (s[0] == '-' || s[0] == '+') {
        if s.len() > 1 && all_digits(s.skip(1)) {
            if s[0] == '-' {
                Some(-(digits_value(s.skip(1)) as int))
            } else {
                Some(digits_value(s.skip(1)) as int)
            }
        } else {
            None
        }
    } else if s.len() > 0 && all_digits(s) {
        Some(digits_value(s) as int)
    } else {
        None
    }
}

/// The number that a text stands for, where it stands for one from `min`
/// to `max`.
pub open spec fn parsed_within(s: Seq<char>, min: int, max: int) -> Option<int> {
    match parsed_integer(s) {
        Some(value) => if min <= value <= max {
            Some(value)
        } else {
            None
        },
        None => None,
    }
}

/// A row of digits stands for no less than any of its beginnings.
pub proof fn lemma_digits_value_grows(s: Seq<char>, k: int)
    requires
        0 <= k <= s.len(),
    ensures
        digits_value(s.take(k)) <= digits_value(s),
    decreases s.len() - k,
{
    if k < s.len() {
        let more = s.take(k + 1);
        assert(more.drop_last() == s.take(k));
        lemma_digits_value_grows(s, k + 1);
    } else {
        assert(s.take(k) == s);
    }
}

/// Reads a row of decimal digits from the place `from` on, as far as the
/// number stays within `limit`.
fn read_digits(chars: &Vec<char>, from: usize, limit: u64) -> (value: Option<u64>)
    requires
        from <= chars.len(),
        limit <= 0x8000_0000_0000_0000,
    ensures
        value == if all_digits(chars@.skip(from as int)) && digits_value(chars@.skip(from as int))
            <= limit {
            Some(digits_value(chars@.skip(from as int)) as u64)
        } else {
            None
        },
{
    let ghost row = chars@.skip(from as int);
    let mut value: u64 = 0;
    let mut i: usize = from;
    assert(row.take(0) == Seq::<char>::empty());
    while i < chars.len()
        invariant
            from <= i <= chars.len(),
            row == chars@.skip(from as int),
            limit <= 0x8000_0000_0000_0000,
            all_digits(row.take(i - from)),
            value == digits_value(row.take(i - from)),
            value <= limit,
        decreases chars.len() - i,
    {
        let c = chars[i];
        proof {
            let more = row.take(i - from + 1);
            assert(more.drop_last() == row.take(i - from));
            assert(more.last() == c);
            assert(row[i - from] == c);
        }
        if c < '0' || c > '9' {
            return None;
        }
        let digit = (c as u32 - '0' as u32) as u64;
        let next: u128 = value as u128 * 10 + digit as u128;
        proof {
            let more = row.take(i - from + 1);
            assert(all_digits(more)) by {
                assert forall|j: int| 0 <= j < more.len() implies is_digit(#[trigger] more[j]) by {
                    if j < i - from {
                        assert(more[j] == row.take(i - from)[j]);
                    }
                }
            }
            assert(next == digits_value(more));
        }
        if next > limit as u128 {
            proof {
                lemma_digits_value_grows(row, i - from + 1);
            }
            return None;
        }
        value = next as u64;
        i += 1;
    }
    assert(row.take(row.len() as int) == row);
    Some(value)
}

/// Reads a decimal numeral that stands for a number from `min` to `max`:
/// one digit or more, with `+` or `-` in front or without a sign. Any other
/// text, and a numeral outside that range, is refused.
pub fn parse_within(s: &str, min: i64, max: i64) -> (value: Option<i64>)
    ensures
        value == match parsed_within(s@, min as int, max as int) {
            Some(number) => Some(number as i64),
            None => None,
        },
{
    let chars = chars_of(s);
    if chars.len() == 0 {
        return None;
    }
    let signed = chars[0] == '-' || chars[0] == '+';
    let from: usize = if signed {
        1
    } else {
        0
    };
    if from == chars.len() {
        return None;
    }
    assert(chars@.skip(0) == chars@);
    match read_digits(&chars, from, 0x8000_0000_0000_0000) {
        None => {
            proof {
                if all_digits(chars@.skip(from as int)) {
                    assert(digits_value(chars@.skip(from as int)) > 0x8000_0000_0000_0000);
                }
            }
            None
        },
        Some(magnitude) => {
            let number: i128 = if chars[0] == '-' {
                -(magnitude as i128)
            } else {
                magnitude as i128
            };
            if min as i128 <= number && number <= max as i128 {
                Some(number as i64)
            } else {
                None
            }
        },
    }
}

} // verus!
