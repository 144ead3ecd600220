//! Text as sequences of characters: comparing, splitting, trimming, decimal
//! numbers.

use vstd::prelude::*;

verus! {

/// `String::push` appends one character.
pub assume_specification[ String::push ](s: &mut String, ch: char)
    ensures
        final(s)@ == old(s)@.push(ch),
;

/// The characters of a string.
pub fn chars_of(s: &str) -> (chars: Vec<char>)
    ensures
        chars@ == s@,
{
    let mut chars: Vec<char> = Vec::new();
    for c in it: s.chars()
        invariant
            chars@ == it.seq().take(it.index()),
            it.seq() == s@,
    {
        chars.push(c);
    }
    chars
}

/// The string made of the characters.
pub fn string_of(chars: &[char]) -> (s: String)
    ensures
        s@ == chars@,
{
    let mut s = String::new();
    let mut i: usize = 0;
    while i < chars.len()
        invariant
            i <= chars@.len(),
            s@ == chars@.take(i as int),
        decreases chars@.len() - i,
    {
        s.push(chars[i]);
        i = i + 1;
    }
    s
}

/// Whether two texts are the same.
pub fn same_text(a: &str, b: &str) -> (same: bool)
    ensures
        same == (a@ == b@),
{
    a.to_owned() == b.to_owned()
}

/// `a` followed by `b`.
pub fn joined(a: &str, b: &str) -> (s: String)
    ensures
        s@ == a@ + b@,
{
    let mut s = a.to_owned();
    s.append(b);
    s
}

/// `before`, then `middle`, then `after`.
pub fn around(before: &str, middle: &str, after: &str) -> (s: String)
    ensures
        s@ == before@ + middle@ + after@,
{
    let mut s = before.to_owned();
    s.append(middle);
    s.append(after);
    s
}

/// A copy of a list of texts.
pub fn copy_texts(texts: &[String]) -> (copy: Vec<String>)
    ensures
        copy@ == texts@,
{
    let mut copy: Vec<String> = Vec::new();
    let mut i: usize = 0;
    while i < texts.len()
        invariant
            i <= texts@.len(),
            copy@ == texts@.take(i as int),
        decreases texts@.len() - i,
    {
        copy.push(texts[i].clone());
        i = i + 1;
    }
    copy
}

/// Where `text` first stands in `texts`.
pub open spec fn first_position(texts: Seq<String>, text: Seq<char>) -> Option<int>
    decreases texts.len(),
{
    if texts.len() == 0 {
        None
    } else if texts[0]@ == text {
        Some(0)
    } else {
        match first_position(texts.skip(1), text) {
            Some(i) => Some(i + 1),
            None => None,
        }
    }
}

/// The first position is the least index that holds the text, if one does.
pub proof fn first_position_is_least(texts: Seq<String>, text: Seq<char>)
    ensures
        match first_position(texts, text) {
            Some(i) => 0 <= i < texts.len() && texts[i]@ == text && forall|j: int|
                0 <= j < i ==> (#[trigger] texts[j])@ != text,
            None => forall|j: int| 0 <= j < texts.len() ==> (#[trigger] texts[j])@ != text,
        },
    decreases texts.len(),
{
    if texts.len() > 0 && texts[0]@ != text {
        let rest = texts.skip(1);
        first_position_is_least(rest, text);
        assert forall|j: int| 0 < j < texts.len() implies #[trigger] texts[j] == rest[j - 1] by {}
    }
}

/// The index of the first element of `texts` that equals `text`.
pub fn position_of(texts: &[String], text: &str) -> (position: Option<usize>)
    ensures
        match position {
            Some(i) => first_position(texts@, text@) == Some(i as int),
            None => first_position(texts@, text@) is None,
        },
        position matches Some(i) ==> i < texts@.len() && texts@[i as int]@ == text@,
{
    proof {
        first_position_is_least(texts@, text@);
    }
    let mut i: usize = 0;
    while i < texts.len()
        invariant
            i <= texts@.len(),
            forall|j: int| 0 <= j < i ==> (#[trigger] texts@[j])@ != text@,
            match first_position(texts@, text@) {
                Some(k) => 0 <= k < texts@.len() && texts@[k]@ == text@ && forall|j: int|
                    0 <= j < k ==> (#[trigger] texts@[j])@ != text@,
                None => forall|j: int| 0 <= j < texts@.len() ==> (#[trigger] texts@[j])@ != text@,
            },
        decreases texts@.len() - i,
    {
        if same_text(texts[i].as_str(), text) {
            return Some(i);
        }
        i = i + 1;
    }
    None
}

// ---- splitting --------------------------------------------------------------

/// `text` starts with `prefix`.
pub open spec fn has_prefix(text: Seq<char>, prefix: Seq<char>) -> bool {
    prefix.len() <= text.len() && text.take(prefix.len() as int) == prefix
}

/// `text` ends with `suffix`.
pub open spec fn has_suffix(text: Seq<char>, suffix: Seq<char>) -> bool {
    suffix.len() <= text.len() && text.skip(text.len() - suffix.len()) == suffix
}

pub fn starts_with(text: &str, prefix: &str) -> (r: bool)
    ensures
        r == has_prefix(text@, prefix@),
{
    let n: usize = prefix.unicode_len();
    n <= text.unicode_len() && same_text(text.substring_char(0, n), prefix)
}

pub fn ends_with(text: &str, suffix: &str) -> (r: bool)
    ensures
        r == has_suffix(text@, suffix@),
{
    let n: usize = suffix.unicode_len();
    let len: usize = text.unicode_len();
    n <= len && same_text(text.substring_char(len - n, len), suffix)
}

/// What follows `prefix`, where `text` starts with it.
pub fn strip_prefix<'a>(text: &'a str, prefix: &str) -> (rest: Option<&'a str>)
    ensures
        rest is Some == has_prefix(text@, prefix@),
        rest matches Some(r) ==> r@ == text@.skip(prefix@.len() as int),
{
    if starts_with(text, prefix) {
        Some(text.substring_char(prefix.unicode_len(), text.unicode_len()))
    } else {
        None
    }
}

/// The index of the first `c` in `text`, or the text's length where there is none.
pub open spec fn first_index(text: Seq<char>, c: char) -> int
    decreases text.len(),
{
    if text.len() == 0 || text[0] == c {
        0
    } else {
        1 + first_index(text.skip(1), c)
    }
}

pub proof fn first_index_is_least(text: Seq<char>, c: char)
    ensures
        0 <= first_index(text, c) <= text.len(),
        first_index(text, c) < text.len() ==> text[first_index(text, c)] == c,
        forall|j: int| 0 <= j < first_index(text, c) ==> text[j] != c,
    decreases text.len(),
{
    if text.len() > 0 && text[0] != c {
        let rest = text.skip(1);
        first_index_is_least(rest, c);
        assert forall|j: int| 0 < j < text.len() implies text[j] == rest[j - 1] by {}
    }
}

/// The index of the first `c`, counted in characters.
pub fn find_char(text: &str, c: char) -> (index: Option<usize>)
    ensures
        match index {
            Some(i) => i == first_index(text@, c) && i < text@.len(),
            None => first_index(text@, c) == text@.len(),
        },
{
    let chars = chars_of(text);
    proof {
        first_index_is_least(text@, c);
    }
    let mut i: usize = 0;
    while i < chars.len()
        invariant
            i <= chars@.len(),
            chars@ == text@,
            0 <= first_index(text@, c) <= text@.len(),
            first_index(text@, c) < text@.len() ==> text@[first_index(text@, c)] == c,
            forall|j: int| 0 <= j < first_index(text@, c) ==> text@[j] != c,
            forall|j: int| 0 <= j < i ==> text@[j] != c,
        decreases chars@.len() - i,
    {
        if chars[i] == c {
            return Some(i);
        }
        i = i + 1;
    }
    None
}

/// The two sides of the first `c`, where there is one.
pub fn split_once<'a>(text: &'a str, c: char) -> (sides: Option<(&'a str, &'a str)>)
    ensures
        sides is Some == (first_index(text@, c) < text@.len()),
        sides matches Some((left, right)) ==> left@ == text@.take(first_index(text@, c))
            && right@ == text@.skip(first_index(text@, c) + 1),
{
    match find_char(text, c) {
        Some(i) => {
            let n: usize = text.unicode_len();
            let left = text.substring_char(0, i);
            let right = text.substring_char(i + 1, n);
            Some((left, right))
        },
        None => {
            proof {
                first_index_is_least(text@, c);
            }
            None
        },
    }
}

// ---- decimal numbers --------------------------------------------------------

pub open spec fn is_digit(c: char) -> bool {
    '0' <= c && c <= '9'
}

pub open spec fn digit_value(c: char) -> nat {
    if is_digit(c) {
        (c as u32 - '0' as u32) as nat
    } else {
        0
    }
}

pub open spec fn digit_char(d: nat) -> char {
    (48 + d) as u8 as char
}

/// The number in decimal, without sign or leading zeros.
pub open spec fn decimal(n: nat) -> Seq<char>
    decreases n,
{
    if n < 10 {
        seq![digit_char(n)]
    } else {
        decimal(n / 10).push(digit_char(n % 10))
    }
}

/// The value of a run of decimal digits.
pub open spec fn decimal_value(digits: Seq<char>) -> nat
    decreases digits.len(),
{
    if digits.len() == 0 {
        0
    } else {
        10 * decimal_value(digits.drop_last()) + digit_value(digits.last())
    }
}

pub open spec fn all_digits(text: Seq<char>) -> bool {
    forall|i: int| 0 <= i < text.len() ==> is_digit(#[trigger] text[i])
}

/// The unsigned number a text stands for: an optional `+`, then one or more digits,
/// with a value of at most `max`.
pub open spec fn unsigned_value(text: Seq<char>, max: nat) -> Option<nat> {
    let digits = if text.len() > 0 && text[0] == '+' {
        text.skip(1)
    } else {
        text
    };
    if digits.len() > 0 && all_digits(digits) && decimal_value(digits) <= max {
        Some(decimal_value(digits))
    } else {
        None
    }
}

/// `n` in decimal.
pub fn decimal_text(n: u64) -> (s: String)
    ensures
        s@ == decimal(n as nat),
    decreases n,
{
    let digit: char = (48 + (n % 10) as u8) as char;
    if n < 10 {
        let mut s = String::new();
        s.push(digit);
        assert(s@ =~= decimal(n as nat));
        s
    } else {
        let mut s = decimal_text(n / 10);
        s.push(digit);
        s
    }
}

proof fn decimal_value_grows(digits: Seq<char>, k: int)
    requires
        0 <= k <= digits.len(),
    ensures
        decimal_value(digits.take(k)) <= decimal_value(digits),
    decreases digits.len(),
{
    if k < digits.len() {
        decimal_value_grows(digits.drop_last(), k);
        assert(digits.drop_last().take(k) =~= digits.take(k));
    } else {
        assert(digits.take(k) =~= digits);
    }
}

/// Parse an unsigned decimal number of at most `max`.
pub fn parse_unsigned(text: &str, max: u64) -> (value: Option<u64>)
    ensures
        match value {
            Some(v) => unsigned_value(text@, max as nat) == Some(v as nat),
            None => unsigned_value(text@, max as nat) is None,
        },
{
    let chars = chars_of(text);
    let start: usize = if chars.len() > 0 && chars[0] == '+' {
        1
    } else {
        0
    };
    let ghost digits = text@.skip(start as int);
    assert(start == 0 ==> digits =~= text@);
    if chars.len() == start {
        return None;
    }
    let mut value: u64 = 0;
    let mut i: usize = start;
    assert(digits.take(0) =~= Seq::<char>::empty());
    while i < chars.len()
        invariant
            start <= i <= chars@.len(),
            start < chars@.len(),
            chars@ == text@,
            digits == text@.skip(start as int),
            start == 1 <==> (text@.len() > 0 && text@[0] == '+'),
            start <= 1,
            value == decimal_value(digits.take(i - start)),
            value <= max,
            forall|j: int| 0 <= j < i - start ==> is_digit(#[trigger] digits[j]),
        decreases chars@.len() - i,
    {
        let c: char = chars[i];
        assert(digits[i - start] == c);
        if !('0' <= c && c <= '9') {
            assert(!is_digit(digits[i - start]));
            assert(start == 0 ==> digits =~= text@);
            return None;
        }
        let d: u64 = (c as u32 - '0' as u32) as u64;
        proof {
            assert(digits.take(i - start + 1).drop_last() =~= digits.take(i - start));
            decimal_value_grows(digits, i - start + 1);
            assert(start == 0 ==> digits =~= text@);
        }
        if value > max / 10 || d > max || 10 * value > max - d {
            return None;
        }
        value = 10 * value + d;
        i = i + 1;
    }
    assert(digits.take(digits.len() as int) =~= digits);
    assert(start == 0 ==> digits =~= text@);
    Some(value)
}

/// Parse a `u32` written in decimal.
pub fn parse_u32(text: &str) -> (value: Option<u32>)
    ensures
        match value {
            Some(v) => unsigned_value(text@, u32::MAX as nat) == Some(v as nat),
            None => unsigned_value(text@, u32::MAX as nat) is None,
        },
{
    match parse_unsigned(text, u32::MAX as u64) {
        Some(v) => Some(v as u32),
        None => None,
    }
}

/// A number in decimal is a run of digits, and they stand for the number.
pub proof fn decimal_is_digits(n: nat)
    ensures
        decimal(n).len() > 0,
        all_digits(decimal(n)),
        decimal_value(decimal(n)) == n,
    decreases n,
{
    let d = n % 10;
    assert(is_digit(digit_char(d)) && digit_value(digit_char(d)) == d);
    if n < 10 {
        assert(decimal(n).drop_last() =~= Seq::<char>::empty());
        assert(decimal_value(Seq::<char>::empty()) == 0);
    } else {
        decimal_is_digits(n / 10);
        assert(decimal(n).drop_last() =~= decimal(n / 10));
    }
}

/// Reading a number back from its decimal text gives the number.
pub proof fn decimal_round_trip(n: nat, max: nat)
    requires
        n <= max,
    ensures
        unsigned_value(decimal(n), max) == Some(n),
{
    decimal_is_digits(n);
}

/// Different numbers have different decimal texts.
pub proof fn decimal_is_injective(a: nat, b: nat)
    requires
        decimal(a) == decimal(b),
    ensures
        a == b,
{
    decimal_is_digits(a);
    decimal_is_digits(b);
}

/// A signed number in decimal: a minus sign before the digits of a negative one.
pub open spec fn signed_decimal(n: int) -> Seq<char> {
    if n < 0 {
        "-"@ + decimal((-n) as nat)
    } else {
        decimal(n as nat)
    }
}

/// A signed 64-bit integer in decimal digits.
pub fn signed_decimal_i64(n: i64) -> (s: String)
    ensures
        s@ == signed_decimal(n as int),
{
    if n < 0 {
        joined("-", decimal_text((-(n as i128)) as u64).as_str())
    } else {
        decimal_text(n as u64)
    }
}

/// `n` in decimal.
pub fn signed_decimal_text(n: i32) -> (s: String)
    ensures
        s@ == signed_decimal(n as int),
{
    if n < 0 {
        joined("-", decimal_text((-(n as i64)) as u64).as_str())
    } else {
        decimal_text(n as u64)
    }
}

// ---- letter case and white space --------------------------------------------

pub open spec fn lower_ascii(c: char) -> char {
    if 'A' <= c && c <= 'Z' {
        (c as u8 + 32) as u8 as char
    } else {
        c
    }
}

/// Equal but for the case of ASCII letters.
pub open spec fn same_ignoring_ascii_case(a: Seq<char>, b: Seq<char>) -> bool {
    a.len() == b.len() && forall|i: int|
        0 <= i < a.len() ==> lower_ascii(#[trigger] a[i]) == lower_ascii(b[i])
}

pub fn to_lower_ascii(c: char) -> (r: char)
    ensures
        r == lower_ascii(c),
{
    if 'A' <= c && c <= 'Z' {
        (c as u8 + 32) as char
    } else {
        c
    }
}

pub fn eq_ignore_ascii_case(a: &str, b: &str) -> (same: bool)
    ensures
        same == same_ignoring_ascii_case(a@, b@),
{
    let x = chars_of(a);
    let y = chars_of(b);
    if x.len() != y.len() {
        return false;
    }
    let mut i: usize = 0;
    while i < x.len()
        invariant
            i <= x@.len(),
            x@ == a@,
            y@ == b@,
            x@.len() == y@.len(),
            forall|j: int| 0 <= j < i ==> lower_ascii(#[trigger] a@[j]) == lower_ascii(b@[j]),
        decreases x@.len() - i,
    {
        if to_lower_ascii(x[i]) != to_lower_ascii(y[i]) {
            assert(lower_ascii(a@[i as int]) != lower_ascii(b@[i as int]));
            return false;
        }
        i = i + 1;
    }
    true
}

/// The characters with the Unicode White_Space property.
pub open spec fn is_whitespace(c: char) -> bool {
    let n = c as u32;
    ||| 0x09 <= n <= 0x0d
    ||| n == 0x20
    ||| n == 0x85
    ||| n == 0xa0
    ||| n == 0x1680
    ||| 0x2000 <= n <= 0x200a
    ||| n == 0x2028
    ||| n == 0x2029
    ||| n == 0x202f
    ||| n == 0x205f
    ||| n == 0x3000
}

fn whitespace(c: char) -> (r: bool)
    ensures
        r == is_whitespace(c),
{
    let n: u32 = c as u32;
    (0x09 <= n && n <= 0x0d) || n == 0x20 || n == 0x85 || n == 0xa0 || n == 0x1680 || (0x2000 <= n
        && n <= 0x200a) || n == 0x2028 || n == 0x2029 || n == 0x202f || n == 0x205f || n == 0x3000
}

/// `text` without the white space at its start.
pub open spec fn trimmed_start(text: Seq<char>) -> Seq<char>
    decreases text.len(),
{
    if text.len() > 0 && is_whitespace(text[0]) {
        trimmed_start(text.skip(1))
    } else {
        text
    }
}

/// `text` without the white space at its end.
pub open spec fn trimmed_end(text: Seq<char>) -> Seq<char>
    decreases text.len(),
{
    if text.len() > 0 && is_whitespace(text.last()) {
        trimmed_end(text.drop_last())
    } else {
        text
    }
}

pub open spec fn trimmed(text: Seq<char>) -> Seq<char> {
    trimmed_end(trimmed_start(text))
}

/// `text` without the white space at both ends.
pub fn trim<'a>(text: &'a str) -> (r: &'a str)
    ensures
        r@ == trimmed(text@),
{
    let chars = chars_of(text);
    let mut from: usize = 0;
    assert(text@.skip(0) =~= text@);
    while from < chars.len() && whitespace(chars[from])
        invariant
            from <= chars@.len(),
            chars@ == text@,
            trimmed_start(text@) == trimmed_start(text@.skip(from as int)),
        decreases chars@.len() - from,
    {
        assert(text@.skip(from as int).skip(1) =~= text@.skip(from as int + 1));
        from = from + 1;
    }
    let mut to: usize = chars.len();
    let ghost start = text@.skip(from as int);
    assert(trimmed_start(text@) == start);
    assert(text@.subrange(from as int, to as int) =~= start);
    while to > from && whitespace(chars[to - 1])
        invariant
            from <= to <= chars@.len(),
            chars@ == text@,
            trimmed_end(start) == trimmed_end(text@.subrange(from as int, to as int)),
        decreases to,
    {
        assert(text@.subrange(from as int, to as int).drop_last() =~= text@.subrange(
            from as int,
            to - 1,
        ));
        to = to - 1;
    }
    text.substring_char(from, to)
}

/// White space round a text is taken off, and nothing else: a text that neither begins nor ends
/// with white space comes back whole from between any amount of it.
pub proof fn trimming_takes_only_white_space(before: Seq<char>, text: Seq<char>, after: Seq<char>)
    requires
        text.len() > 0,
        !is_whitespace(text[0]),
        !is_whitespace(text.last()),
        forall|i: int| 0 <= i < before.len() ==> is_whitespace(#[trigger] before[i]),
        forall|i: int| 0 <= i < after.len() ==> is_whitespace(#[trigger] after[i]),
    ensures
        trimmed(before + text + after) == text,
    decreases before.len() + after.len(),
{
    if before.len() > 0 {
        let whole = before + text + after;
        assert(whole[0] == before[0]);
        assert(whole.skip(1) =~= before.skip(1) + text + after);
        assert forall|i: int| 0 <= i < before.skip(1).len() implies is_whitespace(
            #[trigger] before.skip(1)[i],
        ) by {
            assert(before.skip(1)[i] == before[i + 1]);
        }
        trimming_takes_only_white_space(before.skip(1), text, after);
    } else {
        let whole = before + text + after;
        assert(whole =~= text + after);
        assert(whole[0] == text[0]);
        trimming_the_end(text, after);
    }
}

proof fn trimming_the_end(text: Seq<char>, after: Seq<char>)
    requires
        text.len() > 0,
        !is_whitespace(text.last()),
        forall|i: int| 0 <= i < after.len() ==> is_whitespace(#[trigger] after[i]),
    ensures
        trimmed_end(text + after) == text,
    decreases after.len(),
{
    let whole = text + after;
    if after.len() > 0 {
        assert(whole.last() == after[after.len() - 1]);
        assert(whole.drop_last() =~= text + after.drop_last());
        assert forall|i: int| 0 <= i < after.drop_last().len() implies is_whitespace(
            #[trigger] after.drop_last()[i],
        ) by {
            assert(after.drop_last()[i] == after[i]);
        }
        trimming_the_end(text, after.drop_last());
    } else {
        assert(whole =~= text);
    }
}

/// `text` holds `a`, and behind it `b`.
pub open spec fn says_in_order(text: Seq<char>, a: Seq<char>, b: Seq<char>) -> bool {
    exists|i: int, j: int|
        0 <= i && i + a.len() <= j && j + b.len() <= text.len() && #[trigger] text.subrange(
            i,
            i + a.len(),
        ) == a && #[trigger] text.subrange(j, j + b.len()) == b
}

/// What is put together of words with two values between them holds the two in that order.
pub proof fn put_together_in_order(
    x: Seq<char>,
    a: Seq<char>,
    y: Seq<char>,
    b: Seq<char>,
    z: Seq<char>,
)
    ensures
        says_in_order(x + a + y + b + z, a, b),
{
    let text = x + a + y + b + z;
    let i = x.len() as int;
    let j = x.len() + a.len() + y.len() as int;
    assert(text.subrange(i, i + a.len()) =~= a);
    assert(text.subrange(j, j + b.len()) =~= b);
}

/// A sign tells a number below zero from the one above it, so that different numbers have
/// different texts.
pub proof fn signed_decimal_is_injective(a: int, b: int)
    requires
        signed_decimal(a) == signed_decimal(b),
    ensures
        a == b,
{
    reveal_strlit("-");
    decimal_is_digits(if a < 0 {
        (-a) as nat
    } else {
        a as nat
    });
    decimal_is_digits(if b < 0 {
        (-b) as nat
    } else {
        b as nat
    });
    if a < 0 && b < 0 {
        assert(signed_decimal(a).skip(1) =~= decimal((-a) as nat));
        assert(signed_decimal(b).skip(1) =~= decimal((-b) as nat));
        decimal_is_injective((-a) as nat, (-b) as nat);
    } else if a < 0 {
        assert(signed_decimal(a)[0] == '-');
        assert(is_digit(decimal(b as nat)[0]));
    } else if b < 0 {
        assert(signed_decimal(b)[0] == '-');
        assert(is_digit(decimal(a as nat)[0]));
    } else {
        decimal_is_injective(a as nat, b as nat);
    }
}

/// Case does not count for letters, and for nothing else: a capital letter and the small letter
/// 32 places after it are the same, any other two characters only where they are equal.
pub proof fn case_counts_for_letters_only(a: char, b: char)
    ensures
        lower_ascii(a) == lower_ascii(b) <==> (a == b || ('A' <= a <= 'Z' && b as int == a as int
            + 32) || ('A' <= b <= 'Z' && a as int == b as int + 32)),
{
}

/// A text begins with its beginning and ends with its end.
pub proof fn beginnings_and_ends(a: Seq<char>, b: Seq<char>)
    ensures
        has_prefix(a + b, a),
        has_suffix(a + b, b),
        has_prefix(a, b) ==> a == b + a.skip(b.len() as int),
        has_suffix(a, b) ==> a == a.take(a.len() - b.len()) + b,
{
    assert((a + b).take(a.len() as int) =~= a);
    assert((a + b).skip((a + b).len() - b.len()) =~= b);
    if has_prefix(a, b) {
        assert(a =~= b + a.skip(b.len() as int));
    }
    if has_suffix(a, b) {
        assert(a =~= a.take(a.len() - b.len()) + b);
    }
}

/// `text` holds `word`.
pub open spec fn says(text: Seq<char>, word: Seq<char>) -> bool {
    exists|i: int|
        0 <= i && i + word.len() <= text.len() && #[trigger] text.subrange(i, i + word.len())
            == word
}

/// A text holds the word that stands at a place in it.
pub proof fn says_at(text: Seq<char>, word: Seq<char>, i: int)
    requires
        0 <= i,
        i + word.len() <= text.len(),
        forall|k: int| 0 <= k < word.len() ==> #[trigger] text[i + k] == word[k],
    ensures
        says(text, word),
{
    assert forall|k: int| 0 <= k < word.len() implies text.subrange(i, i + word.len())[k]
        == word[k] by {
        assert(text[i + k] == word[k]);
    }
    assert(text.subrange(i, i + word.len()) =~= word);
}

/// What is put together round a word holds the word.
pub proof fn put_together_says(x: Seq<char>, a: Seq<char>, z: Seq<char>)
    ensures
        says(x + a + z, a),
{
    let text = x + a + z;
    let i = x.len() as int;
    assert(text.subrange(i, i + a.len()) =~= a);
}

/// A text that holds another holds what the other holds.
pub proof fn says_on(text: Seq<char>, part: Seq<char>, word: Seq<char>)
    requires
        says(text, part),
        says(part, word),
    ensures
        says(text, word),
{
    let i = choose|i: int|
        0 <= i && i + part.len() <= text.len() && #[trigger] text.subrange(i, i + part.len())
            == part;
    let j = choose|j: int|
        0 <= j && j + word.len() <= part.len() && #[trigger] part.subrange(j, j + word.len())
            == word;
    assert(text.subrange(i + j, i + j + word.len()) =~= part.subrange(j, j + word.len()));
}

/// Whatever breaks or indents a line is white space; no character that is seen is, up to the end
/// of ASCII.
pub proof fn line_breaks_are_white_space(c: char)
    ensures
        c == ' ' || c == '\t' || c == '\n' || c == '\r' || c == '\u{85}' || c == '\u{a0}' || c
            == '\u{2028}' || c == '\u{2029}' || c == '\u{3000}' ==> is_whitespace(c),
        0x20 < c as u32 && c as u32 <= 0x84 ==> !is_whitespace(c),
        is_whitespace(c) && c as u32 > 0xff ==> c as u32 >= 0x1680,
{
}

} // verus!
