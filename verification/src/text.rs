use vstd::prelude::*;
use vstd::string::StringExecFns;
use vstd::string::StringSliceAdditionalSpecFns;

verus! {

/// Whether two byte slices hold the same bytes.
pub fn same_bytes(x: &[u8], y: &[u8]) -> (r: bool)
    ensures
        r == (x@ == y@),
{
    if x.len() != y.len() {
        return false;
    }
    let mut i: usize = 0;
    while i < x.len()
        invariant
            i <= x.len(),
            x.len() == y.len(),
            forall|j: int| 0 <= j < i ==> x@[j] == y@[j],
        decreases x.len() - i,
    {
        if x[i] != y[i] {
            return false;
        }
        i += 1;
    }
    assert(x@ =~= y@);
    true
}

/// Whether two strings hold the same characters.
///
/// The comparison runs over the UTF-8 bytes; since decoding undoes encoding,
/// equal bytes mean equal characters and the other way round.
pub fn same_text(a: &str, b: &str) -> (r: bool)
    ensures
        r == (a@ == b@),
{
    proof {
        vstd::utf8::encode_utf8_decode_utf8(a@);
        vstd::utf8::encode_utf8_decode_utf8(b@);
    }
    same_bytes(a.as_bytes(), b.as_bytes())
}

/// A copy of a string that may be missing.
pub fn clone_optional(text: &Option<String>) -> (copy: Option<String>)
    ensures
        copy == *text,
{
    match text {
        Some(s) => Some(s.clone()),
        None => None,
    }
}

/// The characters of a string, one by one.
pub fn chars_of(s: &str) -> (chars: Vec<char>)
    ensures
        chars@ == s@,
{
    broadcast use vstd::string::group_string_axioms;

    let mut chars: Vec<char> = Vec::new();
    for c in it: s.chars()
        invariant
            chars@ == it.seq().take(it.index() as int),
            it.seq() == s@,
    {
        chars.push(c);
    }
    chars
}

/// `pattern` stands in `text` at position `at`.
pub open spec fn occurs_at(text: Seq<char>, pattern: Seq<char>, at: int) -> bool {
    0 <= at && at + pattern.len() <= text.len() && text.subrange(at, at + pattern.len()) == pattern
}

/// `pattern` stands somewhere in `text`.
pub open spec fn occurs(text: Seq<char>, pattern: Seq<char>) -> bool {
    exists|at: int| occurs_at(text, pattern, at)
}

/// `pattern` stands in `text` at position `at` and at no position before it.
pub open spec fn first_at(text: Seq<char>, pattern: Seq<char>, at: int) -> bool {
    occurs_at(text, pattern, at) && forall|before: int|
        0 <= before < at ==> !occurs_at(text, pattern, before)
}

/// The first position at which `pattern` stands in `text`, where it occurs at all.
pub open spec fn first_occurrence(text: Seq<char>, pattern: Seq<char>) -> int {
    choose|at: int| first_at(text, pattern, at)
}

/// A first position is the first occurrence.
pub proof fn lemma_first_occurrence(text: Seq<char>, pattern: Seq<char>, at: int)
    requires
        first_at(text, pattern, at),
    ensures
        occurs(text, pattern),
        first_occurrence(text, pattern) == at,
{
    let chosen = first_occurrence(text, pattern);
    assert(first_at(text, pattern, chosen));
    if chosen < at {
        assert(!occurs_at(text, pattern, chosen));
    }
    if at < chosen {
        assert(!occurs_at(text, pattern, at));
    }
}

/// What follows the first occurrence of `pattern` in `text`, if it occurs.
pub open spec fn tail_after(text: Seq<char>, pattern: Seq<char>) -> Option<Seq<char>> {
    if occurs(text, pattern) {
        Some(text.skip(first_occurrence(text, pattern) + pattern.len()))
    } else {
        None
    }
}

/// `text` up to its first `stop`, or all of it where it has none.
pub open spec fn cut_before(text: Seq<char>, stop: char) -> Seq<char> {
    if occurs(text, seq![stop]) {
        text.take(first_occurrence(text, seq![stop]))
    } else {
        text
    }
}

/// Whether `pattern` stands in `text` at position `at`.
fn matches_at(text: &Vec<char>, pattern: &Vec<char>, at: usize) -> (r: bool)
    requires
        at + pattern.len() <= text.len(),
    ensures
        r == occurs_at(text@, pattern@, at as int),
{
    let mut k: usize = 0;
    while k < pattern.len()
        invariant
            k <= pattern.len(),
            at + pattern.len() <= text.len(),
            forall|j: int| 0 <= j < k ==> text@[at + j] == pattern@[j],
        decreases pattern.len() - k,
    {
        if text[at + k] != pattern[k] {
            proof {
                let piece = text@.subrange(at as int, at + pattern.len());
                assert(piece[k as int] == text@[at + k]);
            }
            return false;
        }
        k += 1;
    }
    assert(text@.subrange(at as int, at + pattern.len()) =~= pattern@);
    true
}

/// The first position at or after `from` at which `pattern` stands in `text`.
pub fn find_from(text: &Vec<char>, pattern: &Vec<char>, from: usize) -> (r: Option<usize>)
    ensures
        match r {
            Some(at) => from <= at && occurs_at(text@, pattern@, at as int) && forall|before: int|
                from <= before < at ==> !occurs_at(text@, pattern@, before),
            None => forall|at: int| from <= at ==> !occurs_at(text@, pattern@, at),
        },
{
    if pattern.len() > text.len() {
        return None;
    }
    let last: usize = text.len() - pattern.len();
    if from > last {
        return None;
    }
    let mut at: usize = from;
    loop
        invariant
            last == text.len() - pattern.len(),
            from <= at <= last,
            forall|before: int| from <= before < at ==> !occurs_at(text@, pattern@, before),
        decreases last - at,
    {
        if matches_at(text, pattern, at) {
            return Some(at);
        }
        if at == last {
            return None;
        }
        at += 1;
    }
}

/// The first position at which `pattern` stands in `text`.
pub fn find(text: &Vec<char>, pattern: &Vec<char>) -> (r: Option<usize>)
    ensures
        match r {
            Some(at) => first_at(text@, pattern@, at as int),
            None => !occurs(text@, pattern@),
        },
{
    find_from(text, pattern, 0)
}

/// The character that writes a digit.
pub open spec fn digit_char(digit: nat) -> char {
    if digit == 0 {
        '0'
    } else if digit == 1 {
        '1'
    } else if digit == 2 {
        '2'
    } else if digit == 3 {
        '3'
    } else if digit == 4 {
        '4'
    } else if digit == 5 {
        '5'
    } else if digit == 6 {
        '6'
    } else if digit == 7 {
        '7'
    } else if digit == 8 {
        '8'
    } else {
        '9'
    }
}

/// A natural number written in base ten, without leading zeros.
pub open spec fn decimal(n: nat) -> Seq<char>
    decreases n,
{
    if n < 10 {
        seq![digit_char(n)]
    } else {
        decimal(n / 10).push(digit_char(n % 10))
    }
}

/// An integer written in base ten, with a minus sign where it is negative.
pub open spec fn signed_decimal(n: int) -> Seq<char> {
    if n < 0 {
        seq!['-'] + decimal((-n) as nat)
    } else {
        decimal(n as nat)
    }
}

/// The text of one digit.
fn digit_text(digit: u64) -> (text: &'static str)
    requires
        digit < 10,
    ensures
        text@ == seq![digit_char(digit as nat)],
{
    proof {
        reveal_strlit("0");
        reveal_strlit("1");
        reveal_strlit("2");
        reveal_strlit("3");
        reveal_strlit("4");
        reveal_strlit("5");
        reveal_strlit("6");
        reveal_strlit("7");
        reveal_strlit("8");
        reveal_strlit("9");
    }
    let text = if digit == 0 {
        "0"
    } else if digit == 1 {
        "1"
    } else if digit == 2 {
        "2"
    } else if digit == 3 {
        "3"
    } else if digit == 4 {
        "4"
    } else if digit == 5 {
        "5"
    } else if digit == 6 {
        "6"
    } else if digit == 7 {
        "7"
    } else if digit == 8 {
        "8"
    } else {
        "9"
    };
    assert(text@ =~= seq![digit_char(digit as nat)]);
    text
}

/// Writes a number in base ten at the end of `out`.
pub fn push_decimal(out: &mut String, n: u64)
    ensures
        final(out)@ == old(out)@ + decimal(n as nat),
    decreases n,
{
    if n >= 10 {
        push_decimal(out, n / 10);
    }
    out.append(digit_text(n % 10));
    proof {
        if n >= 10 {
            assert(out@ =~= old(out)@ + decimal(n as nat));
        } else {
            assert(out@ =~= old(out)@ + decimal(n as nat));
        }
    }
}

/// Writes an integer in base ten at the end of `out`.
pub fn push_signed_decimal(out: &mut String, n: i64)
    ensures
        final(out)@ == old(out)@ + signed_decimal(n as int),
{
    if n < 0 {
        proof {
            reveal_strlit("-");
        }
        out.append("-");
        let size: u64 = (-(n + 1)) as u64 + 1;
        push_decimal(out, size);
        assert(out@ =~= old(out)@ + signed_decimal(n as int));
    } else {
        push_decimal(out, n as u64);
    }
}

/// The value of a decimal digit.
pub open spec fn digit_value(c: char) -> Option<nat> {
    if c == '0' {
        Some(0)
    } else if c == '1' {
        Some(1)
    } else if c == '2' {
        Some(2)
    } else if c == '3' {
        Some(3)
    } else if c == '4' {
        Some(4)
    } else if c == '5' {
        Some(5)
    } else if c == '6' {
        Some(6)
    } else if c == '7' {
        Some(7)
    } else if c == '8' {
        Some(8)
    } else if c == '9' {
        Some(9)
    } else {
        None
    }
}

/// The number that a run of decimal digits writes; none where some
/// character is no digit. The empty run writes zero.
pub open spec fn digits_value(digits: Seq<char>) -> Option<nat>
    decreases digits.len(),
{
    if digits.len() == 0 {
        Some(0)
    } else {
        match (digits_value(digits.drop_last()), digit_value(digits.last())) {
            (Some(front), Some(unit)) => Some(10 * front + unit),
            _ => None,
        }
    }
}

/// The number up to `max` that a run of digits writes: the run has one
/// digit or more, nothing but digits, and writes no more than `max`.
pub open spec fn written_digits(digits: Seq<char>, max: nat) -> Option<nat> {
    if digits.len() == 0 {
        None
    } else {
        match digits_value(digits) {
            Some(value) => if value <= max {
                Some(value)
            } else {
                None
            },
            None => None,
        }
    }
}

/// The number up to `max` that a text writes in base ten: one digit or
/// more, with or without a plus sign before them. Any other text writes none.
pub open spec fn parsed_unsigned(text: Seq<char>, max: nat) -> Option<nat> {
    if text.len() > 0 && text[0] == '+' {
        written_digits(text.skip(1), max)
    } else {
        written_digits(text, max)
    }
}

/// The number below 2^32 that a text writes in base ten.
pub open spec fn parsed_u32(text: Seq<char>) -> Option<u32> {
    match parsed_unsigned(text, u32::MAX as nat) {
        Some(value) => Some(value as u32),
        None => None,
    }
}

/// The number below 2^64 that a text writes in base ten.
pub open spec fn parsed_u64(text: Seq<char>) -> Option<u64> {
    match parsed_unsigned(text, u64::MAX as nat) {
        Some(value) => Some(value as u64),
        None => None,
    }
}

/// The integer from -2^63 to 2^63 - 1 that a text writes in base ten: one
/// digit or more, with or without a sign before them.
pub open spec fn parsed_i64(text: Seq<char>) -> Option<i64> {
    if text.len() > 0 && text[0] == '-' {
        match written_digits(text.skip(1), 0x8000_0000_0000_0000) {
            Some(size) => Some((-size) as i64),
            None => None,
        }
    } else {
        match parsed_unsigned(text, i64::MAX as nat) {
            Some(value) => Some(value as i64),
            None => None,
        }
    }
}

/// The value of a decimal digit.
fn value_of_digit(c: char) -> (value: Option<u64>)
    ensures
        match value {
            Some(v) => digit_value(c) == Some(v as nat) && v < 10,
            None => digit_value(c) is None,
        },
{
    if c == '0' {
        Some(0)
    } else if c == '1' {
        Some(1)
    } else if c == '2' {
        Some(2)
    } else if c == '3' {
        Some(3)
    } else if c == '4' {
        Some(4)
    } else if c == '5' {
        Some(5)
    } else if c == '6' {
        Some(6)
    } else if c == '7' {
        Some(7)
    } else if c == '8' {
        Some(8)
    } else if c == '9' {
        Some(9)
    } else {
        None
    }
}

/// Reads the characters from `from` on as a run of digits that writes a
/// number up to `max`.
fn read_digits(text: &Vec<char>, from: usize, max: u64) -> (number: Option<u64>)
    requires
        from <= text.len(),
    ensures
        match number {
            Some(value) => written_digits(text@.skip(from as int), max as nat) == Some(value as nat),
            None => written_digits(text@.skip(from as int), max as nat) is None,
        },
{
    let ghost digits = text@.skip(from as int);
    if from == text.len() {
        return None;
    }
    let mut at: usize = from;
    let mut value: u64 = 0;
    assert(digits.take(0) =~= Seq::<char>::empty());
    while at < text.len()
        invariant
            from <= at <= text.len(),
            digits == text@.skip(from as int),
            digits.len() > 0,
            value <= max,
            digits_value(digits.take(at - from)) == Some(value as nat),
        decreases text.len() - at,
    {
        let ghost run = digits.take(at - from + 1);
        proof {
            assert(run.drop_last() =~= digits.take(at - from));
            assert(run.last() == text@[at as int]);
        }
        match value_of_digit(text[at]) {
            Some(unit) => {
                let wide: u128 = 10 * (value as u128) + unit as u128;
                if wide > max as u128 {
                    proof {
                        lemma_digits_grow(digits, at - from + 1);
                    }
                    return None;
                }
                value = wide as u64;
            },
            None => {
                proof {
                    lemma_digits_stay_none(digits, at - from + 1);
                }
                return None;
            },
        }
        at += 1;
    }
    assert(digits.take(at - from) =~= digits);
    Some(value)
}

/// Reads the characters from `from` on as a number up to `max` in base ten.
fn read_unsigned(text: &Vec<char>, from: usize, max: u64) -> (number: Option<u64>)
    requires
        from <= text.len(),
    ensures
        match number {
            Some(value) => parsed_unsigned(text@.skip(from as int), max as nat) == Some(
                value as nat,
            ),
            None => parsed_unsigned(text@.skip(from as int), max as nat) is None,
        },
{
    let ghost whole = text@.skip(from as int);
    if from < text.len() && text[from] == '+' {
        proof {
            assert(whole[0] == '+');
            assert(whole.skip(1) =~= text@.skip(from + 1));
        }
        read_digits(text, from + 1, max)
    } else {
        proof {
            if from < text.len() {
                assert(whole[0] == text@[from as int]);
            }
        }
        read_digits(text, from, max)
    }
}

/// Reads the characters from `from` on as a number below 2^32 in base ten.
pub fn parse_u32_from(text: &Vec<char>, from: usize) -> (number: Option<u32>)
    requires
        from <= text.len(),
    ensures
        number == parsed_u32(text@.skip(from as int)),
{
    match read_unsigned(text, from, 0xFFFF_FFFF) {
        Some(value) => Some(value as u32),
        None => None,
    }
}

/// Reads a text as a number below 2^64 in base ten.
pub fn parse_u64(text: &str) -> (number: Option<u64>)
    ensures
        number == parsed_u64(text@),
{
    let chars = chars_of(text);
    assert(chars@.skip(0) =~= text@);
    read_unsigned(&chars, 0, 0xFFFF_FFFF_FFFF_FFFF)
}

/// Reads a text as an integer from -2^63 to 2^63 - 1 in base ten.
pub fn parse_i64(text: &str) -> (number: Option<i64>)
    ensures
        number == parsed_i64(text@),
{
    let chars = chars_of(text);
    assert(chars@.skip(0) =~= text@);
    if chars.len() > 0 && chars[0] == '-' {
        match read_digits(&chars, 1, 0x8000_0000_0000_0000) {
            Some(size) => {
                if size == 0x8000_0000_0000_0000 {
                    Some(-0x8000_0000_0000_0000)
                } else {
                    Some(-(size as i64))
                }
            },
            None => None,
        }
    } else {
        match read_unsigned(&chars, 0, 0x7FFF_FFFF_FFFF_FFFF) {
            Some(value) => Some(value as i64),
            None => None,
        }
    }
}

/// Once a front part of a run writes no number, the whole run writes none.
proof fn lemma_digits_stay_none(digits: Seq<char>, front: int)
    requires
        0 <= front <= digits.len(),
        digits_value(digits.take(front)) is None,
    ensures
        digits_value(digits) is None,
    decreases digits.len() - front,
{
    if front < digits.len() {
        assert(digits.take(front + 1).drop_last() =~= digits.take(front));
        lemma_digits_stay_none(digits, front + 1);
    } else {
        assert(digits.take(front) =~= digits);
    }
}

/// A run of digits writes no smaller a number than any of its front parts,
/// where it writes one at all.
proof fn lemma_digits_grow(digits: Seq<char>, front: int)
    requires
        0 <= front <= digits.len(),
        digits_value(digits.take(front)) is Some,
    ensures
        digits_value(digits) matches Some(whole) ==> whole >= digits_value(digits.take(front))->0,
    decreases digits.len() - front,
{
    if front < digits.len() {
        assert(digits.take(front + 1).drop_last() =~= digits.take(front));
        if digits_value(digits.take(front + 1)) is Some {
            lemma_digits_grow(digits, front + 1);
        } else {
            lemma_digits_stay_none(digits, front + 1);
        }
    } else {
        assert(digits.take(front) =~= digits);
    }
}

/// The pieces into which the separator cuts a text, from left to right. A
/// text with no separator is one piece; every separator ends a piece and
/// begins the next, so that a text with `n` separators has `n + 1` pieces,
/// some of them empty where separators meet or stand at an end.
pub open spec fn pieces(text: Seq<char>, separator: char) -> Seq<Seq<char>>
    decreases text.len(),
{
    if text.len() == 0 {
        seq![Seq::<char>::empty()]
    } else {
        let before = pieces(text.drop_last(), separator);
        if text.last() == separator {
            before.push(Seq::<char>::empty())
        } else {
            before.update(before.len() - 1, before.last().push(text.last()))
        }
    }
}

/// Cuts a text into the pieces between its separators.
pub fn split(text: &str, separator: char) -> (parts: Vec<Vec<char>>)
    ensures
        parts.len() >= 1,
        parts@.map_values(|part: Vec<char>| part@) == pieces(text@, separator),
{
    let chars = chars_of(text);
    let mut parts: Vec<Vec<char>> = Vec::new();
    let mut current: Vec<char> = Vec::new();
    let mut i: usize = 0;
    assert(chars@.take(0) =~= Seq::<char>::empty());
    assert(parts@.map_values(|part: Vec<char>| part@).push(current@) =~= pieces(
        chars@.take(0),
        separator,
    ));
    while i < chars.len()
        invariant
            i <= chars.len(),
            parts@.map_values(|part: Vec<char>| part@).push(current@) == pieces(
                chars@.take(i as int),
                separator,
            ),
        decreases chars.len() - i,
    {
        let ghost done = parts@.map_values(|part: Vec<char>| part@).push(current@);
        let ghost next = chars@.take(i + 1);
        proof {
            assert(next.drop_last() =~= chars@.take(i as int));
            assert(next.last() == chars@[i as int]);
        }
        if chars[i] == separator {
            parts.push(current);
            current = Vec::new();
            assert(parts@.map_values(|part: Vec<char>| part@).push(current@) =~= done.push(
                Seq::<char>::empty(),
            ));
        } else {
            current.push(chars[i]);
            assert(parts@.map_values(|part: Vec<char>| part@).push(current@) =~= done.update(
                done.len() - 1,
                done.last().push(chars@[i as int]),
            ));
        }
        i += 1;
    }
    assert(chars@.take(i as int) =~= chars@);
    let ghost done = parts@.map_values(|part: Vec<char>| part@).push(current@);
    parts.push(current);
    assert(parts@.map_values(|part: Vec<char>| part@) =~= done);
    parts
}

/// Reads a whole run of characters as a number below 2^64 in base ten.
pub fn parse_u64_chars(chars: &Vec<char>) -> (number: Option<u64>)
    ensures
        number == parsed_u64(chars@),
{
    assert(chars@.skip(0) =~= chars@);
    read_unsigned(chars, 0, 0xFFFF_FFFF_FFFF_FFFF)
}

} // verus!
