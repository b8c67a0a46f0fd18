//! Text: numerals, trimming, lines, and the comparison of byte strings.

use vstd::prelude::*;

verus! {

/// The digit that stands for `d`, which is below ten.
pub open spec fn digit_char(d: nat) -> char {
    (48 + d) as char
}

/// The numeral of `n` in `base`, without leading zeros.
pub open spec fn numeral(n: nat, base: nat) -> Seq<char>
    decreases n,
{
    if base < 2 || n < base {
        seq![digit_char(n)]
    } else {
        proof {
            assert(n / base < n) by (nonlinear_arith)
                requires
                    base >= 2,
                    n >= base,
            ;
        }
        numeral(n / base, base).push(digit_char(n % base))
    }
}

/// The decimal numeral of `n`.
pub open spec fn decimal(n: nat) -> Seq<char> {
    numeral(n, 10)
}

/// The decimal numeral of `i`, with a sign where it is negative.
pub open spec fn signed_decimal(i: int) -> Seq<char> {
    if i < 0 {
        "-"@ + decimal((-i) as nat)
    } else {
        decimal(i as nat)
    }
}

fn digit_text(d: u64) -> (s: &'static str)
    requires
        d < 10,
    ensures
        s@ == seq![digit_char(d as nat)],
{
    proof {
        reveal_strlit("0");
        reveal_strlit("1");
        reveal_strlit("2");
        reveal_strlit("3");
        reveal_strlit("4");
        reveal_strlit("5");
        reveal_strlit("6");
        reveal_strlit("7");
        reveal_strlit("8");
        reveal_strlit("9");
    }
    let s = match d {
        0 => "0",
        1 => "1",
        2 => "2",
        3 => "3",
        4 => "4",
        5 => "5",
        6 => "6",
        7 => "7",
        8 => "8",
        _ => "9",
    };
    assert(s@ =~= seq![digit_char(d as nat)]);
    s
}

/// The numeral of `n` in `base`.
pub fn numeral_text(n: u64, base: u64) -> (text: String)
    requires
        2 <= base <= 10,
    ensures
        text@ == numeral(n as nat, base as nat),
    decreases n,
{
    if n < base {
        digit_text(n).to_string()
    } else {
        proof {
            assert(n / base < n) by (nonlinear_arith)
                requires
                    base >= 2,
                    n >= base,
            ;
        }
        let mut text = numeral_text(n / base, base);
        text.append(digit_text(n % base));
        assert(text@ =~= numeral(n as nat, base as nat));
        text
    }
}

/// The decimal numeral of `n`.
pub fn decimal_text(n: u64) -> (text: String)
    ensures
        text@ == decimal(n as nat),
{
    numeral_text(n, 10)
}

/// The decimal numeral of `i`, with a sign where it is negative.
pub fn signed_decimal_text(i: i64) -> (text: String)
    ensures
        text@ == signed_decimal(i as int),
{
    if i < 0 {
        let mut text = "-".to_string();
        let magnitude: u64 = (-(i as i128)) as u64;
        text.append(decimal_text(magnitude).as_str());
        text
    } else {
        decimal_text(i as u64)
    }
}

/// The characters of `s`.
pub fn chars_of(s: &str) -> (chars: Vec<char>)
    ensures
        chars@ == s@,
{
    let mut chars: Vec<char> = Vec::new();
    for c in it: s.chars()
        invariant
            it.seq() == s@,
            chars@ == s@.take(it.index()),
    {
        chars.push(c);
        assert(chars@ =~= s@.take(it.index() + 1));
    }
    assert(chars@ =~= s@);
    chars
}

/// Whether the byte strings are equal.
pub fn bytes_equal(a: &[u8], b: &[u8]) -> (equal: bool)
    ensures
        equal == (a@ == b@),
{
    if a.len() != b.len() {
        return false;
    }
    let mut i: usize = 0;
    while i < a.len()
        invariant
            i <= a.len() == b.len(),
            forall|j: int| 0 <= j < i ==> a@[j] == b@[j],
        decreases a.len() - i,
    {
        if a[i] != b[i] {
            return false;
        }
        i += 1;
    }
    assert(a@ =~= b@);
    true
}

/// Whether `s` begins with `prefix`.
pub open spec fn begins_with<T>(s: Seq<T>, prefix: Seq<T>) -> bool {
    prefix.len() <= s.len() && s.subrange(0, prefix.len() as int) == prefix
}

/// Whether `s` ends with `suffix`.
pub open spec fn ends_with<T>(s: Seq<T>, suffix: Seq<T>) -> bool {
    suffix.len() <= s.len() && s.subrange(s.len() - suffix.len(), s.len() as int) == suffix
}

/// What stands before `tail` in `s`, which ends with it.
pub open spec fn lead<T>(s: Seq<T>, tail: Seq<T>) -> Seq<T> {
    s.subrange(0, s.len() - tail.len())
}

/// What is put together begins with its first part and ends with its last.
pub proof fn lemma_ends_of_a_sum<T>(head: Seq<T>, tail: Seq<T>)
    ensures
        begins_with(head + tail, head),
        ends_with(head + tail, tail),
        lead(head + tail, tail) == head,
{
    assert((head + tail).subrange(0, head.len() as int) =~= head);
    assert((head + tail).subrange(head.len() as int, (head + tail).len() as int) =~= tail);
}

/// Whether the bytes begin with `prefix`.
pub fn bytes_begin_with(bytes: &[u8], prefix: &[u8]) -> (yes: bool)
    ensures
        yes == begins_with(bytes@, prefix@),
{
    if bytes.len() < prefix.len() {
        return false;
    }
    let mut i: usize = 0;
    while i < prefix.len()
        invariant
            i <= prefix.len() <= bytes.len(),
            forall|j: int| 0 <= j < i ==> bytes@[j] == prefix@[j],
        decreases prefix.len() - i,
    {
        if bytes[i] != prefix[i] {
            assert(bytes@.subrange(0, prefix@.len() as int)[i as int] != prefix@[i as int]);
            return false;
        }
        i += 1;
    }
    assert(bytes@.subrange(0, prefix@.len() as int) =~= prefix@);
    true
}

/// Whether the characters begin with `prefix`.
pub fn chars_begin_with(chars: &[char], prefix: &str) -> (yes: bool)
    ensures
        yes == begins_with(chars@, prefix@),
{
    let wanted = chars_of(prefix);
    if chars.len() < wanted.len() {
        return false;
    }
    let mut i: usize = 0;
    while i < wanted.len()
        invariant
            i <= wanted@.len() <= chars@.len(),
            forall|j: int| 0 <= j < i ==> chars@[j] == wanted@[j],
            wanted@ == prefix@,
        decreases wanted.len() - i,
    {
        if chars[i] != wanted[i] {
            assert(chars@.subrange(0, prefix@.len() as int)[i as int] != prefix@[i as int]);
            return false;
        }
        i += 1;
    }
    assert(chars@.subrange(0, prefix@.len() as int) =~= prefix@);
    true
}

/// Whether two texts are equal.
pub fn text_equal(a: &str, b: &str) -> (equal: bool)
    ensures
        equal == (a@ == b@),
{
    let left = chars_of(a);
    let right = chars_of(b);
    if left.len() != right.len() {
        return false;
    }
    let mut i: usize = 0;
    while i < left.len()
        invariant
            i <= left@.len() == right@.len(),
            left@ == a@,
            right@ == b@,
            forall|j: int| 0 <= j < i ==> left@[j] == right@[j],
        decreases left.len() - i,
    {
        if left[i] != right[i] {
            return false;
        }
        i += 1;
    }
    assert(a@ =~= b@);
    true
}

/// Whether `c` is white space: the characters with the Unicode property
/// `White_Space`.
pub open spec fn is_space(c: char) -> bool {
    ||| '\u{9}' <= c <= '\u{d}'
    ||| c == '\u{20}'
    ||| c == '\u{85}'
    ||| c == '\u{a0}'
    ||| c == '\u{1680}'
    ||| '\u{2000}' <= c <= '\u{200a}'
    ||| c == '\u{2028}'
    ||| c == '\u{2029}'
    ||| c == '\u{202f}'
    ||| c == '\u{205f}'
    ||| c == '\u{3000}'
}

/// Whether `c` is white space.
pub fn is_whitespace(c: char) -> (yes: bool)
    ensures
        yes == is_space(c),
{
    ('\u{9}' <= c && c <= '\u{d}') || c == '\u{20}' || c == '\u{85}' || c == '\u{a0}' || c
        == '\u{1680}' || ('\u{2000}' <= c && c <= '\u{200a}') || c == '\u{2028}' || c == '\u{2029}'
        || c == '\u{202f}' || c == '\u{205f}' || c == '\u{3000}'
}

/// `s` without the white space at its head.
pub open spec fn trimmed_start(s: Seq<char>) -> Seq<char>
    decreases s.len(),
{
    if s.len() > 0 && is_space(s[0]) {
        trimmed_start(s.subrange(1, s.len() as int))
    } else {
        s
    }
}

/// `s` without the white space at its tail.
pub open spec fn trimmed_end(s: Seq<char>) -> Seq<char>
    decreases s.len(),
{
    if s.len() > 0 && is_space(s[s.len() - 1]) {
        trimmed_end(s.subrange(0, s.len() - 1))
    } else {
        s
    }
}

/// `s` without the white space around it.
pub open spec fn trimmed(s: Seq<char>) -> Seq<char> {
    trimmed_end(trimmed_start(s))
}

/// The text without the white space at its head.
pub fn trim_start(chars: &[char]) -> (rest: &[char])
    ensures
        rest@ == trimmed_start(chars@),
{
    let mut i: usize = 0;
    assert(chars@.subrange(0, chars@.len() as int) =~= chars@);
    while i < chars.len() && is_whitespace(chars[i])
        invariant
            i <= chars.len(),
            trimmed_start(chars@.subrange(i as int, chars@.len() as int)) == trimmed_start(chars@),
        decreases chars.len() - i,
    {
        let ghost here = chars@.subrange(i as int, chars@.len() as int);
        assert(here.subrange(1, here.len() as int) =~= chars@.subrange(
            i + 1,
            chars@.len() as int,
        ));
        i += 1;
    }
    vstd::slice::slice_subrange(chars, i, chars.len())
}

/// The text without the white space around it.
pub fn trim(chars: &[char]) -> (rest: &[char])
    ensures
        rest@ == trimmed(chars@),
{
    let head = trim_start(chars);
    let mut end: usize = head.len();
    proof {
        assert(head@.subrange(0, head@.len() as int) =~= head@);
    }
    while end > 0 && is_whitespace(head[end - 1])
        invariant
            end <= head.len(),
            trimmed_end(head@.subrange(0, end as int)) == trimmed_end(head@),
        decreases end,
    {
        let ghost here = head@.subrange(0, end as int);
        assert(here.subrange(0, here.len() - 1) =~= head@.subrange(0, end - 1));
        end -= 1;
    }
    vstd::slice::slice_subrange(head, 0, end)
}

/// Whether `c` is a decimal digit.
pub open spec fn is_digit(c: char) -> bool {
    '0' <= c <= '9'
}

/// Whether `s` is one or more decimal digits.
pub open spec fn is_digits(s: Seq<char>) -> bool {
    s.len() > 0 && forall|i: int| 0 <= i < s.len() ==> is_digit(#[trigger] s[i])
}

/// The number that the decimal digits `s` stand for.
pub open spec fn digits_value(s: Seq<char>) -> nat
    decreases s.len(),
{
    if s.len() == 0 {
        0
    } else {
        10 * digits_value(s.drop_last()) + (s.last() as nat - '0' as nat) as nat
    }
}

/// The number that `s` stands for, where that is at most `max`: digits, with a
/// plus sign in front of them or without.
pub open spec fn unsigned_value(s: Seq<char>, max: nat) -> Option<nat> {
    let digits = if s.len() > 0 && s[0] == '+' {
        s.subrange(1, s.len() as int)
    } else {
        s
    };
    if is_digits(digits) && digits_value(digits) <= max {
        Some(digits_value(digits))
    } else {
        None
    }
}

/// The number that `s` stands for, where it fits: digits, with a sign in front
/// of them or without.
pub open spec fn i32_value(s: Seq<char>) -> Option<int> {
    if s.len() > 0 && s[0] == '-' {
        let digits = s.subrange(1, s.len() as int);
        if is_digits(digits) && -digits_value(digits) >= i32::MIN {
            Some(-digits_value(digits))
        } else {
            None
        }
    } else {
        match unsigned_value(s, i32::MAX as nat) {
            Some(n) => Some(n as int),
            None => None,
        }
    }
}

proof fn lemma_digits_value_grows(s: Seq<char>, i: int)
    requires
        0 <= i <= s.len(),
    ensures
        digits_value(s.take(i)) <= digits_value(s),
    decreases s.len(),
{
    if i == s.len() {
        assert(s.take(i) =~= s);
    } else {
        lemma_digits_value_grows(s.drop_last(), i);
        assert(s.drop_last().take(i) =~= s.take(i));
    }
}

/// The number that the decimal digits stand for, or `None` where they are not
/// digits or stand for more than `max`.
fn parse_digits(chars: &[char], max: u64) -> (n: Option<u64>)
    ensures
        match n {
            Some(n) => is_digits(chars@) && n == digits_value(chars@) && n <= max,
            None => !is_digits(chars@) || digits_value(chars@) > max,
        },
{
    if chars.len() == 0 {
        return None;
    }
    let mut n: u64 = 0;
    let mut i: usize = 0;
    while i < chars.len()
        invariant
            i <= chars@.len(),
            n == digits_value(chars@.take(i as int)),
            n <= max,
            forall|j: int| 0 <= j < i ==> is_digit(#[trigger] chars@[j]),
        decreases chars.len() - i,
    {
        let c = chars[i];
        if !('0' <= c && c <= '9') {
            assert(!is_digit(chars@[i as int]));
            return None;
        }
        let d: u128 = (c as u32 - '0' as u32) as u128;
        let next: u128 = 10 * (n as u128) + d;
        proof {
            assert(chars@.take(i + 1).drop_last() =~= chars@.take(i as int));
            lemma_digits_value_grows(chars@, i + 1);
        }
        if next > max as u128 {
            return None;
        }
        n = next as u64;
        i += 1;
    }
    assert(chars@.take(chars@.len() as int) =~= chars@);
    Some(n)
}

/// The number that the text stands for, where that is at most `max`.
pub fn parse_unsigned(chars: &[char], max: u64) -> (n: Option<u64>)
    ensures
        match n {
            Some(n) => unsigned_value(chars@, max as nat) == Some(n as nat),
            None => unsigned_value(chars@, max as nat) is None,
        },
{
    if chars.len() > 0 && chars[0] == '+' {
        parse_digits(vstd::slice::slice_subrange(chars, 1, chars.len()), max)
    } else {
        parse_digits(chars, max)
    }
}

/// The number that the text stands for, where it fits.
pub fn parse_i32(chars: &[char]) -> (n: Option<i32>)
    ensures
        match n {
            Some(n) => i32_value(chars@) == Some(n as int),
            None => i32_value(chars@) is None,
        },
{
    if chars.len() > 0 && chars[0] == '-' {
        match parse_digits(vstd::slice::slice_subrange(chars, 1, chars.len()), 2147483648) {
            Some(n) => Some((-(n as i64)) as i32),
            None => None,
        }
    } else {
        match parse_unsigned(chars, 2147483647) {
            Some(n) => Some(n as i32),
            None => None,
        }
    }
}

/// How many characters of `s` precede its first line feed; all of them where
/// there is none.
pub open spec fn line_len(s: Seq<char>) -> nat
    decreases s.len(),
{
    if s.len() == 0 || s[0] == '\n' {
        0
    } else {
        1 + line_len(s.subrange(1, s.len() as int))
    }
}

/// A line without the carriage return at its end.
pub open spec fn without_return(line: Seq<char>) -> Seq<char> {
    if line.len() > 0 && line.last() == '\r' {
        line.drop_last()
    } else {
        line
    }
}

/// The lines of `s`: they end in a line feed, or a carriage return and a line
/// feed, which are not part of them; the last may end with the text.
pub open spec fn lines(s: Seq<char>) -> Seq<Seq<char>>
    decreases s.len(),
{
    let n = line_len(s) as int;
    if s.len() == 0 {
        Seq::empty()
    } else if n >= s.len() {
        seq![s]
    } else {
        seq![without_return(s.subrange(0, n))] + lines(s.subrange(n + 1, s.len() as int))
    }
}

proof fn lemma_line_len(s: Seq<char>)
    ensures
        line_len(s) <= s.len(),
        forall|i: int| 0 <= i < line_len(s) ==> s[i] != '\n',
        line_len(s) < s.len() ==> s[line_len(s) as int] == '\n',
    decreases s.len(),
{
    if s.len() > 0 && s[0] != '\n' {
        let rest = s.subrange(1, s.len() as int);
        lemma_line_len(rest);
        assert forall|i: int| 0 <= i < line_len(s) implies s[i] != '\n' by {
            if i > 0 {
                assert(rest[i - 1] == s[i]);
            }
        }
        if line_len(s) < s.len() {
            assert(rest[line_len(rest) as int] == s[line_len(s) as int]);
        }
    }
}

proof fn lemma_line_len_is(s: Seq<char>, n: int)
    requires
        0 <= n <= s.len(),
        forall|i: int| 0 <= i < n ==> s[i] != '\n',
        n < s.len() ==> s[n] == '\n',
    ensures
        line_len(s) == n,
{
    lemma_line_len(s);
}

/// The lines as sequences.
pub open spec fn lines_view(lines: Seq<Vec<char>>) -> Seq<Seq<char>> {
    lines.map_values(|line: Vec<char>| line@)
}

/// The lines of the text.
pub fn lines_of(chars: &[char]) -> (found: Vec<Vec<char>>)
    ensures
        lines_view(found@) == lines(chars@),
{
    let mut found: Vec<Vec<char>> = Vec::new();
    let mut start: usize = 0;
    proof {
        assert(chars@.subrange(0, chars@.len() as int) =~= chars@);
        assert(lines_view(found@) + lines(chars@) =~= lines(chars@));
    }
    while start < chars.len()
        invariant
            start <= chars@.len(),
            lines_view(found@) + lines(chars@.subrange(start as int, chars@.len() as int)) == lines(
                chars@,
            ),
        decreases chars.len() - start,
    {
        let ghost rest = chars@.subrange(start as int, chars@.len() as int);
        let mut end: usize = start;
        while end < chars.len() && chars[end] != '\n'
            invariant
                start <= end <= chars@.len(),
                forall|i: int| start <= i < end ==> chars@[i] != '\n',
            decreases chars.len() - end,
        {
            end += 1;
        }
        proof {
            assert forall|i: int| 0 <= i < end - start implies rest[i] != '\n' by {
                assert(rest[i] == chars@[start + i]);
            }
            lemma_line_len_is(rest, end - start);
        }
        let ghost before = found@;
        if end == chars.len() {
            let line = vstd::slice::slice_to_vec(
                vstd::slice::slice_subrange(chars, start, chars.len()),
            );
            found.push(line);
            start = chars.len();
            proof {
                assert(chars@.subrange(start as int, chars@.len() as int) =~= Seq::empty());
                assert(lines_view(found@) =~= lines_view(before).push(rest));
                assert(lines_view(found@) + lines(
                    chars@.subrange(start as int, chars@.len() as int),
                ) =~= lines_view(before) + lines(rest));
            }
        } else {
            let mut stop: usize = end;
            if end > start && chars[end - 1] == '\r' {
                stop = end - 1;
            }
            let line = vstd::slice::slice_to_vec(
                vstd::slice::slice_subrange(chars, start, stop),
            );
            proof {
                let n = end - start;
                assert(rest.subrange(0, n) =~= chars@.subrange(start as int, end as int));
                assert(line@ =~= without_return(rest.subrange(0, n)));
                assert(rest.subrange(n + 1, rest.len() as int) =~= chars@.subrange(
                    end + 1,
                    chars@.len() as int,
                ));
            }
            found.push(line);
            start = end + 1;
            proof {
                assert(lines_view(found@) =~= lines_view(before).push(line@));
                assert(lines_view(found@) + lines(
                    chars@.subrange(start as int, chars@.len() as int),
                ) =~= lines_view(before) + lines(rest));
            }
        }
    }
    proof {
        assert(chars@.subrange(start as int, chars@.len() as int) =~= Seq::empty());
        assert(lines_view(found@) =~= lines(chars@));
    }
    found
}

/// The number that `s` stands for in `base`, with its most significant digit
/// first.
pub open spec fn value_in(s: Seq<char>, base: nat) -> nat
    decreases s.len(),
{
    if s.len() == 0 {
        0
    } else {
        base * value_in(s.drop_last(), base) + (s.last() as nat - '0' as nat) as nat
    }
}

/// A numeral is read back as its number: it is made of digits of its base, it
/// begins with a zero only where it is zero, and it stands for the number that it
/// was made of.
pub proof fn law_numeral_is_read_back(n: nat, base: nat)
    requires
        2 <= base <= 10,
    ensures
        is_digits(numeral(n, base)),
        value_in(numeral(n, base), base) == n,
        numeral(n, base)[0] == '0' ==> n == 0 && numeral(n, base).len() == 1,
        forall|i: int|
            0 <= i < numeral(n, base).len() ==> (#[trigger] numeral(n, base)[i] as nat) - ('0' as nat)
                < base,
    decreases n,
{
    if n < base {
        let s = numeral(n, base);
        assert(s =~= seq![digit_char(n)]);
        assert(s.drop_last() =~= Seq::<char>::empty());
        assert(value_in(s.drop_last(), base) == 0);
        assert(base * 0 == 0) by (nonlinear_arith);
        assert(s.last() == digit_char(n));
    } else {
        assert(n / base < n && n / base > 0) by (nonlinear_arith)
            requires
                base >= 2,
                n >= base,
        ;
        law_numeral_is_read_back(n / base, base);
        let head = numeral(n / base, base);
        let s = numeral(n, base);
        assert(n % base < base) by (nonlinear_arith)
            requires
                base >= 2,
        ;
        assert(s == head.push(digit_char(n % base)));
        assert(s.drop_last() =~= head);
        assert(s[0] == head[0]);
        assert forall|i: int| 0 <= i < s.len() implies is_digit(#[trigger] s[i]) && (s[i] as nat)
            - ('0' as nat) < base by {
            if i < head.len() {
                assert(s[i] == head[i]);
            }
        }
        assert(base * (n / base) + n % base == n) by (nonlinear_arith)
            requires
                base >= 2,
        ;
    }
}

proof fn lemma_digits_value_is_value_in_ten(s: Seq<char>)
    ensures
        digits_value(s) == value_in(s, 10),
    decreases s.len(),
{
    if s.len() > 0 {
        lemma_digits_value_is_value_in_ten(s.drop_last());
    }
}

/// What is written as a number is read as the same number, with a sign in front
/// of it or without, wherever it is within the limit, and is refused beyond it.
pub proof fn law_written_number_is_read(
    n: u64,
    written: String,
    digits: &[char],
    signed: &[char],
    max: u64,
    read: Option<u64>,
    read_signed: Option<u64>,
)
    requires
        call_ensures(decimal_text, (n,), written),
        digits@ == written@,
        signed@ == seq!['+'] + written@,
        call_ensures(parse_unsigned, (digits, max), read),
        call_ensures(parse_unsigned, (signed, max), read_signed),
    ensures
        read == (if n <= max {
            Some(n)
        } else {
            None
        }),
        read_signed == read,
{
    law_numeral_is_read_back(n as nat, 10);
    lemma_digits_value_is_value_in_ten(written@);
    assert(is_digit(written@[0]));
    assert(signed@[0] == '+');
    assert(signed@.subrange(1, signed@.len() as int) =~= written@);
}

/// The decimal numeral of a number stands for that number.
pub proof fn lemma_decimal_is_read_back(n: nat, max: nat)
    requires
        n <= max,
    ensures
        unsigned_value(decimal(n), max) == Some(n),
        is_digits(decimal(n)),
{
    law_numeral_is_read_back(n, 10);
    lemma_digits_value_is_value_in_ten(decimal(n));
    assert(is_digit(decimal(n)[0]));
}

/// The numeral of a signed number stands for that number.
pub proof fn lemma_i32_is_read_back(i: i32)
    ensures
        i32_value(signed_decimal(i as int)) == Some(i as int),
{
    reveal_strlit("-");
    let magnitude: nat = if i < 0 {
        (-i) as nat
    } else {
        i as nat
    };
    law_numeral_is_read_back(magnitude, 10);
    lemma_digits_value_is_value_in_ten(decimal(magnitude));
    assert(is_digit(decimal(magnitude)[0]));
    if i < 0 {
        let s = signed_decimal(i as int);
        assert(s[0] == '-');
        assert(s.subrange(1, s.len() as int) =~= decimal(magnitude));
    }
}

/// What is written as a signed number is read as the same number, and as nothing
/// where it does not fit.
pub proof fn law_written_signed_number_is_read(
    i: i64,
    written: String,
    chars: &[char],
    read: Option<i32>,
)
    requires
        call_ensures(signed_decimal_text, (i,), written),
        chars@ == written@,
        call_ensures(parse_i32, (chars,), read),
    ensures
        i32::MIN <= i <= i32::MAX ==> read == Some(i as i32),
        !(i32::MIN <= i <= i32::MAX) ==> read is None,
        i < 0 <==> written@[0] == '-',
{
    reveal_strlit("-");
    let magnitude: nat = if i < 0 {
        (-i) as nat
    } else {
        i as nat
    };
    law_numeral_is_read_back(magnitude, 10);
    lemma_digits_value_is_value_in_ten(decimal(magnitude));
    assert(is_digit(decimal(magnitude)[0]));
    if i < 0 {
        assert(written@[0] == '-');
        assert(written@.subrange(1, written@.len() as int) =~= decimal(magnitude));
    }
}

/// Only digits are read as a number, after a sign at most: a text that holds
/// anything else, or no digit, is refused.
pub proof fn law_only_digits_are_a_number(chars: &[char], i: int, max: u64, read: Option<u64>)
    requires
        call_ensures(parse_unsigned, (chars, max), read),
    ensures
        chars@.len() == 0 ==> read is None,
        chars@ == seq!['+'] ==> read is None,
        0 <= i < chars@.len() && !('0' <= chars@[i] <= '9') && !(i == 0 && chars@[0] == '+')
            ==> read is None,
        read matches Some(n) ==> n <= max,
{
    if 0 <= i < chars@.len() && !('0' <= chars@[i] <= '9') && !(i == 0 && chars@[0] == '+') {
        assert(!is_digit(chars@[i]));
        if chars@[0] == '+' {
            assert(chars@.subrange(1, chars@.len() as int)[i - 1] == chars@[i]);
        }
    }
}

/// White space is the characters with these numbers, and no others.
pub proof fn law_white_space(c: char, yes: bool)
    requires
        call_ensures(is_whitespace, (c,), yes),
    ensures
        c as u32 == 9 || c as u32 == 10 || c as u32 == 13 || c as u32 == 32 ==> yes,
        yes && (c as u32) < 128 ==> 9 <= (c as u32) <= 13 || c as u32 == 32,
        yes <==> {
            ||| 9 <= (c as u32) <= 13
            ||| c as u32 == 32 || c as u32 == 133 || c as u32 == 160 || c as u32 == 5760
            ||| 8192 <= (c as u32) <= 8202
            ||| c as u32 == 8232 || c as u32 == 8233 || c as u32 == 8239 || c as u32 == 8287 || c
                as u32 == 12288
        },
{
}

/// Whether `s` is nothing but white space.
pub open spec fn all_space(s: Seq<char>) -> bool {
    forall|i: int| 0 <= i < s.len() ==> is_space(#[trigger] s[i])
}

proof fn lemma_trimmed_start(s: Seq<char>) -> (n: int)
    ensures
        0 <= n <= s.len(),
        trimmed_start(s) == s.subrange(n, s.len() as int),
        all_space(s.subrange(0, n)),
        n < s.len() ==> !is_space(s[n]),
    decreases s.len(),
{
    if s.len() > 0 && is_space(s[0]) {
        let rest = s.subrange(1, s.len() as int);
        let m = lemma_trimmed_start(rest);
        let n = m + 1;
        assert(rest.subrange(m, rest.len() as int) =~= s.subrange(n, s.len() as int));
        assert forall|i: int| 0 <= i < n implies is_space(#[trigger] s.subrange(0, n)[i]) by {
            if i > 0 {
                assert(rest.subrange(0, m)[i - 1] == s[i]);
            }
        }
        if n < s.len() {
            assert(rest[m] == s[n]);
        }
        n
    } else {
        assert(s.subrange(0, s.len() as int) =~= s);
        0
    }
}

proof fn lemma_trimmed_end(s: Seq<char>) -> (n: int)
    ensures
        0 <= n <= s.len(),
        trimmed_end(s) == s.subrange(0, n),
        all_space(s.subrange(n, s.len() as int)),
        n > 0 ==> !is_space(s[n - 1]),
    decreases s.len(),
{
    if s.len() > 0 && is_space(s[s.len() - 1]) {
        let rest = s.subrange(0, s.len() - 1);
        let n = lemma_trimmed_end(rest);
        assert(rest.subrange(0, n) =~= s.subrange(0, n));
        assert forall|i: int| 0 <= i < s.len() - n implies is_space(
            #[trigger] s.subrange(n, s.len() as int)[i],
        ) by {
            if n + i < s.len() - 1 {
                assert(rest.subrange(n, rest.len() as int)[i] == s[n + i]);
            }
        }
        if n > 0 {
            assert(rest[n - 1] == s[n - 1]);
        }
        n
    } else {
        assert(s.subrange(0, s.len() as int) =~= s);
        s.len() as int
    }
}

/// Trimming takes off white space at the two ends, all of it, and nothing else:
/// the text is the trimmed text with white space around it, and the trimmed text
/// neither begins nor ends with any.
pub proof fn law_trimming_takes_off_white_space_only(chars: &[char], rest: &[char]) -> (around: (
    Seq<char>,
    Seq<char>,
))
    requires
        call_ensures(trim, (chars,), rest),
    ensures
        chars@ == around.0 + rest@ + around.1,
        all_space(around.0),
        all_space(around.1),
        rest@.len() > 0 ==> !is_space(rest@[0]) && !is_space(rest@[rest@.len() - 1]),
{
    let s = chars@;
    let n = lemma_trimmed_start(s);
    let t = trimmed_start(s);
    let m = lemma_trimmed_end(t);
    let around = (s.subrange(0, n), t.subrange(m, t.len() as int));
    assert(chars@ =~= around.0 + rest@ + around.1);
    if rest@.len() > 0 {
        assert(rest@[0] == s[n]);
        assert(rest@[rest@.len() - 1] == t[m - 1]);
    }
    around
}

/// White space around a text makes no difference: the text in it is what is left,
/// wherever it does not itself begin or end with white space.
pub proof fn law_white_space_around_makes_no_difference(
    before: Seq<char>,
    text: Seq<char>,
    after: Seq<char>,
)
    requires
        all_space(before),
        all_space(after),
        text.len() > 0,
        !is_space(text[0]),
        !is_space(text[text.len() - 1]),
    ensures
        trimmed(before + text + after) == text,
        trimmed_start(before + text) == text,
{
    lemma_trimmed_start_of(before, text + after);
    lemma_trimmed_start_of(before, text);
    assert(before + text + after =~= before + (text + after));
    lemma_trimmed_end_of(text, after);
}

/// White space in front of a text makes no difference.
pub proof fn lemma_trimmed_start_of(before: Seq<char>, rest: Seq<char>)
    requires
        all_space(before),
        rest.len() > 0,
        !is_space(rest[0]),
    ensures
        trimmed_start(before + rest) == rest,
    decreases before.len(),
{
    let s = before + rest;
    if before.len() == 0 {
        assert(s =~= rest);
    } else {
        let tail = before.subrange(1, before.len() as int);
        assert(s[0] == before[0]);
        assert(s.subrange(1, s.len() as int) =~= tail + rest);
        assert forall|i: int| 0 <= i < tail.len() implies is_space(#[trigger] tail[i]) by {
            assert(tail[i] == before[i + 1]);
        }
        lemma_trimmed_start_of(tail, rest);
    }
}

proof fn lemma_trimmed_end_of(text: Seq<char>, after: Seq<char>)
    requires
        all_space(after),
        text.len() > 0,
        !is_space(text[text.len() - 1]),
    ensures
        trimmed_end(text + after) == text,
    decreases after.len(),
{
    let s = text + after;
    if after.len() == 0 {
        assert(s =~= text);
    } else {
        let head = after.drop_last();
        assert(s[s.len() - 1] == after[after.len() - 1]);
        assert(s.subrange(0, s.len() - 1) =~= text + head);
        assert forall|i: int| 0 <= i < head.len() implies is_space(#[trigger] head[i]) by {
            assert(head[i] == after[i]);
        }
        lemma_trimmed_end_of(text, head);
    }
}

/// A line ends at its line feed: a text whose first line feed comes after `line`
/// has that line, without a carriage return at its end, and then the lines of
/// what follows; and a text without a line feed is one line as it is.
pub proof fn law_lines_end_at_line_feeds(line: Seq<char>, rest: Seq<char>)
    requires
        forall|i: int| 0 <= i < line.len() ==> line[i] != '\n',
    ensures
        line.len() > 0 && line.last() == '\r' ==> lines(line.push('\n') + rest) == seq![
            line.drop_last(),
        ] + lines(rest),
        !(line.len() > 0 && line.last() == '\r') ==> lines(line.push('\n') + rest) == seq![line]
            + lines(rest),
        line.len() > 0 ==> lines(line) == seq![line],
        lines(Seq::<char>::empty()) == Seq::<Seq<char>>::empty(),
{
    let s = line.push('\n') + rest;
    let n = line.len() as int;
    assert(s[n] == '\n');
    assert forall|i: int| 0 <= i < n implies s[i] != '\n' by {
        assert(s[i] == line[i]);
    }
    lemma_line_len_is(s, n);
    assert(s.subrange(0, n) =~= line);
    assert(s.subrange(n + 1, s.len() as int) =~= rest);
    lemma_line_len_is(line, n);
}

/// One more digit makes a number ten times what it was, and that digit; zeros in
/// front of it make no difference.
pub proof fn law_digits_count_by_their_place(s: Seq<char>, d: char, max: nat)
    requires
        is_digits(s),
        '0' <= d <= '9',
    ensures
        ({
            let v = value_in(s, 10);
            let w = 10 * v + (d as nat - '0' as nat) as nat;
            &&& unsigned_value(s, max) == (if v <= max {
                Some(v)
            } else {
                None
            })
            &&& unsigned_value(s.push(d), max) == (if w <= max {
                Some(w)
            } else {
                None
            })
        }),
        unsigned_value(seq!['0'] + s, max) == unsigned_value(s, max),
        unsigned_value(seq!['+'] + s, max) == unsigned_value(s, max),
        unsigned_value(seq![d], max) == (if (d as nat - '0' as nat) as nat <= max {
            Some((d as nat - '0' as nat) as nat)
        } else {
            None
        }),
{
    let longer = s.push(d);
    assert(is_digit(s[0]));
    assert(longer[0] == s[0]);
    assert(longer.drop_last() =~= s);
    assert forall|i: int| 0 <= i < longer.len() implies is_digit(#[trigger] longer[i]) by {
        if i < s.len() {
            assert(longer[i] == s[i]);
        }
    }
    lemma_digits_value_is_value_in_ten(s);
    let zero = seq!['0'] + s;
    assert forall|i: int| 0 <= i < zero.len() implies is_digit(#[trigger] zero[i]) by {
        if i > 0 {
            assert(zero[i] == s[i - 1]);
        }
    }
    lemma_leading_zero(s);
    let plus = seq!['+'] + s;
    assert(plus[0] == '+');
    assert(plus.subrange(1, plus.len() as int) =~= s);
    let one = seq![d];
    assert(one.drop_last() =~= Seq::<char>::empty());
    assert(digits_value(one.drop_last()) == 0);
    assert(one.last() == d);
    assert(is_digit(one[0]));
}

proof fn lemma_leading_zero(s: Seq<char>)
    ensures
        digits_value(seq!['0'] + s) == digits_value(s),
    decreases s.len(),
{
    let zero = seq!['0'] + s;
    if s.len() == 0 {
        assert(zero.drop_last() =~= Seq::<char>::empty());
        assert(digits_value(zero.drop_last()) == 0);
        assert(zero.last() == '0');
    } else {
        assert(zero.drop_last() =~= seq!['0'] + s.drop_last());
        assert(zero.last() == s.last());
        lemma_leading_zero(s.drop_last());
    }
}

/// A signed number is an unsigned one where it has no minus sign, and the
/// opposite of one where it has; it fits or it is refused.
pub proof fn law_signed_number_is_plus_or_minus(s: Seq<char>)
    requires
        is_digits(s),
    ensures
        ({
            let v = value_in(s, 10);
            &&& i32_value(s) == (if v <= i32::MAX {
                Some(v as int)
            } else {
                None
            })
            &&& i32_value(seq!['-'] + s) == (if -v >= i32::MIN {
                Some(-v)
            } else {
                None
            })
            &&& i32_value(seq!['+'] + s) == i32_value(s)
        }),
        i32_value(seq!['-']) is None,
        i32_value(Seq::<char>::empty()) is None,
        i32_value(seq!['+', '-'] + s) is None,
        i32_value(seq!['-', '+'] + s) is None,
{
    assert(is_digit(s[0]));
    lemma_digits_value_is_value_in_ten(s);
    let minus = seq!['-'] + s;
    assert(minus[0] == '-');
    assert(minus.subrange(1, minus.len() as int) =~= s);
    let plus = seq!['+'] + s;
    assert(plus[0] == '+');
    assert(plus.subrange(1, plus.len() as int) =~= s);
    assert(seq!['-'].subrange(1, 1) =~= Seq::<char>::empty());
    let both = seq!['+', '-'] + s;
    assert(both[0] == '+');
    assert(both.subrange(1, both.len() as int)[0] == '-');
    assert(!is_digit(both.subrange(1, both.len() as int)[0]));
    let both = seq!['-', '+'] + s;
    assert(both[0] == '-');
    assert(both.subrange(1, both.len() as int)[0] == '+');
    assert(!is_digit(both.subrange(1, both.len() as int)[0]));
}

/// A text begins with another exactly where it is that other with something
/// behind it; texts and bytes are equal exactly where every place is.
pub proof fn law_comparisons_look_at_every_place(
    bytes: &[u8],
    prefix: &[u8],
    begins: bool,
    equal: bool,
    chars: &[char],
    head: &str,
    chars_begin: bool,
    a: &str,
    b: &str,
    same: bool,
)
    requires
        call_ensures(bytes_begin_with, (bytes, prefix), begins),
        call_ensures(bytes_equal, (bytes, prefix), equal),
        call_ensures(chars_begin_with, (chars, head), chars_begin),
        call_ensures(text_equal, (a, b), same),
    ensures
        begins ==> bytes@ == prefix@ + bytes@.subrange(prefix@.len() as int, bytes@.len() as int),
        !begins ==> prefix@.len() > bytes@.len() || exists|i: int|
            0 <= i < prefix@.len() && bytes@[i] != prefix@[i],
        equal <==> bytes@.len() == prefix@.len() && forall|i: int|
            0 <= i < bytes@.len() ==> bytes@[i] == prefix@[i],
        chars_begin ==> chars@ == head@ + chars@.subrange(head@.len() as int, chars@.len() as int),
        !chars_begin ==> head@.len() > chars@.len() || exists|i: int|
            0 <= i < head@.len() && chars@[i] != head@[i],
        same <==> a@.len() == b@.len() && forall|i: int| 0 <= i < a@.len() ==> a@[i] == b@[i],
{
    lemma_begins_with(bytes@, prefix@);
    lemma_begins_with(chars@, head@);
    if bytes@.len() == prefix@.len() && forall|i: int|
        0 <= i < bytes@.len() ==> bytes@[i] == prefix@[i] {
        assert(bytes@ =~= prefix@);
    }
    if a@.len() == b@.len() && forall|i: int| 0 <= i < a@.len() ==> a@[i] == b@[i] {
        assert(a@ =~= b@);
    }
}

proof fn lemma_begins_with<T>(s: Seq<T>, prefix: Seq<T>)
    ensures
        begins_with(s, prefix) ==> s == prefix + s.subrange(prefix.len() as int, s.len() as int),
        !begins_with(s, prefix) ==> prefix.len() > s.len() || exists|i: int|
            0 <= i < prefix.len() && s[i] != prefix[i],
{
    if begins_with(s, prefix) {
        assert(s =~= s.subrange(0, prefix.len() as int) + s.subrange(
            prefix.len() as int,
            s.len() as int,
        ));
    } else if prefix.len() <= s.len() {
        if forall|i: int| 0 <= i < prefix.len() ==> s[i] == prefix[i] {
            assert(s.subrange(0, prefix.len() as int) =~= prefix);
        }
    }
}

} // verus!
