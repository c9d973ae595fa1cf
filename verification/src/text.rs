//! Text operations over `str` and `String`, stated on sequences of characters.
use vstd::prelude::*;

verus! {

/// Whether Unicode gives `c` the `White_Space` property.
pub open spec fn white_space(c: char) -> bool {
    ||| '\t' <= c <= '\r'
    ||| c == ' '
    ||| c == '\u{85}'
    ||| c == '\u{a0}'
    ||| c == '\u{1680}'
    ||| '\u{2000}' <= c <= '\u{200a}'
    ||| c == '\u{2028}'
    ||| c == '\u{2029}'
    ||| c == '\u{202f}'
    ||| c == '\u{205f}'
    ||| c == '\u{3000}'
}

/// The lower-case form of an ASCII capital letter; any other character as it is.
pub open spec fn lower_char(c: char) -> char {
    if 'A' <= c <= 'Z' {
        (c as u8 + 32) as char
    } else {
        c
    }
}

/// The text with its ASCII capital letters in lower case.
pub open spec fn lower(text: Seq<char>) -> Seq<char> {
    text.map_values(|c: char| lower_char(c))
}

/// The upper-case form of an ASCII small letter; any other character as it is.
pub open spec fn upper_char(c: char) -> char {
    if 'a' <= c <= 'z' {
        (c as u8 - 32) as char
    } else {
        c
    }
}

/// The text with its ASCII small letters in upper case.
pub open spec fn upper(text: Seq<char>) -> Seq<char> {
    text.map_values(|c: char| upper_char(c))
}

/// Whether `needle` stands in `text` at position `at`.
pub open spec fn found_at(text: Seq<char>, needle: Seq<char>, at: int) -> bool {
    &&& 0 <= at
    &&& at + needle.len() <= text.len()
    &&& text.subrange(at, at + needle.len()) == needle
}

/// Whether `needle` stands in `text` at position `at` and at none before.
pub open spec fn first_at(text: Seq<char>, needle: Seq<char>, at: int) -> bool {
    &&& found_at(text, needle, at)
    &&& forall|j: int| 0 <= j < at ==> !#[trigger] found_at(text, needle, j)
}

/// Whether `needle` stands anywhere in `text`.
pub open spec fn occurs(text: Seq<char>, needle: Seq<char>) -> bool {
    exists|at: int| #[trigger] found_at(text, needle, at)
}

/// The text without the copies of `c` that it ends with.
pub open spec fn without_trailing(text: Seq<char>, c: char) -> Seq<char>
    decreases text.len(),
{
    if text.len() > 0 && text.last() == c {
        without_trailing(text.drop_last(), c)
    } else {
        text
    }
}

/// The text without the white space that it starts with.
pub open spec fn trimmed_start(text: Seq<char>) -> Seq<char>
    decreases text.len(),
{
    if text.len() > 0 && white_space(text.first()) {
        trimmed_start(text.drop_first())
    } else {
        text
    }
}

/// The text without the white space that it ends with.
pub open spec fn trimmed_end(text: Seq<char>) -> Seq<char>
    decreases text.len(),
{
    if text.len() > 0 && white_space(text.last()) {
        trimmed_end(text.drop_last())
    } else {
        text
    }
}

/// The text without white space at either end.
pub open spec fn trimmed(text: Seq<char>) -> Seq<char> {
    trimmed_end(trimmed_start(text))
}

/// The digit character of a value below ten.
pub open spec fn digit(n: nat) -> char {
    (48 + n) as char
}

/// The decimal digits of a number, without leading zeros.
pub open spec fn decimal_digits(n: nat) -> Seq<char>
    decreases n,
{
    if n < 10 {
        seq![digit(n)]
    } else {
        decimal_digits(n / 10).push(digit(n % 10))
    }
}

/// The lower-case hexadecimal digit of a value below sixteen.
pub open spec fn hex_digit(n: int) -> char {
    if n < 10 {
        (48 + n) as char
    } else {
        (87 + n) as char
    }
}

/// Two lower-case hexadecimal digits for each byte, the high half first.
pub open spec fn hex_digits(bytes: Seq<u8>) -> Seq<char> {
    Seq::new(
        2 * bytes.len(),
        |i: int|
            if i % 2 == 0 {
                hex_digit(bytes[i / 2] as int / 16)
            } else {
                hex_digit(bytes[i / 2] as int % 16)
            },
    )
}

/// `String::push` appends one character.
pub assume_specification[ String::push ](string: &mut String, c: char)
    ensures
        final(string)@ == old(string)@.push(c),
;

/// Whether Unicode gives `c` the `White_Space` property.
pub fn is_white_space(c: char) -> (white: bool)
    ensures
        white == white_space(c),
{
    ('\t' <= c && c <= '\r') || c == ' ' || c == '\u{85}' || c == '\u{a0}' || c == '\u{1680}' || (
    '\u{2000}' <= c && c <= '\u{200a}') || c == '\u{2028}' || c == '\u{2029}' || c == '\u{202f}' || c
        == '\u{205f}' || c == '\u{3000}'
}

/// The text of some bytes, with the replacement character where they are no
/// UTF-8.
pub uninterp spec fn lossy_text(bytes: Seq<u8>) -> Seq<char>;

/// `String::from_utf8_lossy` reads bytes as text: one character for each sequence
/// of bytes that is one, or that is replaced, so no more of them than bytes.
#[verifier::external_body]
pub(crate) fn from_utf8_lossy(bytes: &[u8]) -> (text: String)
    ensures
        text@ == lossy_text(bytes@),
        text@.len() <= bytes@.len(),
{
    String::from_utf8_lossy(bytes).into_owned()
}

/// The characters of a text.
pub fn chars(text: &str) -> (chars: Vec<char>)
    ensures
        chars@ == text@,
{
    let mut chars: Vec<char> = Vec::new();
    for c in iter: text.chars()
        invariant
            chars@ == iter.seq().take(iter.index() as int),
            iter.seq() == text@,
    {
        chars.push(c);
    }
    assert(text@.take(text@.len() as int) =~= text@);
    chars
}

/// The text of a range of characters.
pub fn slice(chars: &Vec<char>, from: usize, to: usize) -> (text: String)
    requires
        from <= to <= chars@.len(),
    ensures
        text@ == chars@.subrange(from as int, to as int),
{
    let mut text = String::new();
    let mut i: usize = from;
    while i < to
        invariant
            from <= i <= to <= chars@.len(),
            text@ == chars@.subrange(from as int, i as int),
        decreases to - i,
    {
        text.push(chars[i]);
        i += 1;
        assert(chars@.subrange(from as int, i as int) =~= chars@.subrange(
            from as int,
            i - 1 as int,
        ).push(chars@[i - 1]));
    }
    text
}

/// Whether two texts are equal.
pub fn same(a: &str, b: &str) -> (equal: bool)
    ensures
        equal == (a@ == b@),
{
    a.to_owned() == b.to_owned()
}

/// One text after another.
pub fn concat(a: &str, b: &str) -> (text: String)
    ensures
        text@ == a@ + b@,
{
    let mut text = a.to_owned();
    text.append(b);
    text
}

/// Whether `needle` stands in `text` at position `at`.
fn matches_at(text: &Vec<char>, needle: &Vec<char>, at: usize) -> (found: bool)
    requires
        at + needle@.len() <= text@.len(),
    ensures
        found == found_at(text@, needle@, at as int),
{
    let length = text.len();
    let mut i: usize = 0;
    while i < needle.len()
        invariant
            i <= needle@.len(),
            at + needle@.len() <= length,
            length == text@.len(),
            forall|j: int| 0 <= j < i ==> text@[at + j] == needle@[j],
        decreases needle@.len() - i,
    {
        if text[at + i] != needle[i] {
            assert(text@.subrange(at as int, at + needle@.len())[i as int] != needle@[i as int]);
            return false;
        }
        i += 1;
    }
    assert(text@.subrange(at as int, at + needle@.len()) =~= needle@);
    true
}

/// Whether `text` starts with `prefix`.
pub fn starts_with(text: &str, prefix: &str) -> (found: bool)
    ensures
        found == prefix@.is_prefix_of(text@),
{
    let text = chars(text);
    let prefix = chars(prefix);
    if prefix.len() > text.len() {
        return false;
    }
    matches_at(&text, &prefix, 0)
}

/// Whether `text` ends with `suffix`.
pub fn ends_with(text: &str, suffix: &str) -> (found: bool)
    ensures
        found == suffix@.is_suffix_of(text@),
{
    let text = chars(text);
    let suffix = chars(suffix);
    if suffix.len() > text.len() {
        return false;
    }
    matches_at(&text, &suffix, text.len() - suffix.len())
}

/// Where `needle` stands in `text` first.
pub fn find(text: &str, needle: &str) -> (found: Option<usize>)
    ensures
        match found {
            Some(at) => first_at(text@, needle@, at as int),
            None => !occurs(text@, needle@),
        },
{
    let all = chars(text);
    let part = chars(needle);
    if part.len() > all.len() {
        return None;
    }
    let last = all.len() - part.len();
    let mut at: usize = 0;
    while at < last && !matches_at(&all, &part, at)
        invariant
            last + part@.len() == all@.len(),
            at <= last,
            forall|j: int| 0 <= j < at ==> !found_at(all@, part@, j),
        decreases last - at,
    {
        at += 1;
    }
    if matches_at(&all, &part, at) {
        Some(at)
    } else {
        None
    }
}

/// Whether `needle` stands anywhere in `text`.
pub fn contains(text: &str, needle: &str) -> (found: bool)
    ensures
        found == occurs(text@, needle@),
{
    find(text, needle).is_some()
}

/// The text with its ASCII capital letters in lower case.
pub fn to_ascii_lowercase(text: &str) -> (lowered: String)
    ensures
        lowered@ == lower(text@),
{
    let text = chars(text);
    let mut lowered = String::new();
    let mut i: usize = 0;
    while i < text.len()
        invariant
            i <= text@.len(),
            lowered@ == lower(text@.take(i as int)),
        decreases text@.len() - i,
    {
        let c = text[i];
        if 'A' <= c && c <= 'Z' {
            lowered.push((c as u8 + 32) as char);
        } else {
            lowered.push(c);
        }
        i += 1;
        assert(text@.take(i as int) =~= text@.take(i - 1).push(text@[i - 1]));
        assert(lowered@ =~= lower(text@.take(i as int)));
    }
    assert(text@.take(i as int) =~= text@);
    lowered
}

/// The text without the copies of `c` that it ends with.
pub fn trim_end_matches(text: &str, c: char) -> (kept: String)
    ensures
        kept@ == without_trailing(text@, c),
{
    let text = chars(text);
    let mut end: usize = text.len();
    assert(text@.take(end as int) =~= text@);
    while end > 0 && text[end - 1] == c
        invariant
            end <= text@.len(),
            without_trailing(text@, c) == without_trailing(text@.take(end as int), c),
        decreases end,
    {
        assert(text@.take(end as int).drop_last() =~= text@.take(end - 1));
        end -= 1;
    }
    assert(text@.subrange(0, end as int) =~= text@.take(end as int));
    slice(&text, 0, end)
}

/// The text without white space at either end.
pub fn trim(text: &str) -> (kept: String)
    ensures
        kept@ == trimmed(text@),
{
    let text = chars(text);
    let mut start: usize = 0;
    assert(text@.skip(0) =~= text@);
    while start < text.len() && is_white_space(text[start])
        invariant
            start <= text@.len(),
            trimmed_start(text@) == trimmed_start(text@.skip(start as int)),
        decreases text@.len() - start,
    {
        assert(text@.skip(start as int).drop_first() =~= text@.skip(start + 1));
        start += 1;
    }
    let ghost rest = text@.skip(start as int);
    let mut end: usize = text.len();
    assert(text@.subrange(start as int, end as int) =~= rest);
    while end > start && is_white_space(text[end - 1])
        invariant
            start <= end <= text@.len(),
            rest == text@.skip(start as int),
            trimmed_end(rest) == trimmed_end(text@.subrange(start as int, end as int)),
        decreases end,
    {
        assert(text@.subrange(start as int, end as int).drop_last() =~= text@.subrange(
            start as int,
            end - 1,
        ));
        end -= 1;
    }
    slice(&text, start, end)
}

/// The decimal digits of a number.
pub fn decimal(n: u64) -> (text: String)
    ensures
        text@ == decimal_digits(n as nat),
    decreases n,
{
    if n < 10 {
        let mut text = String::new();
        text.push((48 + n as u8) as char);
        text
    } else {
        let mut text = decimal(n / 10);
        text.push((48 + (n % 10) as u8) as char);
        text
    }
}

/// The lower-case hexadecimal digits of some bytes.
pub fn hex(bytes: &Vec<u8>) -> (text: String)
    ensures
        text@ == hex_digits(bytes@),
{
    let mut text = String::new();
    let mut i: usize = 0;
    while i < bytes.len()
        invariant
            i <= bytes@.len(),
            text@ == hex_digits(bytes@.take(i as int)),
        decreases bytes@.len() - i,
    {
        let high = bytes[i] / 16;
        let low = bytes[i] % 16;
        text.push(
            if high < 10 {
                (48 + high) as char
            } else {
                (87 + high) as char
            },
        );
        text.push(
            if low < 10 {
                (48 + low) as char
            } else {
                (87 + low) as char
            },
        );
        i += 1;
        assert(text@ =~= hex_digits(bytes@.take(i as int)));
    }
    assert(bytes@.take(i as int) =~= bytes@);
    text
}

/// Equal hexadecimal digits come from equal bytes.
pub proof fn hex_digits_injective(a: Seq<u8>, b: Seq<u8>)
    requires
        hex_digits(a) == hex_digits(b),
    ensures
        a == b,
{
    assert(hex_digits(a).len() == 2 * a.len());
    assert(hex_digits(b).len() == 2 * b.len());
    assert(a.len() == b.len());
    assert forall|i: int| 0 <= i < a.len() implies a[i] == b[i] by {
        assert(hex_digits(a)[2 * i] == hex_digit(a[i] as int / 16));
        assert(hex_digits(b)[2 * i] == hex_digit(b[i] as int / 16));
        assert(hex_digits(a)[2 * i + 1] == hex_digit(a[i] as int % 16));
        assert(hex_digits(b)[2 * i + 1] == hex_digit(b[i] as int % 16));
    }
    assert(a =~= b);
}

/// White space at the start that is gone is not there to take off again, and what
/// is left starts with none.
proof fn trimmed_start_settles(text: Seq<char>)
    ensures
        trimmed_start(text).len() <= text.len(),
        trimmed_start(text).len() > 0 ==> !white_space(trimmed_start(text).first()),
        trimmed_start(text).len() > 0 ==> trimmed_start(text).last() == text.last(),
    decreases text.len(),
{
    if text.len() > 0 && white_space(text.first()) {
        trimmed_start_settles(text.drop_first());
        if text.len() == 1 {
            assert(text.drop_first().len() == 0);
        }
    }
}

/// What is left without white space at the end ends with none, and starts as
/// before.
proof fn trimmed_end_settles(text: Seq<char>)
    ensures
        trimmed_end(text).len() <= text.len(),
        trimmed_end(text).len() > 0 ==> !white_space(trimmed_end(text).last()),
        trimmed_end(text).len() > 0 ==> trimmed_end(text).first() == text.first(),
    decreases text.len(),
{
    if text.len() > 0 && white_space(text.last()) {
        trimmed_end_settles(text.drop_last());
        if text.len() == 1 {
            assert(text.drop_last().len() == 0);
        }
    }
}

/// Taking off white space again takes off nothing.
pub proof fn trimming_settles(text: Seq<char>)
    ensures
        trimmed(trimmed(text)) == trimmed(text),
{
    trimmed_start_settles(text);
    trimmed_end_settles(trimmed_start(text));
}

/// No letter is white space, so the case of letters does not matter to what is
/// taken off.
proof fn trimmed_upper(text: Seq<char>)
    ensures
        trimmed_start(upper(text)) == upper(trimmed_start(text)),
        trimmed_end(upper(text)) == upper(trimmed_end(text)),
    decreases text.len(),
{
    if text.len() > 0 {
        assert(upper(text).drop_first() =~= upper(text.drop_first()));
        assert(upper(text).drop_last() =~= upper(text.drop_last()));
        trimmed_upper(text.drop_first());
        trimmed_upper(text.drop_last());
    }
}

/// Trimmed and in lower case, a text is the same as when all its letters were in
/// upper case before.
pub proof fn case_does_not_outlast_lowering(text: Seq<char>)
    ensures
        lower(trimmed(upper(text))) == lower(trimmed(text)),
{
    trimmed_upper(text);
    trimmed_upper(trimmed_start(text));
    assert(lower(upper(trimmed(text))) =~= lower(trimmed(text)));
}

/// Lowering takes the twenty-six capital letters to the small ones in their order, and
/// leaves every other character as it is.
pub proof fn lowering_maps_letters(c: char)
    ensures
        65 <= c as u32 <= 90 ==> lower_char(c) as u32 == c as u32 + 32,
        !(65 <= c as u32 <= 90) ==> lower_char(c) == c,
        lower_char(lower_char(c)) == lower_char(c),
{
}

/// Lowering works on each character alone.
pub proof fn lowering_is_by_character(a: Seq<char>, b: Seq<char>)
    ensures
        lower(a + b) == lower(a) + lower(b),
        lower(a).len() == a.len(),
        forall|i: int| 0 <= i < a.len() ==> #[trigger] lower(a)[i] == lower_char(a[i]),
{
    assert(lower(a + b) =~= lower(a) + lower(b));
}

/// A text stands within another exactly where the other is something, the text, and
/// something more.
pub proof fn occurrences_split(
    text: Seq<char>,
    needle: Seq<char>,
    before: Seq<char>,
    after: Seq<char>,
)
    ensures
        occurs(before + needle + after, needle),
        occurs(text, needle) ==> exists|a: Seq<char>, b: Seq<char>| text == #[trigger] (a + needle
            + b),
{
    let whole = before + needle + after;
    let at = before.len() as int;
    assert(whole.subrange(at, at + needle.len()) =~= needle);
    assert(found_at(whole, needle, at));
    if occurs(text, needle) {
        let at = choose|at: int| #[trigger] found_at(text, needle, at);
        let a = text.take(at);
        let b = text.skip(at + needle.len());
        assert forall|i: int| at <= i < at + needle.len() implies text[i] == #[trigger] needle[i
            - at] by {
            assert(text.subrange(at, at + needle.len())[i - at] == text[i]);
        }
        assert(text =~= a + needle + b);
    }
}

/// What is taken off the end is copies of the character, all of them, and nothing else.
pub proof fn trailing_copies_are_taken_off(text: Seq<char>, c: char)
    ensures
        without_trailing(text, c).is_prefix_of(text),
        forall|i: int| without_trailing(text, c).len() <= i < text.len() ==> text[i] == c,
        without_trailing(text, c).len() > 0 ==> without_trailing(text, c).last() != c,
        without_trailing(text.push(c), c) == without_trailing(text, c),
    decreases text.len(),
{
    assert(text.push(c).drop_last() =~= text);
    if text.len() > 0 && text.last() == c {
        trailing_copies_are_taken_off(text.drop_last(), c);
        let kept = without_trailing(text, c);
        assert(kept =~= text.take(kept.len() as int)) by {
            assert(kept =~= text.drop_last().take(kept.len() as int));
        }
        assert forall|i: int| kept.len() <= i < text.len() implies text[i] == c by {
            if i < text.len() - 1 {
                assert(text.drop_last()[i] == c);
            }
        }
    }
}

/// A range of a text with nothing but white space outside, and none at its own ends.
pub open spec fn is_core(text: Seq<char>, from: int, to: int) -> bool {
    &&& 0 <= from <= to <= text.len()
    &&& forall|i: int| 0 <= i < from ==> white_space(#[trigger] text[i])
    &&& forall|i: int| to <= i < text.len() ==> white_space(#[trigger] text[i])
    &&& from < to ==> !white_space(text[from]) && !white_space(text[to - 1])
}

/// Trimming takes off white space at both ends, all of it, and nothing else.
pub proof fn trimming_keeps_the_core(text: Seq<char>)
    ensures
        exists|from: int, to: int| #[trigger]
            is_core(text, from, to) && trimmed(text) == text.subrange(from, to),
{
    let rest = trimmed_start(text);
    let kept = trimmed(text);
    trimmed_start_takes(text);
    trimmed_end_takes(rest);
    trimmed_start_settles(text);
    trimmed_end_settles(rest);
    let from = text.len() - rest.len();
    let to = from + kept.len();
    assert(kept =~= text.subrange(from, to)) by {
        assert forall|i: int| 0 <= i < kept.len() implies kept[i] == #[trigger] text[from + i] by {
            assert(kept[i] == rest[i]);
            assert(rest[i] == text[from + i]);
        }
    }
    assert forall|i: int| to <= i < text.len() implies white_space(#[trigger] text[i]) by {
        assert(text[i] == rest[i - from]);
    }
    if from < to {
        assert(kept.first() == text[from]);
        assert(kept.last() == text[to - 1]);
    }
    assert(is_core(text, from, to));
}

proof fn trimmed_start_takes(text: Seq<char>)
    ensures
        trimmed_start(text).len() <= text.len(),
        trimmed_start(text) == text.skip(text.len() - trimmed_start(text).len()),
        forall|i: int|
            0 <= i < text.len() - trimmed_start(text).len() ==> white_space(#[trigger] text[i]),
    decreases text.len(),
{
    if text.len() > 0 && white_space(text.first()) {
        let rest = text.drop_first();
        trimmed_start_takes(rest);
        let taken = text.len() - trimmed_start(text).len();
        assert(text.skip(taken) =~= rest.skip(taken - 1));
        assert forall|i: int| 0 <= i < taken implies white_space(#[trigger] text[i]) by {
            if i > 0 {
                assert(text[i] == rest[i - 1]);
            }
        }
    } else {
        assert(text.skip(0) =~= text);
    }
}

proof fn trimmed_end_takes(text: Seq<char>)
    ensures
        trimmed_end(text).len() <= text.len(),
        trimmed_end(text) == text.take(trimmed_end(text).len() as int),
        forall|i: int| trimmed_end(text).len() <= i < text.len() ==> white_space(#[trigger] text[i]),
    decreases text.len(),
{
    if text.len() > 0 && white_space(text.last()) {
        let rest = text.drop_last();
        trimmed_end_takes(rest);
        let kept = trimmed_end(text).len() as int;
        assert(text.take(kept) =~= rest.take(kept));
        assert forall|i: int| kept <= i < text.len() implies white_space(#[trigger] text[i]) by {
            if i < text.len() - 1 {
                assert(text[i] == rest[i]);
            }
        }
    } else {
        assert(text.take(text.len() as int) =~= text);
    }
}

/// The number that decimal digits stand for.
pub open spec fn number_of(digits: Seq<char>) -> int
    decreases digits.len(),
{
    if digits.len() == 0 {
        0
    } else {
        10 * number_of(digits.drop_last()) + (digits.last() as u32 - '0' as u32)
    }
}

/// The decimal digits of a number stand for it, are digits, and start with a zero only
/// where the number is zero.
pub proof fn decimal_digits_read_back(n: nat)
    ensures
        number_of(decimal_digits(n)) == n,
        decimal_digits(n).len() > 0,
        forall|i: int| 0 <= i < decimal_digits(n).len() ==> '0' <= #[trigger] decimal_digits(n)[i]
            <= '9',
        decimal_digits(n)[0] == '0' ==> n == 0,
    decreases n,
{
    if n < 10 {
        let digits = decimal_digits(n);
        assert(digits.drop_last() =~= Seq::empty());
        reveal_with_fuel(number_of, 2);
    } else {
        decimal_digits_read_back(n / 10);
        assert(decimal_digits(n).drop_last() =~= decimal_digits(n / 10));
    }
}

/// The value of a lower-case hexadecimal digit.
pub open spec fn hex_value(digit: char) -> int {
    if '0' <= digit <= '9' {
        digit as u32 - '0' as u32
    } else if 'a' <= digit <= 'f' {
        10 + (digit as u32 - 'a' as u32)
    } else {
        -1
    }
}

/// Each byte becomes two lower-case hexadecimal digits that stand for it, the high one
/// first.
pub proof fn hex_digits_read_back(bytes: Seq<u8>, i: int)
    requires
        0 <= i < bytes.len(),
    ensures
        hex_digits(bytes).len() == 2 * bytes.len(),
        0 <= hex_value(hex_digits(bytes)[2 * i]) < 16,
        0 <= hex_value(hex_digits(bytes)[2 * i + 1]) < 16,
        16 * hex_value(hex_digits(bytes)[2 * i]) + hex_value(hex_digits(bytes)[2 * i + 1])
            == bytes[i],
{
    assert((2 * i) / 2 == i && (2 * i + 1) / 2 == i);
    assert(hex_digits(bytes)[2 * i] == hex_digit(bytes[i] as int / 16));
    assert(hex_digits(bytes)[2 * i + 1] == hex_digit(bytes[i] as int % 16));
}

} // verus!
