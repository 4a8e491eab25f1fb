//! Operations on text: decimal numbers, prefixes, blanks and replacement.

use vstd::prelude::*;
use vstd::utf8;

verus! {

/// The decimal digit of a number below ten.
pub open spec fn digit_char(d: nat) -> char {
    ((48 + d) as u8) as char
}

/// Whether a character is a decimal digit.
pub open spec fn is_digit(c: char) -> bool {
    '0' <= c <= '9'
}

/// The decimal digits of a number, without leading zeros.
pub open spec fn decimal(n: nat) -> Seq<char>
    decreases n,
{
    if n < 10 {
        seq![digit_char(n)]
    } else {
        decimal(n / 10).push(digit_char(n % 10))
    }
}

/// The decimal digits of an integer, behind a minus sign where it is negative.
pub open spec fn signed_decimal(n: int) -> Seq<char> {
    if n < 0 {
        "-"@ + decimal((-n) as nat)
    } else {
        decimal(n as nat)
    }
}

/// Whether a text is made of decimal digits alone.
pub open spec fn all_digits(s: Seq<char>) -> bool {
    forall|i: int| 0 <= i < s.len() ==> is_digit(#[trigger] s[i])
}

/// The number that decimal digits spell.
pub open spec fn digits_value(s: Seq<char>) -> nat
    decreases s.len(),
{
    if s.len() == 0 {
        0
    } else {
        digits_value(s.drop_last()) * 10 + (s.last() as int - 48) as nat
    }
}

/// A text without the plus sign that may stand in front of it.
pub open spec fn without_plus(s: Seq<char>) -> Seq<char> {
    if s.len() > 0 && s[0] == '+' {
        s.skip(1)
    } else {
        s
    }
}

/// The `u64` that a text spells: decimal digits, behind a plus sign or not.
pub open spec fn parsed_u64(s: Seq<char>) -> Option<u64> {
    let digits = without_plus(s);
    if digits.len() > 0 && all_digits(digits) && digits_value(digits) <= u64::MAX {
        Some(digits_value(digits) as u64)
    } else {
        None
    }
}

/// Whether a text starts with a prefix.
pub open spec fn has_prefix(s: Seq<char>, prefix: Seq<char>) -> bool {
    prefix.len() <= s.len() && s.subrange(0, prefix.len() as int) == prefix
}

/// What follows a prefix, where the text starts with it.
pub open spec fn stripped(s: Seq<char>, prefix: Seq<char>) -> Option<Seq<char>> {
    if has_prefix(s, prefix) {
        Some(s.skip(prefix.len() as int))
    } else {
        None
    }
}

/// Whether a character has the Unicode property `White_Space`.
pub open spec fn is_blank(c: char) -> bool {
    let n = c as u32;
    ||| 0x9 <= n <= 0xD
    ||| n == 0x20
    ||| n == 0x85
    ||| n == 0xA0
    ||| n == 0x1680
    ||| 0x2000 <= n <= 0x200A
    ||| n == 0x2028
    ||| n == 0x2029
    ||| n == 0x202F
    ||| n == 0x205F
    ||| n == 0x3000
}

/// A text without the blanks at its end.
pub open spec fn trimmed_end(s: Seq<char>) -> Seq<char>
    decreases s.len(),
{
    if s.len() > 0 && is_blank(s.last()) {
        trimmed_end(s.drop_last())
    } else {
        s
    }
}

/// A text without the blanks at its start.
pub open spec fn trimmed_start(s: Seq<char>) -> Seq<char>
    decreases s.len(),
{
    if s.len() > 0 && is_blank(s[0]) {
        trimmed_start(s.skip(1))
    } else {
        s
    }
}

/// A text without the blanks at its start and its end.
pub open spec fn trimmed(s: Seq<char>) -> Seq<char> {
    trimmed_start(trimmed_end(s))
}

/// A text with each occurrence of a pattern replaced, taken from the left and
/// without overlap.
pub open spec fn replaced(s: Seq<char>, pattern: Seq<char>, by: Seq<char>) -> Seq<char>
    decreases s.len(),
    when pattern.len() > 0
{
    if s.len() < pattern.len() {
        s
    } else if has_prefix(s, pattern) {
        by + replaced(s.skip(pattern.len() as int), pattern, by)
    } else {
        seq![s[0]] + replaced(s.skip(1), pattern, by)
    }
}

/// Whether a pattern stands somewhere in a text.
pub open spec fn occurs(s: Seq<char>, pattern: Seq<char>) -> bool {
    exists|i: int|
        0 <= i && i + pattern.len() <= s.len() && #[trigger] s.subrange(i, i + pattern.len())
            == pattern
}

/// What a list of texts holds.
pub open spec fn texts_view(texts: Seq<String>) -> Seq<Seq<char>> {
    texts.map_values(|text: String| text@)
}

/// Whether two texts are the same.
pub fn same(a: &str, b: &str) -> (r: bool)
    ensures
        r == (a@ == b@),
{
    let left: String = a.to_owned();
    let right: String = b.to_owned();
    left == right
}

/// The number of bytes that a text takes in UTF-8.
pub fn byte_len(s: &str) -> (r: usize)
    ensures
        r == utf8::encode_utf8(s@).len(),
{
    s.as_bytes().len()
}

/// A text behind another.
pub fn join(a: &str, b: &str) -> (r: String)
    ensures
        r@ == a@ + b@,
{
    let mut out: String = a.to_owned();
    out.append(b);
    out
}

/// What follows a prefix, where the text starts with it.
pub fn strip_prefix<'a>(s: &'a str, prefix: &str) -> (r: Option<&'a str>)
    ensures
        match stripped(s@, prefix@) {
            Some(rest) => r matches Some(found) && found@ == rest,
            None => r is None,
        },
{
    let total: usize = s.unicode_len();
    let front: usize = prefix.unicode_len();
    if front <= total && same(s.substring_char(0, front), prefix) {
        Some(s.substring_char(front, total))
    } else {
        None
    }
}

/// The decimal digits of a number.
pub fn decimal_text(n: u64) -> (r: String)
    ensures
        r@ == decimal(n as nat),
    decreases n,
{
    let last: usize = (n % 10) as usize;
    proof {
        reveal_strlit("0123456789");
    }
    let digit: &str = "0123456789".substring_char(last, last + 1);
    assert(digit@ =~= seq![digit_char((n % 10) as nat)]);
    if n < 10 {
        digit.to_owned()
    } else {
        let mut out: String = decimal_text(n / 10);
        out.append(digit);
        assert(out@ =~= decimal((n / 10) as nat).push(digit_char((n % 10) as nat)));
        out
    }
}

/// The decimal digits of an integer, behind a minus sign where it is negative.
pub fn signed_decimal_text(n: i64) -> (r: String)
    ensures
        r@ == signed_decimal(n as int),
{
    if n >= 0 {
        decimal_text(n as u64)
    } else {
        let magnitude: u64 = if n == i64::MIN {
            0x8000_0000_0000_0000
        } else {
            (-n) as u64
        };
        join("-", decimal_text(magnitude).as_str())
    }
}

/// Adding digits to a number does not make it smaller.
proof fn lemma_digits_grow(s: Seq<char>, n: int)
    requires
        0 <= n <= s.len(),
        all_digits(s),
    ensures
        digits_value(s.take(n)) <= digits_value(s),
    decreases s.len(),
{
    if n < s.len() {
        lemma_digits_grow(s.drop_last(), n);
        assert(s.drop_last().take(n) =~= s.take(n));
    } else {
        assert(s.take(n) =~= s);
    }
}

/// The `u64` that a text spells: decimal digits, behind a plus sign or not.
pub fn parse_u64(s: &str) -> (r: Option<u64>)
    ensures
        r == parsed_u64(s@),
{
    let total: usize = s.unicode_len();
    let start: usize = if total > 0 && s.get_char(0) == '+' {
        1
    } else {
        0
    };
    if start == total {
        return None;
    }
    let ghost digits = without_plus(s@);
    assert(digits =~= s@.skip(start as int));
    let mut value: u64 = 0;
    let mut i: usize = start;
    assert(digits.take(0) =~= Seq::<char>::empty());
    while i < total
        invariant
            start <= i <= total,
            total == s@.len(),
            start < total,
            digits == without_plus(s@),
            digits == s@.skip(start as int),
            all_digits(digits.take(i - start)),
            value == digits_value(digits.take(i - start)),
        decreases total - i,
    {
        let c: char = s.get_char(i);
        assert(digits[i - start] == c);
        let ghost seen = digits.take(i - start + 1);
        assert(seen.drop_last() =~= digits.take(i - start));
        assert(seen.last() == c);
        if !('0' <= c && c <= '9') {
            assert(!is_digit(digits[i - start]));
            return None;
        }
        assert(all_digits(seen)) by {
            assert forall|k: int| 0 <= k < seen.len() implies is_digit(#[trigger] seen[k]) by {
                if k < i - start {
                    assert(seen[k] == digits.take(i - start)[k]);
                }
            }
        }
        let d: u64 = (c as u32 - 48) as u64;
        assert(digits_value(seen) == value * 10 + d);
        if value > (u64::MAX - d) / 10 {
            assert(digits_value(seen) > u64::MAX);
            proof {
                if all_digits(digits) {
                    lemma_digits_grow(digits, i - start + 1);
                }
            }
            return None;
        }
        value = value * 10 + d;
        i = i + 1;
    }
    assert(digits.take(total - start) =~= digits);
    Some(value)
}

/// Whether a character has the Unicode property `White_Space`.
pub fn blank(c: char) -> (r: bool)
    ensures
        r == is_blank(c),
{
    let n: u32 = c as u32;
    (0x9 <= n && n <= 0xD) || n == 0x20 || n == 0x85 || n == 0xA0 || n == 0x1680 || (0x2000 <= n
        && n <= 0x200A) || n == 0x2028 || n == 0x2029 || n == 0x202F || n == 0x205F || n == 0x3000
}

/// A text without the blanks at its end.
pub fn trim_end(s: &str) -> (r: &str)
    ensures
        r@ == trimmed_end(s@),
{
    let total: usize = s.unicode_len();
    let mut end: usize = total;
    assert(s@.take(total as int) =~= s@);
    while end > 0 && blank(s.get_char(end - 1))
        invariant
            end <= total,
            total == s@.len(),
            trimmed_end(s@.take(end as int)) == trimmed_end(s@),
        decreases end,
    {
        assert(s@.take(end as int).drop_last() =~= s@.take(end - 1));
        end = end - 1;
    }
    assert(trimmed_end(s@.take(end as int)) == s@.take(end as int));
    assert(s@.subrange(0, end as int) =~= s@.take(end as int));
    s.substring_char(0, end)
}

/// A text without the blanks at its start and its end.
pub fn trim(s: &str) -> (r: &str)
    ensures
        r@ == trimmed(s@),
{
    let kept: &str = trim_end(s);
    let total: usize = kept.unicode_len();
    let mut start: usize = 0;
    assert(kept@.skip(0) =~= kept@);
    while start < total && blank(kept.get_char(start))
        invariant
            start <= total,
            total == kept@.len(),
            trimmed_start(kept@.skip(start as int)) == trimmed_start(kept@),
        decreases total - start,
    {
        assert(kept@.skip(start as int).skip(1) =~= kept@.skip(start + 1));
        start = start + 1;
    }
    assert(trimmed_start(kept@.skip(start as int)) == kept@.skip(start as int));
    assert(kept@.subrange(start as int, total as int) =~= kept@.skip(start as int));
    kept.substring_char(start, total)
}

/// A text with each occurrence of a pattern replaced, taken from the left and
/// without overlap.
pub fn replace_all(s: &str, pattern: &str, by: &str) -> (r: String)
    requires
        pattern@.len() > 0,
    ensures
        r@ == replaced(s@, pattern@, by@),
{
    let total: usize = s.unicode_len();
    let width: usize = pattern.unicode_len();
    let mut out: String = String::new();
    let mut at: usize = 0;
    assert(s@.skip(0) =~= s@);
    assert(out@ + replaced(s@, pattern@, by@) =~= replaced(s@, pattern@, by@));
    while at <= total && width <= total - at
        invariant
            at <= total,
            total == s@.len(),
            width == pattern@.len(),
            width > 0,
            out@ + replaced(s@.skip(at as int), pattern@, by@) == replaced(s@, pattern@, by@),
        decreases total - at,
    {
        let ghost rest = s@.skip(at as int);
        assert(rest.subrange(0, width as int) =~= s@.subrange(at as int, at + width));
        let ghost before = out@;
        if same(s.substring_char(at, at + width), pattern) {
            out.append(by);
            assert(rest.skip(width as int) =~= s@.skip(at + width));
            assert(out@ + replaced(s@.skip(at + width), pattern@, by@) =~= before + (by@ + replaced(
                s@.skip(at + width),
                pattern@,
                by@,
            )));
            at = at + width;
        } else {
            out.append(s.substring_char(at, at + 1));
            assert(s@.subrange(at as int, at + 1) =~= seq![rest[0]]);
            assert(rest.skip(1) =~= s@.skip(at + 1));
            assert(out@ + replaced(s@.skip(at + 1), pattern@, by@) =~= before + (seq![rest[0]]
                + replaced(s@.skip(at + 1), pattern@, by@)));
            at = at + 1;
        }
    }
    let ghost before = out@;
    assert(s@.subrange(at as int, total as int) =~= s@.skip(at as int));
    out.append(s.substring_char(at, total));
    out
}

/// What the debug form of a string is: the text in quotes, with escapes.
pub uninterp spec fn debug_form(s: Seq<char>) -> Seq<char>;

/// Calls `format!` with the `Debug` impl of `str`. The text depends on the string
/// alone.
#[verifier::external_body]
pub(crate) fn debug_text(s: &str) -> (r: String)
    ensures
        r@ == debug_form(s@),
{
    format!("{:?}", s)
}

/// The decimal digits of a number spell it.
pub proof fn lemma_decimal_spells(n: nat)
    ensures
        decimal(n).len() > 0,
        all_digits(decimal(n)),
        digits_value(decimal(n)) == n,
    decreases n,
{
    if n < 10 {
        let s = decimal(n);
        assert(s.drop_last() =~= Seq::<char>::empty());
        assert(s.last() as int == 48 + n);
        assert(digits_value(s) == digits_value(s.drop_last()) * 10 + n);
    } else {
        lemma_decimal_spells(n / 10);
        let s = decimal(n);
        assert(s.drop_last() =~= decimal(n / 10));
        assert(s.last() as int == 48 + n % 10);
        assert forall|i: int| 0 <= i < s.len() implies is_digit(#[trigger] s[i]) by {
            if i < s.len() - 1 {
                assert(s[i] == decimal(n / 10)[i]);
            }
        }
    }
}

/// Reading the decimal digits of a `u64` gives it back.
pub proof fn law_decimal_is_parsed_back(n: u64)
    ensures
        parsed_u64(decimal(n as nat)) == Some(n),
{
    lemma_decimal_spells(n as nat);
    let s = decimal(n as nat);
    assert(is_digit(s[0]));
    assert(without_plus(s) == s);
}

/// What is cut from the end of a text is blank, and what is left does not end in a
/// blank.
pub proof fn law_blanks_at_the_end_are_cut(s: Seq<char>)
    ensures
        trimmed_end(s).len() <= s.len(),
        trimmed_end(s) == s.take(trimmed_end(s).len() as int),
        trimmed_end(s).len() > 0 ==> !is_blank(trimmed_end(s).last()),
        forall|i: int| trimmed_end(s).len() <= i < s.len() ==> is_blank(#[trigger] s[i]),
        trimmed_end(s).len() == 0 <==> forall|i: int|
            0 <= i < s.len() ==> is_blank(#[trigger] s[i]),
    decreases s.len(),
{
    if s.len() > 0 && is_blank(s.last()) {
        let shorter = s.drop_last();
        law_blanks_at_the_end_are_cut(shorter);
        let kept = trimmed_end(s);
        assert(s.take(kept.len() as int) =~= shorter.take(kept.len() as int));
        assert forall|i: int| kept.len() <= i < s.len() implies is_blank(#[trigger] s[i]) by {
            if i < s.len() - 1 {
                assert(is_blank(shorter[i]));
            }
        }
        if kept.len() > 0 {
            assert(kept.last() == s[kept.len() - 1]);
        }
    } else {
        assert(s.take(s.len() as int) =~= s);
        if s.len() > 0 {
            assert(!is_blank(s[s.len() - 1]));
        }
    }
}

/// A pattern alone is replaced as a whole.
pub proof fn law_pattern_alone_is_replaced(pattern: Seq<char>, by: Seq<char>)
    requires
        pattern.len() > 0,
    ensures
        replaced(pattern, pattern, by) == by,
{
    assert(pattern.subrange(0, pattern.len() as int) =~= pattern);
    let rest = pattern.skip(pattern.len() as int);
    assert(rest =~= Seq::empty());
    assert(replaced(rest, pattern, by) =~= rest);
    assert(by + rest =~= by);
}

/// A text in which the pattern does not stand is left as it is.
pub proof fn law_replacement_needs_an_occurrence(
    s: Seq<char>,
    pattern: Seq<char>,
    by: Seq<char>,
)
    requires
        pattern.len() > 0,
        !occurs(s, pattern),
    ensures
        replaced(s, pattern, by) == s,
    decreases s.len(),
{
    if s.len() >= pattern.len() {
        assert(s.subrange(0, 0int + pattern.len()) != pattern);
        assert(!occurs(s.skip(1), pattern)) by {
            assert forall|i: int| 0 <= i && i + pattern.len() <= s.skip(1).len() implies #[trigger]
            s.skip(1).subrange(i, i + pattern.len()) != pattern by {
                assert(s.skip(1).subrange(i, i + pattern.len()) =~= s.subrange(
                    i + 1,
                    i + 1 + pattern.len(),
                ));
            }
        }
        law_replacement_needs_an_occurrence(s.skip(1), pattern, by);
        assert(seq![s[0]] + s.skip(1) =~= s);
    }
}

/// Cutting a prefix off is undone by putting it back: what is left is the one text that,
/// behind the prefix, gives the whole.
pub proof fn law_prefix_is_cut(s: Seq<char>, prefix: Seq<char>, rest: Seq<char>)
    ensures
        stripped(s, prefix) == Some(rest) <==> s == prefix + rest,
        has_prefix(prefix + rest, prefix),
        has_prefix(s, prefix) <==> stripped(s, prefix) is Some,
{
    let whole = prefix + rest;
    assert(whole.subrange(0, prefix.len() as int) =~= prefix);
    assert(whole.skip(prefix.len() as int) =~= rest);
    if has_prefix(s, prefix) {
        let k = prefix.len() as int;
        assert(s =~= s.subrange(0, k) + s.skip(k));
    }
}

/// The blanks are the tabs, line breaks and spaces of Unicode, and nothing else.
pub proof fn law_blanks_are_white_space(c: char)
    ensures
        is_blank(c) <==> (c == '\t' || c == '\n' || c == '\r' || c == ' ' || c == '\u{b}' || c
            == '\u{c}' || c == '\u{85}' || c == '\u{a0}' || c == '\u{1680}' || '\u{2000}' <= c
            <= '\u{200a}' || c == '\u{2028}' || c == '\u{2029}' || c == '\u{202f}' || c
            == '\u{205f}' || c == '\u{3000}'),
{
}

/// Whether a text is made of blanks alone.
pub open spec fn all_blank(s: Seq<char>) -> bool {
    forall|i: int| 0 <= i < s.len() ==> is_blank(#[trigger] s[i])
}

/// Of a text with blanks behind it, the text is left.
pub proof fn law_text_is_left_of_its_blanks(kept: Seq<char>, after: Seq<char>)
    requires
        kept.len() > 0 ==> !is_blank(kept.last()),
        all_blank(after),
    ensures
        trimmed_end(kept + after) == kept,
    decreases after.len(),
{
    let s = kept + after;
    if after.len() == 0 {
        assert(s =~= kept);
    } else {
        assert(is_blank(after[after.len() - 1]));
        assert(s.drop_last() =~= kept + after.drop_last());
        law_text_is_left_of_its_blanks(kept, after.drop_last());
    }
}

/// Of a text with blanks around it, the text is left.
pub proof fn law_text_is_left_between_blanks(
    before: Seq<char>,
    kept: Seq<char>,
    after: Seq<char>,
)
    requires
        all_blank(before),
        all_blank(after),
        kept.len() > 0 ==> !is_blank(kept[0]) && !is_blank(kept.last()),
    ensures
        trimmed(before + kept + after) == kept,
{
    if kept.len() > 0 {
        assert((before + kept).last() == kept.last());
        law_text_is_left_of_its_blanks(before + kept, after);
        lemma_front_blanks_are_cut(before, kept);
    } else {
        assert(before + kept + after =~= Seq::<char>::empty() + (before + after));
        assert(all_blank(before + after));
        law_text_is_left_of_its_blanks(Seq::empty(), before + after);
        assert(kept =~= Seq::empty());
    }
}

proof fn lemma_front_blanks_are_cut(before: Seq<char>, kept: Seq<char>)
    requires
        all_blank(before),
        kept.len() > 0 ==> !is_blank(kept[0]),
    ensures
        trimmed_start(before + kept) == kept,
    decreases before.len(),
{
    let s = before + kept;
    if before.len() == 0 {
        assert(s =~= kept);
    } else {
        assert(is_blank(before[0]));
        let shorter = before.skip(1);
        assert forall|i: int| 0 <= i < shorter.len() implies is_blank(#[trigger] shorter[i]) by {
            assert(is_blank(before[i + 1]));
        }
        assert(s.skip(1) =~= shorter + kept);
        lemma_front_blanks_are_cut(shorter, kept);
    }
}

/// The first place where a pattern stands is replaced, what is in front of it is kept,
/// and the replacement goes on behind it.
pub proof fn law_first_occurrence_is_replaced(
    before: Seq<char>,
    pattern: Seq<char>,
    after: Seq<char>,
    by: Seq<char>,
)
    requires
        pattern.len() > 0,
        forall|i: int|
            0 <= i < before.len() ==> #[trigger] (before + pattern + after).subrange(
                i,
                i + pattern.len(),
            ) != pattern,
    ensures
        replaced(before + pattern + after, pattern, by) == before + by + replaced(
            after,
            pattern,
            by,
        ),
    decreases before.len(),
{
    let s = before + pattern + after;
    let tail = replaced(after, pattern, by);
    if before.len() == 0 {
        assert(s.subrange(0, pattern.len() as int) =~= pattern);
        assert(s.skip(pattern.len() as int) =~= after);
        assert(before + by + tail =~= by + tail);
    } else {
        let shorter = before.skip(1);
        assert(s.subrange(0, 0int + pattern.len()) != pattern);
        assert(s.skip(1) =~= shorter + pattern + after);
        assert forall|i: int| 0 <= i < shorter.len() implies #[trigger] (shorter + pattern
            + after).subrange(i, i + pattern.len()) != pattern by {
            assert((shorter + pattern + after).subrange(i, i + pattern.len()) =~= s.subrange(
                i + 1,
                i + 1 + pattern.len(),
            ));
        }
        law_first_occurrence_is_replaced(shorter, pattern, after, by);
        assert(seq![s[0]] + (shorter + by + tail) =~= before + by + tail);
    }
}

/// A pattern stands in a text exactly where the text has it between two others.
pub proof fn law_occurrence_is_in_between(
    before: Seq<char>,
    pattern: Seq<char>,
    after: Seq<char>,
    s: Seq<char>,
)
    ensures
        occurs(before + pattern + after, pattern),
        occurs(s, pattern) ==> exists|i: int|
            0 <= i && i + pattern.len() <= s.len() && s == #[trigger] s.take(i) + pattern + s.skip(
                i + pattern.len(),
            ),
{
    let whole = before + pattern + after;
    let at = before.len() as int;
    assert(whole.subrange(at, at + pattern.len()) =~= pattern);
    if occurs(s, pattern) {
        let i = choose|i: int|
            0 <= i && i + pattern.len() <= s.len() && #[trigger] s.subrange(i, i + pattern.len())
                == pattern;
        assert(s =~= s.take(i) + pattern + s.skip(i + pattern.len()));
    }
}

/// Digits are written from the left to the right: a number below ten is one digit, and
/// ten times a number and a digit is the number and then the digit.
pub proof fn law_digits_are_written_in_order(n: nat, d: nat)
    requires
        d < 10,
    ensures
        decimal(d).len() == 1,
        decimal(d)[0] as int == '0' as int + d,
        n > 0 ==> decimal(10 * n + d) == decimal(n) + decimal(d),
        signed_decimal(n as int) == decimal(n),
        n > 0 ==> signed_decimal(-(n as int)) == seq!['-'] + decimal(n),
{
    reveal_strlit("-");
    assert("-"@ =~= seq!['-']);
    if n > 0 {
        assert((10 * n + d) / 10 == n && (10 * n + d) % 10 == d);
        assert(decimal(n) + decimal(d) =~= decimal(n).push(digit_char(d)));
    }
}

/// A number is read digit by digit: each digit counts ten times what stands in front of
/// it and itself, as long as that fits. Nothing but digits is read, behind a plus sign or
/// not, and no number without a digit.
pub proof fn law_digits_are_read_in_order(s: Seq<char>, c: char)
    ensures
        parsed_u64(Seq::empty()) is None,
        parsed_u64(seq!['+']) is None,
        parsed_u64(seq![c]) == if '0' <= c <= '9' {
            Some((c as int - '0' as int) as u64)
        } else {
            None
        },
        s.len() > 0 && s != seq!['+'] ==> parsed_u64(s.push(c)) == match parsed_u64(s) {
            Some(n) => if '0' <= c <= '9' && n * 10 + (c as int - '0' as int) <= u64::MAX {
                Some((n * 10 + (c as int - '0' as int)) as u64)
            } else {
                None
            },
            None => None,
        },
        s.len() > 0 && s[0] != '+' ==> parsed_u64(seq!['+'] + s) == parsed_u64(s),
{
    assert(without_plus(seq!['+']) =~= Seq::<char>::empty());
    let one = seq![c];
    assert(one.drop_last() =~= Seq::<char>::empty());
    assert(digits_value(one.drop_last()) == 0);
    if '0' <= c <= '9' {
        assert(all_digits(one));
        assert(without_plus(one) == one);
        assert(digits_value(one) == (c as int - 48) as nat);
    } else if c != '+' {
        assert(!is_digit(one[0]));
    }
    if s.len() > 0 && s[0] != '+' {
        assert((seq!['+'] + s).skip(1) =~= s);
    }
    if s.len() > 0 && s != seq!['+'] {
        let longer = s.push(c);
        let digits = without_plus(s);
        if s[0] == '+' {
            assert(s.len() > 1) by {
                if s.len() == 1 {
                    assert(s =~= seq!['+']);
                }
            }
            assert(longer.skip(1) =~= s.skip(1).push(c));
        }
        assert(without_plus(longer) =~= digits.push(c));
        let more = digits.push(c);
        assert(more.drop_last() =~= digits);
        assert(more.last() == c);
        if all_digits(digits) && '0' <= c <= '9' {
            assert(all_digits(more));
            assert(digits_value(more) == digits_value(digits) * 10 + (c as int - 48) as nat);
        } else if all_digits(more) {
            assert(is_digit(more[more.len() - 1]));
            assert forall|i: int| 0 <= i < digits.len() implies is_digit(#[trigger] digits[i]) by {
                assert(is_digit(more[i]));
            }
        }
    }
}

/// What a list of texts holds is each text in its place.
pub proof fn law_texts_are_in_their_places(texts: Seq<String>)
    ensures
        texts_view(texts).len() == texts.len(),
        forall|i: int| 0 <= i < texts.len() ==> #[trigger] texts_view(texts)[i] == texts[i]@,
{
}

} // verus!
