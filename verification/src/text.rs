//! Text helpers shared by the other modules: decimal numbers and string comparison.

use vstd::prelude::*;
use vstd::string::*;
use vstd::utf8::is_ascii_chars;

verus! {

/// The character that stands for the decimal digit `d`.
pub open spec fn digit_char(d: int) -> char {
    seq!['0', '1', '2', '3', '4', '5', '6', '7', '8', '9'][d]
}

/// The decimal notation of `n`, most significant digit first, without leading zeros.
pub open spec fn decimal(n: nat) -> Seq<char>
    decreases n,
{
    if n < 10 {
        seq![digit_char(n as int)]
    } else {
        decimal(n / 10).push(digit_char((n % 10) as int))
    }
}

fn digit_str(d: u64) -> (s: &'static str)
    requires
        d < 10,
    ensures
        s@ == seq![digit_char(d as int)],
{
    proof {
        reveal_strlit("0");
        reveal_strlit("1");
        reveal_strlit("2");
        reveal_strlit("3");
        reveal_strlit("4");
        reveal_strlit("5");
        reveal_strlit("6");
        reveal_strlit("7");
        reveal_strlit("8");
        reveal_strlit("9");
    }
    if d == 0 {
        "0"
    } else if d == 1 {
        "1"
    } else if d == 2 {
        "2"
    } else if d == 3 {
        "3"
    } else if d == 4 {
        "4"
    } else if d == 5 {
        "5"
    } else if d == 6 {
        "6"
    } else if d == 7 {
        "7"
    } else if d == 8 {
        "8"
    } else {
        "9"
    }
}

/// Writes `n` in decimal notation.
pub fn decimal_string(n: u64) -> (s: String)
    ensures
        s@ == decimal(n as nat),
    decreases n,
{
    if n < 10 {
        String::from_str(digit_str(n))
    } else {
        let mut s = decimal_string(n / 10);
        s.append(digit_str(n % 10));
        s
    }
}

/// Whether two strings hold the same characters.
pub fn same_text(a: &str, b: &str) -> (r: bool)
    ensures
        r == (a@ == b@),
{
    a.to_owned() == b.to_owned()
}

/// The texts of a list of strings.
pub open spec fn texts(list: Seq<String>) -> Seq<Seq<char>> {
    Seq::new(list.len(), |i: int| list[i]@)
}

/// Whether a character is white space: one of the characters that Unicode gives
/// the property `White_Space`.
pub open spec fn is_white_space(c: char) -> bool {
    ||| '\u{9}' <= c && c <= '\u{d}'
    ||| c == ' '
    ||| c == '\u{85}'
    ||| c == '\u{a0}'
    ||| c == '\u{1680}'
    ||| '\u{2000}' <= c && c <= '\u{200a}'
    ||| c == '\u{2028}'
    ||| c == '\u{2029}'
    ||| c == '\u{202f}'
    ||| c == '\u{205f}'
    ||| c == '\u{3000}'
}

/// A text without the white space at its start.
pub open spec fn trimmed_start(text: Seq<char>) -> Seq<char>
    decreases text.len(),
{
    if text.len() > 0 && is_white_space(text[0]) {
        trimmed_start(text.drop_first())
    } else {
        text
    }
}

/// A text without the white space at its end.
pub open spec fn trimmed_end(text: Seq<char>) -> Seq<char>
    decreases text.len(),
{
    if text.len() > 0 && is_white_space(text.last()) {
        trimmed_end(text.drop_last())
    } else {
        text
    }
}

/// What is left of a text when the white space at both of its ends is taken away.
pub open spec fn trimmed(text: Seq<char>) -> Seq<char> {
    trimmed_end(trimmed_start(text))
}

/// A text with each of its characters in lower case.
pub uninterp spec fn lowercase(text: Seq<char>) -> Seq<char>;

/// Whether a character is one of the ten decimal digits.
pub open spec fn is_digit(c: char) -> bool {
    '0' <= c && c <= '9'
}

/// The number that a sequence of decimal digits stands for; zero for none.
pub open spec fn digits_value(digits: Seq<char>) -> nat
    decreases digits.len(),
{
    if digits.len() == 0 {
        0
    } else {
        digits_value(digits.drop_last()) * 10 + (digits.last() as nat - '0' as nat) as nat
    }
}

/// The digits of a number in decimal notation: the text without a leading `+`.
pub open spec fn unsigned_digits(text: Seq<char>) -> Seq<char> {
    if text.len() > 0 && text[0] == '+' {
        text.drop_first()
    } else {
        text
    }
}

/// The number that a text stands for in decimal notation: one digit or more, with
/// an optional `+` before them and nothing else, or none where the text is not
/// of that form.
pub open spec fn decimal_number(text: Seq<char>) -> Option<nat> {
    let digits = unsigned_digits(text);
    if digits.len() > 0 && (forall|i: int| 0 <= i < digits.len() ==> is_digit(#[trigger] digits[i])) {
        Some(digits_value(digits))
    } else {
        None
    }
}

/// The parts of a text before and after its first dot; none where it has no dot.
pub open spec fn split_dot(text: Seq<char>) -> Option<(Seq<char>, Seq<char>)>
    decreases text.len(),
{
    if text.len() == 0 {
        None
    } else if text[0] == '.' {
        Some((Seq::<char>::empty(), text.skip(1)))
    } else {
        match split_dot(text.skip(1)) {
            Some((before, after)) => Some((seq![text[0]] + before, after)),
            None => None,
        }
    }
}

/// A text with a dot is split at its first dot.
pub proof fn lemma_split_at_first_dot(text: Seq<char>, at: int)
    requires
        0 <= at < text.len(),
        text[at] == '.',
        forall|k: int| 0 <= k < at ==> text[k] != '.',
    ensures
        split_dot(text) == Some((text.take(at), text.skip(at + 1))),
    decreases at,
{
    if at == 0 {
        assert(text.take(0) =~= Seq::<char>::empty());
    } else {
        let rest = text.skip(1);
        assert(rest[at - 1] == text[at]);
        assert forall|k: int| 0 <= k < at - 1 implies rest[k] != '.' by {
            assert(rest[k] == text[k + 1]);
        }
        lemma_split_at_first_dot(rest, at - 1);
        assert(seq![text[0]] + rest.take(at - 1) =~= text.take(at));
        assert(rest.skip(at) =~= text.skip(at + 1));
    }
}

/// A text without a dot is not split.
pub proof fn lemma_split_without_dot(text: Seq<char>)
    requires
        forall|k: int| 0 <= k < text.len() ==> text[k] != '.',
    ensures
        split_dot(text) is None,
    decreases text.len(),
{
    if text.len() > 0 {
        let rest = text.skip(1);
        assert forall|k: int| 0 <= k < rest.len() implies rest[k] != '.' by {
            assert(rest[k] == text[k + 1]);
        }
        lemma_split_without_dot(rest);
    }
}

/// The two parts of a split text, with a dot between them, are the text.
pub proof fn lemma_split_joins(text: Seq<char>)
    requires
        split_dot(text) is Some,
    ensures
        split_dot(text) matches Some(parts) && text == parts.0 + seq!['.'] + parts.1,
    decreases text.len(),
{
    if text[0] == '.' {
        assert(text =~= Seq::<char>::empty() + seq!['.'] + text.skip(1));
    } else {
        let rest = text.skip(1);
        lemma_split_joins(rest);
        let parts = split_dot(rest)->0;
        assert(text =~= seq![text[0]] + rest);
        assert(text =~= (seq![text[0]] + parts.0) + seq!['.'] + parts.1);
    }
}

/// Splits a text of ASCII characters at its first dot: the parts before and after
/// it, or nothing where the text has no dot.
pub(crate) fn split_once_dot(text: &str) -> (r: Option<(&str, &str)>)
    requires
        text.is_ascii(),
    ensures
        r is Some <==> split_dot(text@) is Some,
        r matches Some(parts) ==> split_dot(text@) == Some((parts.0@, parts.1@)) && parts.0.is_ascii()
            && parts.1.is_ascii(),
{
    let len = text.unicode_len();
    let mut i: usize = 0;
    while i < len
        invariant
            i <= len,
            len == text@.len(),
            text.is_ascii(),
            forall|k: int| 0 <= k < i ==> text@[k] != '.',
        decreases len - i,
    {
        let byte = text.get_ascii(i);
        let ghost c = text@[i as int];
        assert('\0' <= c <= '\u{7f}');
        if byte == 46 {
            assert(c == '.');
            proof {
                lemma_split_at_first_dot(text@, i as int);
            }
            let before = text.substring_ascii(0, i);
            let after = text.substring_ascii(i + 1, len);
            assert(before@ =~= text@.take(i as int));
            assert(after@ =~= text@.skip(i + 1));
            return Some((before, after));
        }
        assert(c != '.');
        i += 1;
    }
    proof {
        lemma_split_without_dot(text@);
    }
    None
}

/// `str::trim`: the text without the white space at its ends, where white space
/// is what Unicode gives the property `White_Space`.
#[verifier::external_body]
pub(crate) fn trim(text: &str) -> (r: &str)
    ensures
        r@ == trimmed(text@),
{
    text.trim()
}

/// `str::to_lowercase`: the text in lower case.
#[verifier::external_body]
pub(crate) fn to_lowercase(text: &str) -> (r: String)
    ensures
        r@ == lowercase(text@),
{
    text.to_lowercase()
}

/// A number written in decimal notation is made of digits, and is read back as the
/// same number.
pub proof fn lemma_decimal_read_back(n: nat)
    ensures
        decimal_number(decimal(n)) == Some(n),
        decimal(n).len() > 0,
        forall|i: int| 0 <= i < decimal(n).len() ==> is_digit(#[trigger] decimal(n)[i]),
        digits_value(decimal(n)) == n,
    decreases n,
{
    let text = decimal(n);
    if n < 10 {
        assert(text.drop_last() =~= Seq::<char>::empty());
        assert(digits_value(text) == digits_value(text.drop_last()) * 10 + (text.last() as nat
            - '0' as nat) as nat);
        assert(digits_value(text.drop_last()) == 0);
    } else {
        lemma_decimal_read_back(n / 10);
        assert(text.drop_last() =~= decimal(n / 10));
        assert(text.last() == digit_char((n % 10) as int));
    }
    assert(text[0] != '+');
    assert(unsigned_digits(text) == text);
}

/// The value of the digits read so far is never more than the value of all digits.
pub proof fn lemma_digits_value_grows(digits: Seq<char>, count: int)
    requires
        0 <= count <= digits.len(),
    ensures
        digits_value(digits.take(count)) <= digits_value(digits),
    decreases digits.len(),
{
    if count == digits.len() {
        assert(digits.take(count) =~= digits);
    } else {
        assert(digits.drop_last().take(count) =~= digits.take(count));
        lemma_digits_value_grows(digits.drop_last(), count);
    }
}

/// A text that stands for a number is made of ASCII characters.
pub proof fn lemma_number_is_ascii(text: Seq<char>)
    requires
        decimal_number(text) is Some,
    ensures
        is_ascii_chars(text),
{
    let digits = unsigned_digits(text);
    assert forall|i: int| 0 <= i < text.len() implies '\0' <= #[trigger] text[i] <= '\u{7f}' by {
        if digits.len() == text.len() {
            assert(is_digit(digits[i]));
        } else if i > 0 {
            assert(is_digit(digits[i - 1]));
            assert(digits[i - 1] == text[i]);
        }
    }
}

/// Reads a number in decimal notation: one digit or more, with an optional `+`
/// before them and nothing else. A text of another form gives nothing, and so does
/// a number that `u64` does not hold.
pub fn parse_u64(text: &str) -> (r: Option<u64>)
    ensures
        match r {
            Some(n) => decimal_number(text@) == Some(n as nat),
            None => decimal_number(text@) matches Some(n) ==> n > u64::MAX,
        },
{
    if !text.is_ascii() {
        proof {
            if decimal_number(text@) is Some {
                lemma_number_is_ascii(text@);
            }
        }
        return None;
    }
    let len = text.unicode_len();
    let start: usize = if len > 0 && text.get_ascii(0) == 43 {
        1
    } else {
        0
    };
    let ghost digits = unsigned_digits(text@);
    assert(digits =~= text@.skip(start as int));
    if start == len {
        return None;
    }
    let mut value: u64 = 0;
    let mut i: usize = start;
    assert(text@.subrange(start as int, i as int) =~= Seq::<char>::empty());
    while i < len
        invariant
            start <= i <= len,
            len == text@.len(),
            text.is_ascii(),
            digits == text@.skip(start as int),
            digits == unsigned_digits(text@),
            digits.len() > 0,
            forall|k: int| start <= k < i ==> is_digit(#[trigger] text@[k]),
            value == digits_value(text@.subrange(start as int, i as int)),
        decreases len - i,
    {
        let byte = text.get_ascii(i);
        let ghost c = text@[i as int];
        assert('\0' <= c <= '\u{7f}');
        assert(byte == c as u8);
        if byte < 48 || byte > 57 {
            assert(!is_digit(digits[i - start]));
            return None;
        }
        assert(is_digit(c));
        let digit: u64 = (byte - 48) as u64;
        let ghost read = text@.subrange(start as int, i + 1);
        assert(read.drop_last() =~= text@.subrange(start as int, i as int));
        assert(read.last() == c);
        assert(digits_value(read) == value * 10 + digit);
        if value > (u64::MAX - digit) / 10 {
            proof {
                assert(read =~= digits.take(i + 1 - start));
                lemma_digits_value_grows(digits, i + 1 - start);
            }
            return None;
        }
        value = value * 10 + digit;
        i += 1;
    }
    assert(text@.subrange(start as int, len as int) =~= digits);
    assert forall|k: int| 0 <= k < digits.len() implies is_digit(#[trigger] digits[k]) by {
        assert(digits[k] == text@[k + start]);
    }
    Some(value)
}

} // verus!
