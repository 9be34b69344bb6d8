//! Text: the message type that errors and notices carry, and the few string
//! operations that the rest of the library needs.
use vstd::prelude::*;
use vstd::string::*;
use vstd::utf8::encode_utf8;

use crate::ids::{hyphenated, id_text};

verus! {

/// A message whose wording is known before it is rendered. Keeping the parts apart
/// lets a contract say which message a function produces by plain equality.
#[derive(Debug, PartialEq, Eq)]
pub enum Text {
    /// A fixed wording.
    Plain(&'static str),
    /// Wording that came from elsewhere.
    Owned(String),
    /// A wording around a fixed phrase.
    Around(&'static str, &'static str, &'static str),
    /// Two wordings, and some other text behind them.
    Then(&'static str, &'static str, String),
    /// A wording around an identifier.
    WithId(&'static str, u128, &'static str),
    /// A wording around some other text.
    WithText(&'static str, String, &'static str),
    /// A wording around an identifier and ending in some other text.
    IdThenText(&'static str, u128, &'static str, String),
    /// A wording around two other texts.
    TwoTexts(&'static str, String, &'static str, String),
}

impl View for Text {
    type V = Seq<char>;

    open spec fn view(&self) -> Seq<char> {
        match *self {
            Text::Plain(wording) => wording@,
            Text::Owned(text) => text@,
            Text::Around(before, phrase, after) => before@ + phrase@ + after@,
            Text::Then(first, second, text) => first@ + second@ + text@,
            Text::WithId(before, id, after) => before@ + hyphenated(id) + after@,
            Text::WithText(before, text, after) => before@ + text@ + after@,
            Text::IdThenText(before, id, between, text) => before@ + hyphenated(id) + between@
                + text@,
            Text::TwoTexts(before, first, between, second) => before@ + first@ + between@
                + second@,
        }
    }
}

impl Text {
    /// The message as it is shown.
    pub fn render(&self) -> (r: String)
        ensures
            r@ == self@,
    {
        match self {
            Text::Plain(wording) => (*wording).to_owned(),
            Text::Owned(text) => text.clone(),
            Text::Around(before, phrase, after) => {
                let mut out = (*before).to_owned();
                out.append(phrase);
                out.append(after);
                out
            },
            Text::Then(first, second, text) => {
                let mut out = (*first).to_owned();
                out.append(second);
                out.append(text.as_str());
                out
            },
            Text::WithId(before, id, after) => {
                let mut out = (*before).to_owned();
                out.append(id_text(*id).as_str());
                out.append(after);
                out
            },
            Text::WithText(before, text, after) => {
                let mut out = (*before).to_owned();
                out.append(text.as_str());
                out.append(after);
                out
            },
            Text::IdThenText(before, id, between, text) => {
                let mut out = (*before).to_owned();
                out.append(id_text(*id).as_str());
                out.append(between);
                out.append(text.as_str());
                out
            },
            Text::TwoTexts(before, first, between, second) => {
                let mut out = (*before).to_owned();
                out.append(first.as_str());
                out.append(between);
                out.append(second.as_str());
                out
            },
        }
    }

    /// An equal message.
    pub fn duplicate(&self) -> (r: Text)
        ensures
            r == *self,
    {
        match self {
            Text::Plain(wording) => Text::Plain(wording),
            Text::Owned(text) => Text::Owned(text.clone()),
            Text::Around(before, phrase, after) => Text::Around(before, phrase, after),
            Text::Then(first, second, text) => Text::Then(first, second, text.clone()),
            Text::WithId(before, id, after) => Text::WithId(before, *id, after),
            Text::WithText(before, text, after) => Text::WithText(before, text.clone(), after),
            Text::IdThenText(before, id, between, text) => Text::IdThenText(
                before,
                *id,
                between,
                text.clone(),
            ),
            Text::TwoTexts(before, first, between, second) => Text::TwoTexts(
                before,
                first.clone(),
                between,
                second.clone(),
            ),
        }
    }
}

/// The length of a text in bytes.
pub open spec fn byte_count(text: Seq<char>) -> nat {
    encode_utf8(text).len()
}

/// Computes [`byte_count`].
pub fn byte_len(text: &str) -> (r: usize)
    ensures
        r == byte_count(text@),
{
    text.as_bytes().len()
}

/// Whether two texts hold the same characters.
pub fn same_text(a: &str, b: &str) -> (r: bool)
    ensures
        r == (a@ == b@),
{
    a.to_owned() == b.to_owned()
}

/// Whether a message reads exactly `text`.
pub fn text_equals(message: &Text, text: &str) -> (r: bool)
    ensures
        r == (message@ == text@),
{
    let rendered = message.render();
    same_text(rendered.as_str(), text)
}

/// Whether an optional text is present and holds exactly `wording`.
pub open spec fn is_text(value: Option<String>, wording: Seq<char>) -> bool {
    value is Some && value->0@ == wording
}

/// Tests [`is_text`].
pub fn holds_text(value: &Option<String>, wording: &str) -> (r: bool)
    ensures
        r == is_text(*value, wording@),
{
    match value {
        Some(text) => same_text(text.as_str(), wording),
        None => false,
    }
}

/// Whether `text` begins with `prefix`.
pub open spec fn begins_with(text: Seq<char>, prefix: Seq<char>) -> bool {
    prefix.len() <= text.len() && text.subrange(0, prefix.len() as int) == prefix
}

/// Computes [`begins_with`].
pub fn starts_with(text: &str, prefix: &str) -> (r: bool)
    ensures
        r == begins_with(text@, prefix@),
{
    stands_at(text, prefix, 0)
}

/// Whether `part` stands in `text` from `start` on.
pub fn stands_at(text: &str, part: &str, start: usize) -> (r: bool)
    requires
        start <= text@.len(),
    ensures
        r == (start + part@.len() <= text@.len() && text@.subrange(
            start as int,
            start + part@.len(),
        ) == part@),
{
    let n: usize = part.unicode_len();
    let len: usize = text.unicode_len();
    if n > len - start {
        return false;
    }
    let mut i: usize = 0;
    while i < n
        invariant
            i <= n,
            n == part@.len(),
            len == text@.len(),
            start + n <= len,
            forall|k: int| 0 <= k < i ==> text@[start + k] == #[trigger] part@[k],
        decreases n - i,
    {
        if text.get_char(start + i) != part.get_char(i) {
            assert(text@.subrange(start as int, start + n)[i as int] != part@[i as int]);
            return false;
        }
        i = i + 1;
    }
    assert(text@.subrange(start as int, start + n) =~= part@);
    true
}

/// `c` with an ASCII capital turned into the small letter.
pub open spec fn ascii_lower(c: char) -> char {
    if 'A' <= c <= 'Z' {
        (c as int + 32) as char
    } else {
        c
    }
}

/// Whether two texts differ at most in the case of ASCII letters.
pub open spec fn same_ignoring_ascii_case(a: Seq<char>, b: Seq<char>) -> bool {
    a.len() == b.len() && forall|i: int|
        0 <= i < a.len() ==> ascii_lower(#[trigger] a[i]) == ascii_lower(b[i])
}

/// Computes [`ascii_lower`].
fn to_ascii_lower(c: char) -> (r: char)
    ensures
        r == ascii_lower(c),
{
    if 'A' <= c && c <= 'Z' {
        (c as u8 + 32) as char
    } else {
        c
    }
}

/// Computes [`same_ignoring_ascii_case`].
pub fn eq_ignore_ascii_case(a: &str, b: &str) -> (r: bool)
    ensures
        r == same_ignoring_ascii_case(a@, b@),
{
    let n: usize = a.unicode_len();
    if n != b.unicode_len() {
        return false;
    }
    let mut i: usize = 0;
    while i < n
        invariant
            i <= n,
            n == a@.len(),
            n == b@.len(),
            forall|k: int| 0 <= k < i ==> ascii_lower(#[trigger] a@[k]) == ascii_lower(b@[k]),
        decreases n - i,
    {
        if to_ascii_lower(a.get_char(i)) != to_ascii_lower(b.get_char(i)) {
            return false;
        }
        i = i + 1;
    }
    true
}

/// The characters of each text.
pub open spec fn texts(list: Seq<String>) -> Seq<Seq<char>> {
    Seq::new(list.len(), |i: int| list[i]@)
}

/// A list of equal texts.
pub fn duplicate_texts(list: &Vec<String>) -> (r: Vec<String>)
    ensures
        r@ == list@,
{
    let mut copy: Vec<String> = Vec::new();
    let mut i: usize = 0;
    while i < list.len()
        invariant
            i <= list@.len(),
            copy@ == list@.subrange(0, i as int),
        decreases list@.len() - i,
    {
        copy.push(list[i].clone());
        i = i + 1;
        assert(copy@ =~= list@.subrange(0, i as int));
    }
    assert(list@.subrange(0, i as int) =~= list@);
    copy
}

/// Calls `String::push`, which appends the character.
#[verifier::external_body]
pub(crate) fn push_char(text: &mut String, c: char)
    ensures
        final(text)@ == old(text)@.push(c),
{
    text.push(c)
}

/// Whether `a` comes before `b` in the order of strings, which compares character by
/// character.
pub open spec fn precedes(a: Seq<char>, b: Seq<char>) -> bool
    decreases a.len(),
{
    if b.len() == 0 {
        false
    } else if a.len() == 0 {
        true
    } else if a[0] != b[0] {
        a[0] < b[0]
    } else {
        precedes(a.drop_first(), b.drop_first())
    }
}

/// Computes [`precedes`].
pub fn comes_before(a: &str, b: &str) -> (r: bool)
    ensures
        r == precedes(a@, b@),
{
    let a_len: usize = a.unicode_len();
    let b_len: usize = b.unicode_len();
    let mut i: usize = 0;
    assert(a@.subrange(0, a_len as int) =~= a@);
    assert(b@.subrange(0, b_len as int) =~= b@);
    while i < a_len && i < b_len
        invariant
            a_len == a@.len(),
            b_len == b@.len(),
            i <= a_len,
            i <= b_len,
            precedes(a@, b@) == precedes(
                a@.subrange(i as int, a_len as int),
                b@.subrange(i as int, b_len as int),
            ),
        decreases a_len - i,
    {
        let x = a.get_char(i);
        let y = b.get_char(i);
        assert(a@.subrange(i as int, a_len as int).drop_first() =~= a@.subrange(
            i + 1,
            a_len as int,
        ));
        assert(b@.subrange(i as int, b_len as int).drop_first() =~= b@.subrange(
            i + 1,
            b_len as int,
        ));
        if x != y {
            return x < y;
        }
        i = i + 1;
    }
    i < b_len
}

/// The decimal digits of `n`, the most significant first.
pub open spec fn digits(n: nat) -> Seq<char>
    decreases n,
{
    if n < 10 {
        seq![(48 + n) as char]
    } else {
        digits(n / 10).push((48 + n % 10) as char)
    }
}

/// `n` in decimal, with a sign where it is negative.
pub open spec fn decimal(n: int) -> Seq<char> {
    if n < 0 {
        seq!['-'] + digits((-n) as nat)
    } else {
        digits(n as nat)
    }
}

/// Calls `i64::to_string`, which prints the number in decimal.
#[verifier::external_body]
pub(crate) fn decimal_text(n: i64) -> (r: String)
    ensures
        r@ == decimal(n as int),
{
    n.to_string()
}

/// The characters with the Unicode property White_Space.
pub open spec fn is_white_space(c: char) -> bool {
    ||| '\u{9}' <= c <= '\u{d}'
    ||| c == '\u{20}'
    ||| c == '\u{85}'
    ||| c == '\u{a0}'
    ||| c == '\u{1680}'
    ||| '\u{2000}' <= c <= '\u{200a}'
    ||| c == '\u{2028}'
    ||| c == '\u{2029}'
    ||| c == '\u{202f}'
    ||| c == '\u{205f}'
    ||| c == '\u{3000}'
}

/// `text` without its leading white space.
pub open spec fn trim_front(text: Seq<char>) -> Seq<char>
    decreases text.len(),
{
    if text.len() > 0 && is_white_space(text[0]) {
        trim_front(text.subrange(1, text.len() as int))
    } else {
        text
    }
}

/// `text` without its trailing white space.
pub open spec fn trim_back(text: Seq<char>) -> Seq<char>
    decreases text.len(),
{
    if text.len() > 0 && is_white_space(text.last()) {
        trim_back(text.drop_last())
    } else {
        text
    }
}

/// `text` without the white space around it.
pub open spec fn trimmed(text: Seq<char>) -> Seq<char> {
    trim_back(trim_front(text))
}

/// Calls `str::trim`, which documents that it removes leading and trailing white
/// space, that is characters with the Unicode property White_Space.
#[verifier::external_body]
pub(crate) fn trim(text: &str) -> (r: &str)
    ensures
        r@ == trimmed(text@),
{
    text.trim()
}

/// Calls `char::is_whitespace`, which documents that it tests for the Unicode
/// property White_Space.
#[verifier::external_body]
pub(crate) fn char_is_white_space(c: char) -> (r: bool)
    ensures
        r == is_white_space(c),
{
    c.is_whitespace()
}

/// What is left by [`trim_front`] does not begin with white space.
pub proof fn trim_front_begins_with_ink(text: Seq<char>)
    ensures
        trim_front(text).len() <= text.len(),
        trim_front(text).len() > 0 ==> !is_white_space(trim_front(text)[0]),
    decreases text.len(),
{
    if text.len() > 0 && is_white_space(text[0]) {
        trim_front_begins_with_ink(text.subrange(1, text.len() as int));
    }
}

/// Trimming at the back leaves a prefix that does not end in white space.
pub proof fn trim_back_is_a_prefix(text: Seq<char>)
    ensures
        trim_back(text).len() <= text.len(),
        trim_back(text) == text.subrange(0, trim_back(text).len() as int),
        trim_back(text).len() > 0 ==> !is_white_space(trim_back(text).last()),
    decreases text.len(),
{
    if text.len() > 0 && is_white_space(text.last()) {
        trim_back_is_a_prefix(text.drop_last());
        assert(trim_back(text) =~= text.subrange(0, trim_back(text).len() as int));
    } else {
        assert(text =~= text.subrange(0, text.len() as int));
    }
}

/// Trimmed text has no white space at either end, so trimming it again changes
/// nothing.
pub proof fn trimming_is_idempotent(text: Seq<char>)
    ensures
        trimmed(text).len() > 0 ==> !is_white_space(trimmed(text)[0]) && !is_white_space(
            trimmed(text).last(),
        ),
        trimmed(trimmed(text)) == trimmed(text),
{
    trim_front_begins_with_ink(text);
    trim_back_is_a_prefix(trim_front(text));
}

} // verus!
