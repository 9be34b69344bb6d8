//! Splitting SQL scripts into statements.
//!
//! The scanner knows no grammar. It finds the semicolons that separate statements, that
//! is those outside of quoted text, comments and dollar-quoted blocks, and leaves
//! everything else as it is.
use vstd::prelude::*;
use vstd::string::*;
use vstd::utf8::*;

use crate::model::Engine;
use crate::text::{push_char, texts, trim, trimmed, trimming_is_idempotent};

verus! {

/// The end of the quoted text whose content goes on at `i`. A doubled quote stands for
/// itself, and so does, where backslashes escape, whatever follows a backslash.
pub open spec fn quote_end(bytes: Seq<u8>, i: int, quote: u8, backslash_escapes: bool) -> int
    decreases bytes.len() - i,
{
    if i >= bytes.len() {
        bytes.len() as int
    } else if backslash_escapes && bytes[i] == 0x5c && i + 1 < bytes.len() {
        quote_end(bytes, i + 2, quote, backslash_escapes)
    } else if bytes[i] != quote {
        quote_end(bytes, i + 1, quote, backslash_escapes)
    } else if i + 1 < bytes.len() && bytes[i + 1] == quote {
        quote_end(bytes, i + 2, quote, backslash_escapes)
    } else {
        i + 1
    }
}

/// The end of the line that `i` is on.
pub open spec fn line_end(bytes: Seq<u8>, i: int) -> int
    decreases bytes.len() - i,
{
    if i >= bytes.len() {
        bytes.len() as int
    } else if bytes[i] == 0x0a {
        i
    } else {
        line_end(bytes, i + 1)
    }
}

/// The end of the block comment whose content goes on at `i`.
pub open spec fn block_end(bytes: Seq<u8>, i: int) -> int
    decreases bytes.len() - i,
{
    if i + 1 >= bytes.len() {
        bytes.len() as int
    } else if bytes[i] == 0x2a && bytes[i + 1] == 0x2f {
        i + 2
    } else {
        block_end(bytes, i + 1)
    }
}

/// Whether a byte may stand in the tag of a dollar quote.
pub open spec fn is_tag_byte(b: u8) -> bool {
    ||| 0x30 <= b <= 0x39
    ||| 0x41 <= b <= 0x5a
    ||| 0x61 <= b <= 0x7a
    ||| b == 0x5f
}

/// The end of the tag bytes from `i` on.
pub open spec fn tag_end(bytes: Seq<u8>, i: int) -> int
    decreases bytes.len() - i,
{
    if i >= bytes.len() || !is_tag_byte(bytes[i]) {
        i
    } else {
        tag_end(bytes, i + 1)
    }
}

/// The length of the dollar tag that begins with the dollar sign at `i`, both dollar signs
/// counted, if one does.
pub open spec fn tag_len(bytes: Seq<u8>, i: int) -> Option<int> {
    let j = tag_end(bytes, i + 1);
    if j < bytes.len() && bytes[j] == 0x24 {
        Some(j - i + 1)
    } else {
        None
    }
}

/// Whether `tag` stands at `i`.
pub open spec fn tag_at(bytes: Seq<u8>, i: int, tag: Seq<u8>) -> bool {
    i + tag.len() <= bytes.len() && bytes.subrange(i, i + tag.len()) == tag
}

/// The end of the dollar-quoted block whose content goes on at `i`: past the next tag.
pub open spec fn dollar_end(bytes: Seq<u8>, i: int, tag: Seq<u8>) -> int
    decreases bytes.len() - i,
{
    if i >= bytes.len() {
        bytes.len() as int
    } else if tag_at(bytes, i, tag) {
        i + tag.len()
    } else {
        dollar_end(bytes, i + 1, tag)
    }
}

/// Whether these two bytes stand at `i`.
pub open spec fn pair_at(bytes: Seq<u8>, i: int, first: u8, second: u8) -> bool {
    i + 1 < bytes.len() && bytes[i] == first && bytes[i + 1] == second
}

/// The end of what begins at `i`: quoted text, a comment, a dollar-quoted block, or a
/// single byte.
pub open spec fn token_end(bytes: Seq<u8>, i: int, backslash_escapes: bool) -> int {
    if bytes[i] == 0x27 || bytes[i] == 0x22 {
        quote_end(bytes, i + 1, bytes[i], backslash_escapes)
    } else if pair_at(bytes, i, 0x2d, 0x2d) {
        line_end(bytes, i)
    } else if pair_at(bytes, i, 0x2f, 0x2a) {
        block_end(bytes, i + 2)
    } else if bytes[i] == 0x24 && tag_len(bytes, i) is Some {
        dollar_end(
            bytes,
            i + tag_len(bytes, i)->0,
            bytes.subrange(i, i + tag_len(bytes, i)->0),
        )
    } else {
        i + 1
    }
}

/// Quoted text ends after it began and within the script.
pub proof fn quote_end_advances(bytes: Seq<u8>, i: int, quote: u8, backslash_escapes: bool)
    requires
        0 <= i <= bytes.len(),
    ensures
        i <= quote_end(bytes, i, quote, backslash_escapes) <= bytes.len(),
    decreases bytes.len() - i,
{
    if i < bytes.len() {
        if i + 2 <= bytes.len() {
            quote_end_advances(bytes, i + 2, quote, backslash_escapes);
        }
        quote_end_advances(bytes, i + 1, quote, backslash_escapes);
    }
}

/// A line ends after it began and within the script.
pub proof fn line_end_advances(bytes: Seq<u8>, i: int)
    requires
        0 <= i <= bytes.len(),
    ensures
        i <= line_end(bytes, i) <= bytes.len(),
    decreases bytes.len() - i,
{
    if i < bytes.len() {
        line_end_advances(bytes, i + 1);
    }
}

/// A block comment ends after it began and within the script.
pub proof fn block_end_advances(bytes: Seq<u8>, i: int)
    requires
        0 <= i <= bytes.len(),
    ensures
        i <= block_end(bytes, i) <= bytes.len(),
    decreases bytes.len() - i,
{
    if i + 1 < bytes.len() {
        block_end_advances(bytes, i + 1);
    }
}

/// Tag bytes end after they began and within the script, and all of them are tag bytes.
pub proof fn tag_end_advances(bytes: Seq<u8>, i: int)
    requires
        0 <= i <= bytes.len(),
    ensures
        i <= tag_end(bytes, i) <= bytes.len(),
        forall|k: int| i <= k < tag_end(bytes, i) ==> is_tag_byte(#[trigger] bytes[k]),
    decreases bytes.len() - i,
{
    if i < bytes.len() && is_tag_byte(bytes[i]) {
        tag_end_advances(bytes, i + 1);
    }
}

/// A dollar-quoted block ends after it began and within the script.
pub proof fn dollar_end_advances(bytes: Seq<u8>, i: int, tag: Seq<u8>)
    requires
        0 <= i <= bytes.len(),
    ensures
        i <= dollar_end(bytes, i, tag) <= bytes.len(),
    decreases bytes.len() - i,
{
    if i < bytes.len() {
        dollar_end_advances(bytes, i + 1, tag);
    }
}

/// Whatever begins at `i` takes up at least one byte and ends within the script.
pub proof fn token_end_advances(bytes: Seq<u8>, i: int, backslash_escapes: bool)
    requires
        0 <= i < bytes.len(),
    ensures
        i < token_end(bytes, i, backslash_escapes) <= bytes.len(),
{
    quote_end_advances(bytes, i + 1, bytes[i], backslash_escapes);
    if pair_at(bytes, i, 0x2d, 0x2d) {
        line_end_advances(bytes, i + 1);
    }
    if pair_at(bytes, i, 0x2f, 0x2a) {
        block_end_advances(bytes, i + 2);
    }
    tag_end_advances(bytes, i + 1);
    if bytes[i] == 0x24 && tag_len(bytes, i) is Some {
        let len = tag_len(bytes, i)->0;
        dollar_end_advances(bytes, i + len, bytes.subrange(i, i + len));
    }
}

/// The stretches between the separating semicolons, from the one that began at `start`, on
/// the way through which the scanner has come to `i`.
pub open spec fn segments(bytes: Seq<u8>, start: int, i: int, backslash_escapes: bool) -> Seq<
    (int, int),
>
    decreases bytes.len() - i,
    when 0 <= i
{
    if i >= bytes.len() {
        seq![(start, bytes.len() as int)]
    } else if bytes[i] == 0x3b {
        seq![(start, i)] + segments(bytes, i + 1, i + 1, backslash_escapes)
    } else {
        proof {
            token_end_advances(bytes, i, backslash_escapes);
        }
        segments(bytes, start, token_end(bytes, i, backslash_escapes), backslash_escapes)
    }
}

/// The bytes from `i` on that are not part of a comment.
pub open spec fn uncommented(bytes: Seq<u8>, i: int) -> Seq<u8>
    decreases bytes.len() - i,
    when 0 <= i
{
    if i >= bytes.len() {
        seq![]
    } else if pair_at(bytes, i, 0x2d, 0x2d) {
        proof {
            line_end_advances(bytes, i + 1);
        }
        uncommented(bytes, line_end(bytes, i))
    } else if pair_at(bytes, i, 0x2f, 0x2a) {
        proof {
            block_end_advances(bytes, i + 2);
        }
        uncommented(bytes, block_end(bytes, i + 2))
    } else {
        seq![bytes[i]] + uncommented(bytes, i + 1)
    }
}

/// Bytes read as the characters with the same numbers.
pub open spec fn as_chars(bytes: Seq<u8>) -> Seq<char> {
    Seq::new(bytes.len(), |i: int| bytes[i] as char)
}

/// Whether a text holds anything besides comments and white space.
pub open spec fn effective(text: Seq<char>) -> bool {
    trimmed(as_chars(uncommented(encode_utf8(text), 0))).len() > 0
}

/// The text of a stretch of the script.
pub open spec fn segment_text(bytes: Seq<u8>, segment: (int, int)) -> Seq<char> {
    decode_utf8(bytes.subrange(segment.0, segment.1))
}

/// The statement in a text, if there is one.
pub open spec fn statement_in(text: Seq<char>) -> Seq<Seq<char>> {
    if trimmed(text).len() > 0 && effective(trimmed(text)) {
        seq![trimmed(text)]
    } else {
        seq![]
    }
}

/// The statements in these stretches of the script.
pub open spec fn statements_in(bytes: Seq<u8>, list: Seq<(int, int)>) -> Seq<Seq<char>>
    decreases list.len(),
{
    if list.len() == 0 {
        seq![]
    } else {
        statements_in(bytes, list.drop_last()) + statement_in(segment_text(bytes, list.last()))
    }
}

/// The statements of a script.
pub open spec fn script_statements(sql: Seq<char>, backslash_escapes: bool) -> Seq<Seq<char>> {
    let bytes = encode_utf8(sql);
    statements_in(bytes, segments(bytes, 0, 0, backslash_escapes))
}

fn scan_quote(bytes: &[u8], from: usize, quote: u8, backslash_escapes: bool) -> (r: usize)
    requires
        from <= bytes@.len(),
    ensures
        r == quote_end(bytes@, from as int, quote, backslash_escapes),
{
    let mut i: usize = from;
    while i < bytes.len()
        invariant
            i <= bytes@.len(),
            quote_end(bytes@, from as int, quote, backslash_escapes) == quote_end(
                bytes@,
                i as int,
                quote,
                backslash_escapes,
            ),
        decreases bytes@.len() - i,
    {
        if backslash_escapes && bytes[i] == 0x5c && i + 1 < bytes.len() {
            i = i + 2;
            continue ;
        }
        if bytes[i] == quote {
            if i + 1 < bytes.len() && bytes[i + 1] == quote {
                i = i + 2;
                continue ;
            }
            return i + 1;
        }
        i = i + 1;
    }
    i
}

fn scan_line(bytes: &[u8], from: usize) -> (r: usize)
    requires
        from <= bytes@.len(),
    ensures
        r == line_end(bytes@, from as int),
{
    let mut i: usize = from;
    while i < bytes.len() && bytes[i] != 0x0a
        invariant
            i <= bytes@.len(),
            line_end(bytes@, from as int) == line_end(bytes@, i as int),
        decreases bytes@.len() - i,
    {
        i = i + 1;
    }
    i
}

fn scan_block(bytes: &[u8], from: usize) -> (r: usize)
    requires
        2 <= from <= bytes@.len(),
    ensures
        r == block_end(bytes@, from as int),
{
    let mut i: usize = from;
    while i < bytes.len() - 1 && !(bytes[i] == 0x2a && bytes[i + 1] == 0x2f)
        invariant
            2 <= i <= bytes@.len(),
            block_end(bytes@, from as int) == block_end(bytes@, i as int),
        decreases bytes@.len() - i,
    {
        i = i + 1;
    }
    if bytes.len() - i >= 2 {
        i + 2
    } else {
        bytes.len()
    }
}

/// The length of the dollar tag that begins with the dollar sign at `i`, if one does.
pub fn dollar_tag_len(bytes: &[u8], i: usize) -> (r: Option<usize>)
    requires
        i < usize::MAX,
    ensures
        match tag_len(bytes@, i as int) {
            Some(len) => r is Some && r->0 == len,
            None => r is None,
        },
{
    let n: usize = bytes.len();
    let mut j: usize = i + 1;
    while j < n && is_tag(bytes[j])
        invariant
            n == bytes@.len(),
            i + 1 <= j,
            j <= n || j == i + 1,
            tag_end(bytes@, i + 1) == tag_end(bytes@, j as int),
        decreases bytes@.len() - j,
    {
        j = j + 1;
    }
    if j < n && bytes[j] == 0x24 {
        Some(j - i + 1)
    } else {
        None
    }
}

fn is_tag(b: u8) -> (r: bool)
    ensures
        r == is_tag_byte(b),
{
    (0x30 <= b && b <= 0x39) || (0x41 <= b && b <= 0x5a) || (0x61 <= b && b <= 0x7a) || b == 0x5f
}

fn is_tag_at(bytes: &[u8], i: usize, tag: usize, len: usize) -> (r: bool)
    requires
        i <= bytes@.len(),
        tag + len <= bytes@.len(),
    ensures
        r == tag_at(bytes@, i as int, bytes@.subrange(tag as int, tag + len)),
{
    let n: usize = bytes.len();
    if n - i < len {
        return false;
    }
    let mut k: usize = 0;
    while k < len
        invariant
            k <= len,
            n == bytes@.len(),
            i + len <= n,
            tag + len <= bytes@.len(),
            forall|m: int| 0 <= m < k ==> #[trigger] bytes@[i + m] == bytes@[tag + m],
        decreases len - k,
    {
        if bytes[i + k] != bytes[tag + k] {
            assert(bytes@.subrange(i as int, i + len)[k as int] != bytes@.subrange(
                tag as int,
                tag + len,
            )[k as int]);
            return false;
        }
        k = k + 1;
    }
    assert(bytes@.subrange(i as int, i + len) =~= bytes@.subrange(tag as int, tag + len)) by {
        assert forall|m: int| 0 <= m < len implies #[trigger] bytes@.subrange(i as int, i + len)[m]
            == bytes@.subrange(tag as int, tag + len)[m] by {
            assert(bytes@[i + m] == bytes@[tag + m]);
        }
    }
    true
}

fn scan_dollar(bytes: &[u8], from: usize, tag: usize, len: usize) -> (r: usize)
    requires
        from <= bytes@.len(),
        tag + len <= bytes@.len(),
    ensures
        r == dollar_end(bytes@, from as int, bytes@.subrange(tag as int, tag + len)),
{
    let mut i: usize = from;
    while i < bytes.len()
        invariant
            i <= bytes@.len(),
            tag + len <= bytes@.len(),
            dollar_end(bytes@, from as int, bytes@.subrange(tag as int, tag + len)) == dollar_end(
                bytes@,
                i as int,
                bytes@.subrange(tag as int, tag + len),
            ),
        decreases bytes@.len() - i,
    {
        if is_tag_at(bytes, i, tag, len) {
            return i + len;
        }
        i = i + 1;
    }
    i
}

fn scan_token(bytes: &[u8], i: usize, backslash_escapes: bool) -> (r: usize)
    requires
        i < bytes@.len(),
    ensures
        r == token_end(bytes@, i as int, backslash_escapes),
        i < r <= bytes@.len(),
{
    proof {
        token_end_advances(bytes@, i as int, backslash_escapes);
        tag_end_advances(bytes@, i + 1);
    }
    let b = bytes[i];
    if b == 0x27 || b == 0x22 {
        scan_quote(bytes, i + 1, b, backslash_escapes)
    } else if b == 0x2d && i + 1 < bytes.len() && bytes[i + 1] == 0x2d {
        scan_line(bytes, i)
    } else if b == 0x2f && i + 1 < bytes.len() && bytes[i + 1] == 0x2a {
        scan_block(bytes, i + 2)
    } else if b == 0x24 {
        match dollar_tag_len(bytes, i) {
            Some(len) => scan_dollar(bytes, i + len, i, len),
            None => i + 1,
        }
    } else {
        i + 1
    }
}

/// The bytes outside of comments, read as the characters with the same numbers.
pub fn strip_comments(sql: &str) -> (r: String)
    ensures
        r@ == as_chars(uncommented(encode_utf8(sql@), 0)),
{
    let bytes = sql.as_bytes();
    let mut out = String::new();
    let mut i: usize = 0;
    let ghost mut kept: Seq<u8> = seq![];
    while i < bytes.len()
        invariant
            i <= bytes@.len(),
            bytes@ == encode_utf8(sql@),
            out@ == as_chars(kept),
            uncommented(bytes@, 0) == kept + uncommented(bytes@, i as int),
        decreases bytes@.len() - i,
    {
        if bytes[i] == 0x2d && i + 1 < bytes.len() && bytes[i + 1] == 0x2d {
            proof {
                line_end_advances(bytes@, i + 1);
            }
            i = scan_line(bytes, i);
        } else if bytes[i] == 0x2f && i + 1 < bytes.len() && bytes[i + 1] == 0x2a {
            proof {
                block_end_advances(bytes@, i + 2);
            }
            i = scan_block(bytes, i + 2);
        } else {
            push_char(&mut out, bytes[i] as char);
            proof {
                let b = bytes@[i as int];
                assert(kept + (seq![b] + uncommented(bytes@, i + 1)) =~= kept.push(b) + uncommented(
                    bytes@,
                    i + 1,
                ));
                assert(as_chars(kept.push(b)) =~= as_chars(kept).push(b as char));
                kept = kept.push(b);
            }
            i = i + 1;
        }
    }
    assert(kept + uncommented(bytes@, i as int) =~= kept);
    out
}

/// Whether a text holds anything besides comments and white space.
pub fn is_effective(statement: &str) -> (r: bool)
    ensures
        r == effective(statement@),
{
    let rest = strip_comments(statement);
    !trim(rest.as_str()).is_empty()
}

/// Appends the statement in `raw`, if there is one.
pub fn push_statement(out: &mut Vec<String>, raw: &str)
    ensures
        texts(final(out)@) == texts(old(out)@) + statement_in(raw@),
{
    let statement = trim(raw);
    if !statement.is_empty() && is_effective(statement) {
        out.push(statement.to_owned());
    }
    assert(texts(out@) =~= texts(old(out)@) + statement_in(raw@));
}

/// A semicolon is a character of its own, so the places before and after it are places
/// between characters.
pub proof fn semicolon_is_a_character(bytes: Seq<u8>, i: int)
    requires
        valid_utf8(bytes),
        0 <= i < bytes.len(),
        bytes[i] == 0x3b,
    ensures
        is_char_boundary(bytes, i),
        is_char_boundary(bytes, i + 1),
{
    is_char_boundary_iff_not_is_continuation_byte(bytes, i);
    is_char_boundary_start_end_of_seq(bytes);
    if i + 1 < bytes.len() {
        let rest = bytes.subrange(i, bytes.len() as int);
        valid_utf8_split(bytes, i);
        assert(valid_utf8(rest));
        assert(pop_first_scalar(rest) =~= bytes.subrange(i + 1, bytes.len() as int));
        assert(valid_utf8(pop_first_scalar(rest)));
        assert(pop_first_scalar(rest)[0] == bytes[i + 1]);
        assert(!is_continuation_byte(bytes[i + 1]));
        is_char_boundary_iff_not_is_continuation_byte(bytes, i + 1);
    }
}

/// Of two places between characters the text between them begins at one.
pub proof fn boundary_in_rest(bytes: Seq<u8>, start: int, i: int)
    requires
        valid_utf8(bytes),
        is_char_boundary(bytes, start),
        is_char_boundary(bytes, i),
        0 <= start <= i <= bytes.len(),
    ensures
        valid_utf8(bytes.subrange(start, bytes.len() as int)),
        is_char_boundary(bytes.subrange(start, bytes.len() as int), i - start),
{
    valid_utf8_split(bytes, start);
    let rest = bytes.subrange(start, bytes.len() as int);
    is_char_boundary_start_end_of_seq(rest);
    if i < bytes.len() {
        is_char_boundary_iff_not_is_continuation_byte(bytes, i);
        assert(rest[i - start] == bytes[i]);
        is_char_boundary_iff_not_is_continuation_byte(rest, i - start);
    }
}

fn slice<'a>(sql: &'a str, start: usize, end: usize) -> (r: &'a str)
    requires
        start <= end <= encode_utf8(sql@).len(),
        is_char_boundary(encode_utf8(sql@), start as int),
        is_char_boundary(encode_utf8(sql@), end as int),
    ensures
        r@ == segment_text(encode_utf8(sql@), (start as int, end as int)),
{
    let ghost bytes = encode_utf8(sql@);
    proof {
        encode_utf8_valid_utf8(sql@);
        boundary_in_rest(bytes, start as int, end as int);
    }
    let rest = sql.split_at(start).1;
    let r = rest.split_at(end - start).0;
    proof {
        assert(r.spec_bytes() =~= bytes.subrange(start as int, end as int));
        encode_utf8_decode_utf8(r@);
    }
    r
}

/// Splits a script into its statements.
pub fn split_statements_impl(sql: &str, backslash_escapes: bool) -> (r: Vec<String>)
    ensures
        texts(r@) == script_statements(sql@, backslash_escapes),
{
    let bytes = sql.as_bytes();
    let mut out: Vec<String> = Vec::new();
    let mut start: usize = 0;
    let mut i: usize = 0;
    let ghost all = segments(bytes@, 0, 0, backslash_escapes);
    let ghost mut passed: Seq<(int, int)> = seq![];
    proof {
        encode_utf8_valid_utf8(sql@);
        is_char_boundary_start_end_of_seq(bytes@);
        assert(all =~= passed + segments(bytes@, 0, 0, backslash_escapes));
        assert(texts(out@) =~= statements_in(bytes@, passed));
    }
    while i < bytes.len()
        invariant
            bytes@ == encode_utf8(sql@),
            valid_utf8(bytes@),
            start <= i <= bytes@.len(),
            is_char_boundary(bytes@, start as int),
            all == segments(bytes@, 0, 0, backslash_escapes),
            all == passed + segments(bytes@, start as int, i as int, backslash_escapes),
            texts(out@) == statements_in(bytes@, passed),
        decreases bytes@.len() - i,
    {
        if bytes[i] == 0x3b {
            proof {
                semicolon_is_a_character(bytes@, i as int);
            }
            push_statement(&mut out, slice(sql, start, i));
            proof {
                let here = (start as int, i as int);
                let rest = segments(bytes@, i + 1, i + 1, backslash_escapes);
                assert(passed + (seq![here] + rest) =~= passed.push(here) + rest);
                assert(passed.push(here).drop_last() =~= passed);
                passed = passed.push(here);
            }
            i = i + 1;
            start = i;
        } else {
            i = scan_token(bytes, i, backslash_escapes);
        }
    }
    proof {
        is_char_boundary_start_end_of_seq(bytes@);
    }
    push_statement(&mut out, slice(sql, start, bytes.len()));
    proof {
        let here = (start as int, bytes@.len() as int);
        assert(all =~= passed.push(here));
        assert(passed.push(here).drop_last() =~= passed);
    }
    out
}

/// Splits a script into its statements. MySQL takes a backslash in quoted text as an
/// escape; the other engines do not.
pub fn split_statements(sql: &str, engine: Engine) -> (r: Vec<String>)
    ensures
        texts(r@) == script_statements(sql@, engine == Engine::Mysql),
{
    split_statements_impl(sql, engine == Engine::Mysql)
}

/// Every statement of a script is free of white space around it, and holds something
/// besides comments.
pub proof fn statements_are_fit(sql: Seq<char>, backslash_escapes: bool, k: int)
    requires
        0 <= k < script_statements(sql, backslash_escapes).len(),
    ensures
        ({
            let statement = script_statements(sql, backslash_escapes)[k];
            &&& trimmed(statement) == statement
            &&& statement.len() > 0
            &&& effective(statement)
        }),
{
    let bytes = encode_utf8(sql);
    listed_statements_are_fit(bytes, segments(bytes, 0, 0, backslash_escapes), k);
}

proof fn listed_statements_are_fit(bytes: Seq<u8>, list: Seq<(int, int)>, k: int)
    requires
        0 <= k < statements_in(bytes, list).len(),
    ensures
        ({
            let statement = statements_in(bytes, list)[k];
            &&& trimmed(statement) == statement
            &&& statement.len() > 0
            &&& effective(statement)
        }),
    decreases list.len(),
{
    let earlier = statements_in(bytes, list.drop_last());
    if k < earlier.len() {
        listed_statements_are_fit(bytes, list.drop_last(), k);
        assert(statements_in(bytes, list)[k] == earlier[k]);
    } else {
        trimming_is_idempotent(segment_text(bytes, list.last()));
    }
}

/// Whether the stretches follow one upon the other from `start` to the end of the script,
/// with one semicolon between each two.
pub open spec fn tile(bytes: Seq<u8>, list: Seq<(int, int)>, start: int) -> bool {
    &&& list.len() > 0
    &&& list[0].0 == start
    &&& list.last().1 == bytes.len()
    &&& forall|k: int|
        0 <= k < list.len() ==> {
            let segment = #[trigger] list[k];
            0 <= segment.0 <= segment.1 <= bytes.len()
        }
    &&& forall|k: int|
        0 <= k < list.len() - 1 ==> {
            let segment = #[trigger] list[k];
            segment.1 < bytes.len() && bytes[segment.1] == 0x3b && list[k + 1].0 == segment.1 + 1
        }
}

/// Nothing of a script gets lost: the stretches between the separating semicolons and the
/// semicolons themselves are the whole script.
pub proof fn segments_tile_the_script(bytes: Seq<u8>, backslash_escapes: bool)
    ensures
        tile(bytes, segments(bytes, 0, 0, backslash_escapes), 0),
{
    later_segments_tile(bytes, 0, 0, backslash_escapes);
}

proof fn later_segments_tile(bytes: Seq<u8>, start: int, i: int, backslash_escapes: bool)
    requires
        0 <= start <= i <= bytes.len(),
    ensures
        tile(bytes, segments(bytes, start, i, backslash_escapes), start),
    decreases bytes.len() - i,
{
    if i < bytes.len() {
        if bytes[i] == 0x3b {
            later_segments_tile(bytes, i + 1, i + 1, backslash_escapes);
            let rest = segments(bytes, i + 1, i + 1, backslash_escapes);
            let list = segments(bytes, start, i, backslash_escapes);
            assert(list == seq![(start, i)] + rest);
            assert forall|k: int| 0 <= k < list.len() implies {
                let segment = #[trigger] list[k];
                0 <= segment.0 <= segment.1 <= bytes.len()
            } by {
                if k > 0 {
                    assert(list[k] == rest[k - 1]);
                }
            }
            assert forall|k: int| 0 <= k < list.len() - 1 implies {
                let segment = #[trigger] list[k];
                segment.1 < bytes.len() && bytes[segment.1] == 0x3b && list[k + 1].0 == segment.1
                    + 1
            } by {
                if k > 0 {
                    assert(list[k] == rest[k - 1]);
                    assert(list[k + 1] == rest[k]);
                } else {
                    assert(list[1] == rest[0]);
                }
            }
            assert(list.last() == rest.last());
        } else {
            token_end_advances(bytes, i, backslash_escapes);
            later_segments_tile(
                bytes,
                start,
                token_end(bytes, i, backslash_escapes),
                backslash_escapes,
            );
        }
    }
}

/// Whether the scanner, on its way from `i`, comes to `p` with nothing open: what begins
/// there is a quoted text, a comment, a dollar-quoted block, or a byte by itself.
pub open spec fn comes_to(bytes: Seq<u8>, i: int, p: int, backslash_escapes: bool) -> bool
    decreases bytes.len() - i,
    when 0 <= i
{
    ||| i == p
    ||| i < bytes.len() && {
        proof {
            token_end_advances(bytes, i, backslash_escapes);
        }
        comes_to(bytes, token_end(bytes, i, backslash_escapes), p, backslash_escapes)
    }
}

/// The scanner never goes back, and never past the end.
pub proof fn the_scanner_goes_forward(bytes: Seq<u8>, i: int, p: int, backslash_escapes: bool)
    requires
        0 <= i <= bytes.len(),
        comes_to(bytes, i, p, backslash_escapes),
    ensures
        i <= p <= bytes.len(),
    decreases bytes.len() - i,
{
    if i != p {
        token_end_advances(bytes, i, backslash_escapes);
        the_scanner_goes_forward(
            bytes,
            token_end(bytes, i, backslash_escapes),
            p,
            backslash_escapes,
        );
    }
}

proof fn the_scanner_skips(bytes: Seq<u8>, i: int, p: int, q: int, backslash_escapes: bool)
    requires
        0 <= i <= bytes.len(),
        comes_to(bytes, i, p, backslash_escapes),
        comes_to(bytes, i, q, backslash_escapes),
        p < bytes.len(),
        p <= q < token_end(bytes, p, backslash_escapes),
    ensures
        q == p,
    decreases bytes.len() - i,
{
    the_scanner_goes_forward(bytes, i, p, backslash_escapes);
    let next = token_end(bytes, i, backslash_escapes);
    token_end_advances(bytes, i, backslash_escapes);
    if i == p {
        if i != q {
            the_scanner_goes_forward(bytes, next, q, backslash_escapes);
        }
    } else {
        the_scanner_goes_forward(bytes, next, p, backslash_escapes);
        if i != q {
            the_scanner_skips(bytes, next, p, q, backslash_escapes);
        }
    }
}

proof fn the_scanner_comes_to_separators(
    bytes: Seq<u8>,
    start: int,
    i: int,
    backslash_escapes: bool,
    k: int,
)
    requires
        0 <= start <= i <= bytes.len(),
        0 <= k < segments(bytes, start, i, backslash_escapes).len() - 1,
    ensures
        comes_to(bytes, i, segments(bytes, start, i, backslash_escapes)[k].1, backslash_escapes),
    decreases bytes.len() - i,
{
    if i < bytes.len() {
        token_end_advances(bytes, i, backslash_escapes);
        if bytes[i] == 0x3b {
            let rest = segments(bytes, i + 1, i + 1, backslash_escapes);
            if k > 0 {
                the_scanner_comes_to_separators(bytes, i + 1, i + 1, backslash_escapes, k - 1);
                assert(segments(bytes, start, i, backslash_escapes)[k] == rest[k - 1]);
            }
        } else {
            the_scanner_comes_to_separators(
                bytes,
                start,
                token_end(bytes, i, backslash_escapes),
                backslash_escapes,
                k,
            );
        }
    }
}

/// Quoted text, comments and dollar-quoted blocks stay whole: no semicolon within one of
/// them separates statements.
pub proof fn quotes_and_comments_stay_whole(
    bytes: Seq<u8>,
    backslash_escapes: bool,
    p: int,
    k: int,
)
    requires
        comes_to(bytes, 0, p, backslash_escapes),
        p < bytes.len(),
        bytes[p] != 0x3b,
        0 <= k < segments(bytes, 0, 0, backslash_escapes).len() - 1,
    ensures
        ({
            let separator = segments(bytes, 0, 0, backslash_escapes)[k].1;
            separator < p || token_end(bytes, p, backslash_escapes) <= separator
        }),
{
    let separator = segments(bytes, 0, 0, backslash_escapes)[k].1;
    the_scanner_comes_to_separators(bytes, 0, 0, backslash_escapes, k);
    segments_tile_the_script(bytes, backslash_escapes);
    if p <= separator && separator < token_end(bytes, p, backslash_escapes) {
        the_scanner_skips(bytes, 0, p, separator, backslash_escapes);
    }
}

} // verus!
