//! What holds between splitting a script and splitting its parts.
use vstd::prelude::*;
use vstd::utf8::*;

use crate::sql_script::{
    block_end, block_end_advances, boundary_in_rest, comes_to, dollar_end, dollar_end_advances,
    is_tag_byte, line_end, line_end_advances, pair_at, quote_end, quote_end_advances,
    script_statements, segment_text, segments, segments_tile_the_script, semicolon_is_a_character,
    statement_in, statements_are_fit, statements_in, tag_end, tag_end_advances, tag_len,
    the_scanner_goes_forward, tile, token_end, token_end_advances,
};
use crate::text::{is_white_space, trim_back, trim_front, trimmed};

verus! {

/// Where a place of the whole is in the part from `o` to `e`: what lies behind the part is at
/// its end.
pub open spec fn within(q: int, o: int, e: int) -> int {
    if q <= e {
        q - o
    } else {
        e - o
    }
}

proof fn quote_in_part(bytes: Seq<u8>, o: int, e: int, i: int, quote: u8, backslash_escapes: bool)
    requires
        0 <= o <= i <= e <= bytes.len(),
        quote != 0x5c,
    ensures
        quote_end(bytes.subrange(o, e), i - o, quote, backslash_escapes) == within(
            quote_end(bytes, i, quote, backslash_escapes),
            o,
            e,
        ),
    decreases e - i,
{
    let part = bytes.subrange(o, e);
    quote_end_advances(bytes, i, quote, backslash_escapes);
    if i < e {
        assert(part[i - o] == bytes[i]);
        if i + 1 < e {
            assert(part[i + 1 - o] == bytes[i + 1]);
            quote_in_part(bytes, o, e, i + 2, quote, backslash_escapes);
        } else if i + 1 < bytes.len() {
            quote_end_advances(bytes, i + 2, quote, backslash_escapes);
        }
        quote_in_part(bytes, o, e, i + 1, quote, backslash_escapes);
    }
}

proof fn line_in_part(bytes: Seq<u8>, o: int, e: int, i: int)
    requires
        0 <= o <= i <= e <= bytes.len(),
    ensures
        line_end(bytes.subrange(o, e), i - o) == within(line_end(bytes, i), o, e),
    decreases e - i,
{
    line_end_advances(bytes, i);
    if i < e {
        assert(bytes.subrange(o, e)[i - o] == bytes[i]);
        line_in_part(bytes, o, e, i + 1);
    }
}

proof fn block_in_part(bytes: Seq<u8>, o: int, e: int, i: int)
    requires
        0 <= o <= i <= e <= bytes.len(),
    ensures
        block_end(bytes.subrange(o, e), i - o) == within(block_end(bytes, i), o, e),
    decreases e - i,
{
    let part = bytes.subrange(o, e);
    block_end_advances(bytes, i);
    if i + 1 < e {
        assert(part[i - o] == bytes[i]);
        assert(part[i + 1 - o] == bytes[i + 1]);
        block_in_part(bytes, o, e, i + 1);
    } else if i < e && i + 1 < bytes.len() {
        block_end_advances(bytes, i + 1);
    }
}

proof fn tag_in_part(bytes: Seq<u8>, o: int, e: int, i: int)
    requires
        0 <= o <= i <= e <= bytes.len(),
    ensures
        tag_end(bytes.subrange(o, e), i - o) == within(tag_end(bytes, i), o, e),
    decreases e - i,
{
    tag_end_advances(bytes, i);
    if i < e {
        assert(bytes.subrange(o, e)[i - o] == bytes[i]);
        tag_in_part(bytes, o, e, i + 1);
    }
}

proof fn no_room_for_the_tag(bytes: Seq<u8>, i: int, tag: Seq<u8>)
    requires
        0 <= i <= bytes.len(),
        i + tag.len() > bytes.len(),
    ensures
        dollar_end(bytes, i, tag) == bytes.len(),
    decreases bytes.len() - i,
{
    if i < bytes.len() {
        no_room_for_the_tag(bytes, i + 1, tag);
    }
}

proof fn a_block_has_its_tag(bytes: Seq<u8>, i: int, tag: Seq<u8>)
    requires
        0 <= i <= bytes.len(),
    ensures
        dollar_end(bytes, i, tag) == bytes.len() || dollar_end(bytes, i, tag) >= i + tag.len(),
    decreases bytes.len() - i,
{
    if i < bytes.len() {
        a_block_has_its_tag(bytes, i + 1, tag);
    }
}

proof fn dollar_in_part(bytes: Seq<u8>, o: int, e: int, i: int, tag: Seq<u8>)
    requires
        0 <= o <= i <= e <= bytes.len(),
    ensures
        dollar_end(bytes.subrange(o, e), i - o, tag) == within(dollar_end(bytes, i, tag), o, e),
    decreases e - i,
{
    let part = bytes.subrange(o, e);
    dollar_end_advances(bytes, i, tag);
    if i + tag.len() > e {
        no_room_for_the_tag(part, i - o, tag);
        a_block_has_its_tag(bytes, i, tag);
    } else if i < e {
        assert(part.subrange(i - o, i - o + tag.len()) =~= bytes.subrange(i, i + tag.len()));
        dollar_in_part(bytes, o, e, i + 1, tag);
    }
}

/// Whether a byte can be part of the tag of a dollar quote, its dollar signs counted.
pub open spec fn belongs_to_tag(b: u8) -> bool {
    is_tag_byte(b) || b == 0x24
}

/// Whether no tag of a dollar quote can lie across the place `e`.
pub open spec fn is_seam(bytes: Seq<u8>, e: int) -> bool {
    e == bytes.len() || !belongs_to_tag(bytes[e]) || !belongs_to_tag(bytes[e - 1])
}

/// What begins at a place of a part ends there where it ends in the whole, or with the part.
proof fn token_in_part(bytes: Seq<u8>, o: int, e: int, i: int, backslash_escapes: bool)
    requires
        0 <= o <= i < e <= bytes.len(),
        is_seam(bytes, e),
    ensures
        token_end(bytes.subrange(o, e), i - o, backslash_escapes) == within(
            token_end(bytes, i, backslash_escapes),
            o,
            e,
        ),
{
    let part = bytes.subrange(o, e);
    assert(part[i - o] == bytes[i]);
    if i + 1 < e {
        assert(part[i + 1 - o] == bytes[i + 1]);
    }
    if bytes[i] == 0x27 || bytes[i] == 0x22 {
        quote_in_part(bytes, o, e, i + 1, bytes[i], backslash_escapes);
    } else if pair_at(bytes, i, 0x2d, 0x2d) {
        line_end_advances(bytes, i + 1);
        line_in_part(bytes, o, e, i);
    } else if pair_at(bytes, i, 0x2f, 0x2a) {
        block_end_advances(bytes, i + 2);
        if i + 2 <= e {
            block_in_part(bytes, o, e, i + 2);
        }
    } else if bytes[i] == 0x24 {
        tag_end_advances(bytes, i + 1);
        tag_in_part(bytes, o, e, i + 1);
        let j = tag_end(bytes, i + 1);
        if j < e {
            assert(part[j - o] == bytes[j]);
            if bytes[j] == 0x24 {
                let len = j - i + 1;
                assert(part.subrange(i - o, i - o + len) =~= bytes.subrange(i, i + len));
                dollar_in_part(bytes, o, e, i + len, bytes.subrange(i, i + len));
            }
        } else if tag_len(bytes, i) is Some {
            assert(belongs_to_tag(bytes[e]));
            assert(belongs_to_tag(bytes[e - 1]));
        }
    }
}

/// Whether the scanner comes from `i` to `p` with nothing open and without a separating
/// semicolon on the way.
pub open spec fn runs_to(bytes: Seq<u8>, i: int, p: int, backslash_escapes: bool) -> bool
    decreases bytes.len() - i,
    when 0 <= i
{
    ||| i == p
    ||| i < p && i < bytes.len() && bytes[i] != 0x3b && {
        proof {
            token_end_advances(bytes, i, backslash_escapes);
        }
        runs_to(bytes, token_end(bytes, i, backslash_escapes), p, backslash_escapes)
    }
}

proof fn segments_have_no_separator(bytes: Seq<u8>, start: int, i: int, backslash_escapes: bool)
    requires
        0 <= start <= i <= bytes.len(),
    ensures
        ({
            let list = segments(bytes, start, i, backslash_escapes);
            &&& list.len() > 0
            &&& runs_to(bytes, i, list[0].1, backslash_escapes)
            &&& forall|k: int|
                0 < k < list.len() ==> runs_to(
                    bytes,
                    (#[trigger] list[k]).0,
                    list[k].1,
                    backslash_escapes,
                )
        }),
    decreases bytes.len() - i,
{
    let list = segments(bytes, start, i, backslash_escapes);
    if i < bytes.len() {
        token_end_advances(bytes, i, backslash_escapes);
        if bytes[i] == 0x3b {
            let rest = segments(bytes, i + 1, i + 1, backslash_escapes);
            segments_have_no_separator(bytes, i + 1, i + 1, backslash_escapes);
            later_segment_starts(bytes, i + 1, i + 1, backslash_escapes);
            assert forall|k: int| 0 < k < list.len() implies runs_to(
                bytes,
                (#[trigger] list[k]).0,
                list[k].1,
                backslash_escapes,
            ) by {
                assert(list[k] == rest[k - 1]);
            }
        } else {
            segments_have_no_separator(
                bytes,
                start,
                token_end(bytes, i, backslash_escapes),
                backslash_escapes,
            );
        }
    }
}

proof fn later_segment_starts(bytes: Seq<u8>, start: int, i: int, backslash_escapes: bool)
    requires
        0 <= start <= i <= bytes.len(),
    ensures
        segments(bytes, start, i, backslash_escapes).len() > 0,
        segments(bytes, start, i, backslash_escapes)[0].0 == start,
    decreases bytes.len() - i,
{
    if i < bytes.len() && bytes[i] != 0x3b {
        token_end_advances(bytes, i, backslash_escapes);
        later_segment_starts(
            bytes,
            start,
            token_end(bytes, i, backslash_escapes),
            backslash_escapes,
        );
    }
}

/// A part that the scanner runs through has no separator of its own.
proof fn part_is_one_segment(
    bytes: Seq<u8>,
    o: int,
    e: int,
    p: int,
    i: int,
    backslash_escapes: bool,
)
    requires
        0 <= o <= i <= e <= p <= bytes.len(),
        runs_to(bytes, i, p, backslash_escapes),
        is_seam(bytes, e),
    ensures
        segments(bytes.subrange(o, e), 0, i - o, backslash_escapes) == seq![(0int, e - o)],
    decreases e - i,
{
    let part = bytes.subrange(o, e);
    if i < e {
        assert(part[i - o] == bytes[i]);
        token_in_part(bytes, o, e, i, backslash_escapes);
        token_end_advances(bytes, i, backslash_escapes);
        token_end_advances(part, i - o, backslash_escapes);
        let q = token_end(bytes, i, backslash_escapes);
        if q <= e {
            part_is_one_segment(bytes, o, e, p, q, backslash_escapes);
        } else {
            assert(segments(part, 0, e - o, backslash_escapes) == seq![(0int, e - o)]);
        }
    }
}

/// The bytes of white space, and those outside of ASCII: none of them means anything to the
/// scanner.
pub open spec fn is_blank(b: u8) -> bool {
    0x09 <= b <= 0x0d || b == 0x20 || b >= 0x80
}

proof fn blanks_are_passed(bytes: Seq<u8>, i: int, o: int, p: int, backslash_escapes: bool)
    requires
        0 <= i <= o <= p <= bytes.len(),
        runs_to(bytes, i, p, backslash_escapes),
        forall|k: int| i <= k < o ==> is_blank(#[trigger] bytes[k]),
    ensures
        runs_to(bytes, o, p, backslash_escapes),
    decreases o - i,
{
    if i < o {
        assert(is_blank(bytes[i]));
        assert(token_end(bytes, i, backslash_escapes) == i + 1);
        blanks_are_passed(bytes, i + 1, o, p, backslash_escapes);
    }
}

proof fn encoding_joins(a: Seq<char>, b: Seq<char>)
    ensures
        encode_utf8(a + b) == encode_utf8(a) + encode_utf8(b),
    decreases a.len(),
{
    if a.len() == 0 {
        assert(a + b =~= b);
        assert(encode_utf8(a) + encode_utf8(b) =~= encode_utf8(b));
    } else {
        assert((a + b).drop_first() =~= a.drop_first() + b);
        encoding_joins(a.drop_first(), b);
        let first = encode_scalar(a[0] as u32);
        assert(first + (encode_utf8(a.drop_first()) + encode_utf8(b)) =~= (first + encode_utf8(
            a.drop_first(),
        )) + encode_utf8(b));
    }
}

proof fn bytes_of_scalars(scalar: u32)
    by (bit_vector)
    ensures
        scalar <= 0x7f ==> leading_byte_width_1(scalar) == scalar,
        leading_byte_width_2(scalar) >= 0x80,
        leading_byte_width_3(scalar) >= 0x80,
        leading_byte_width_4(scalar) >= 0x80,
        last_continuation_byte(scalar) >= 0x80,
        second_last_continuation_byte(scalar) >= 0x80,
        third_last_continuation_byte(scalar) >= 0x80,
{
}

proof fn white_scalar_is_blank(c: char)
    requires
        is_white_space(c),
    ensures
        forall|k: int|
            0 <= k < encode_scalar(c as u32).len() ==> is_blank(
                #[trigger] encode_scalar(c as u32)[k],
            ),
{
    bytes_of_scalars(c as u32);
}

proof fn white_space_is_blank(text: Seq<char>)
    requires
        forall|k: int| 0 <= k < text.len() ==> is_white_space(#[trigger] text[k]),
    ensures
        forall|k: int|
            0 <= k < encode_utf8(text).len() ==> is_blank(#[trigger] encode_utf8(text)[k]),
    decreases text.len(),
{
    if text.len() > 0 {
        assert(is_white_space(text[0]));
        let rest = text.drop_first();
        assert forall|k: int| 0 <= k < rest.len() implies is_white_space(#[trigger] rest[k]) by {
            assert(rest[k] == text[k + 1]);
        }
        white_space_is_blank(rest);
        white_scalar_is_blank(text[0]);
        let first = encode_scalar(text[0] as u32);
        assert forall|k: int| 0 <= k < encode_utf8(text).len() implies is_blank(
            #[trigger] encode_utf8(text)[k],
        ) by {
            if k < first.len() {
                assert(encode_utf8(text)[k] == first[k]);
            } else {
                assert(encode_utf8(text)[k] == encode_utf8(rest)[k - first.len()]);
            }
        }
    }
}

proof fn front_is_white_space(text: Seq<char>)
    ensures
        trim_front(text).len() <= text.len(),
        text == text.subrange(0, text.len() - trim_front(text).len()) + trim_front(text),
        forall|k: int|
            0 <= k < text.len() - trim_front(text).len() ==> is_white_space(#[trigger] text[k]),
    decreases text.len(),
{
    if text.len() > 0 && is_white_space(text[0]) {
        let rest = text.subrange(1, text.len() as int);
        front_is_white_space(rest);
        assert forall|k: int| 0 <= k < text.len() - trim_front(text).len() implies is_white_space(
            #[trigger] text[k],
        ) by {
            if k > 0 {
                assert(text[k] == rest[k - 1]);
            }
        }
        let n = text.len() - trim_front(text).len();
        assert(text.subrange(0, n) =~= seq![text[0]] + rest.subrange(0, n - 1));
        assert(text =~= seq![text[0]] + rest);
        assert(seq![text[0]] + (rest.subrange(0, n - 1) + trim_front(rest)) =~= (seq![text[0]]
            + rest.subrange(0, n - 1)) + trim_front(rest));
    } else {
        assert(text.subrange(0, 0) + text =~= text);
    }
}

proof fn back_is_white_space(text: Seq<char>)
    ensures
        trim_back(text).len() <= text.len(),
        text == trim_back(text) + text.subrange(trim_back(text).len() as int, text.len() as int),
        forall|k: int|
            trim_back(text).len() <= k < text.len() ==> is_white_space(#[trigger] text[k]),
    decreases text.len(),
{
    if text.len() > 0 && is_white_space(text.last()) {
        let rest = text.drop_last();
        back_is_white_space(rest);
        assert forall|k: int| trim_back(text).len() <= k < text.len() implies is_white_space(
            #[trigger] text[k],
        ) by {
            if k < rest.len() {
                assert(text[k] == rest[k]);
            }
        }
        let n = trim_back(text).len() as int;
        assert(text.subrange(n, text.len() as int) =~= rest.subrange(n, rest.len() as int).push(
            text.last(),
        ));
        assert(text =~= rest.push(text.last()));
        assert((trim_back(rest) + rest.subrange(n, rest.len() as int)).push(text.last())
            =~= trim_back(rest) + rest.subrange(n, rest.len() as int).push(text.last()));
    } else {
        assert(text =~= text + text.subrange(text.len() as int, text.len() as int));
    }
}

proof fn statement_has_a_segment(bytes: Seq<u8>, list: Seq<(int, int)>, k: int) -> (m: int)
    requires
        0 <= k < statements_in(bytes, list).len(),
    ensures
        0 <= m < list.len(),
        statements_in(bytes, list)[k] == trimmed(segment_text(bytes, list[m])),
    decreases list.len(),
{
    let earlier = statements_in(bytes, list.drop_last());
    if k < earlier.len() {
        let m = statement_has_a_segment(bytes, list.drop_last(), k);
        assert(statements_in(bytes, list)[k] == earlier[k]);
        m
    } else {
        list.len() - 1
    }
}

proof fn segments_are_text(bytes: Seq<u8>, list: Seq<(int, int)>, m: int)
    requires
        valid_utf8(bytes),
        tile(bytes, list, 0),
        0 <= m < list.len(),
    ensures
        valid_utf8(bytes.subrange(list[m].0, list[m].1)),
{
    let (start, end) = list[m];
    is_char_boundary_start_end_of_seq(bytes);
    if m > 0 {
        let before = list[m - 1];
        semicolon_is_a_character(bytes, before.1);
    }
    if m < list.len() - 1 {
        semicolon_is_a_character(bytes, end);
    }
    boundary_in_rest(bytes, start, end);
    let rest = bytes.subrange(start, bytes.len() as int);
    valid_utf8_split(rest, end - start);
    assert(rest.subrange(0, end - start) =~= bytes.subrange(start, end));
}

/// A statement of a script, split again, gives itself and nothing else.
pub proof fn statements_stand_alone(sql: Seq<char>, backslash_escapes: bool, k: int)
    requires
        0 <= k < script_statements(sql, backslash_escapes).len(),
    ensures
        script_statements(script_statements(sql, backslash_escapes)[k], backslash_escapes)
            == seq![script_statements(sql, backslash_escapes)[k]],
{
    let bytes = encode_utf8(sql);
    let list = segments(bytes, 0, 0, backslash_escapes);
    let statement = script_statements(sql, backslash_escapes)[k];
    statements_are_fit(sql, backslash_escapes, k);
    let m = statement_has_a_segment(bytes, list, k);
    let (start, end) = list[m];
    encode_utf8_valid_utf8(sql);
    segments_tile_the_script(bytes, backslash_escapes);
    segments_are_text(bytes, list, m);
    segments_have_no_separator(bytes, 0, 0, backslash_escapes);
    assert(runs_to(bytes, start, end, backslash_escapes));

    let text = segment_text(bytes, list[m]);
    let ink = trim_front(text);
    let n = text.len() - ink.len();
    let front = text.subrange(0, n);
    let back = ink.subrange(statement.len() as int, ink.len() as int);
    front_is_white_space(text);
    back_is_white_space(ink);
    decode_utf8_encode_utf8(bytes.subrange(start, end));
    encoding_joins(front, ink);
    encoding_joins(statement, back);
    assert forall|i: int| 0 <= i < front.len() implies is_white_space(#[trigger] front[i]) by {
        assert(front[i] == text[i]);
    }
    assert forall|i: int| 0 <= i < back.len() implies is_white_space(#[trigger] back[i]) by {
        assert(back[i] == ink[statement.len() + i]);
    }
    white_space_is_blank(front);
    white_space_is_blank(back);

    let whole = bytes.subrange(start, end);
    let o = start + encode_utf8(front).len();
    let e = o + encode_utf8(statement).len();
    assert(whole == encode_utf8(front) + (encode_utf8(statement) + encode_utf8(back)));
    assert(bytes.subrange(o, e) =~= encode_utf8(statement)) by {
        assert forall|i: int| 0 <= i < e - o implies #[trigger] bytes.subrange(o, e)[i]
            == encode_utf8(statement)[i] by {
            assert(whole[o - start + i] == encode_utf8(statement)[i]);
        }
    }
    assert forall|i: int| start <= i < o implies is_blank(#[trigger] bytes[i]) by {
        assert(whole[i - start] == encode_utf8(front)[i - start]);
    }
    if e < end {
        assert(whole[e - start] == encode_utf8(back)[0]);
        assert(is_blank(bytes[e]));
    }
    blanks_are_passed(bytes, start, o, end, backslash_escapes);
    part_is_one_segment(bytes, o, e, end, o, backslash_escapes);

    let own = encode_utf8(statement);
    let only = seq![(0int, own.len() as int)];
    assert(segments(own, 0, 0, backslash_escapes) == only);
    assert(only.drop_last() =~= Seq::empty());
    assert(own.subrange(0, own.len() as int) =~= own);
    encode_utf8_decode_utf8(statement);
    assert(statements_in(own, only.drop_last()) =~= Seq::empty());
    assert(statements_in(own, only) =~= seq![statement]);
}

/// Whether nothing is open at the end of a text: a semicolon put there stands by itself, and is
/// not swallowed by a quoted text, a comment or a dollar-quoted block.
pub open spec fn nothing_open(text: Seq<char>, backslash_escapes: bool) -> bool {
    comes_to(
        encode_utf8(text).push(0x3b),
        0,
        encode_utf8(text).len() as int,
        backslash_escapes,
    )
}

proof fn segments_before_the_semicolon(
    bytes: Seq<u8>,
    before: Seq<u8>,
    start: int,
    i: int,
    backslash_escapes: bool,
)
    requires
        before.len() < bytes.len(),
        bytes.subrange(0, before.len() as int + 1) == before.push(0x3b),
        0 <= start <= i <= before.len(),
        comes_to(before.push(0x3b), i, before.len() as int, backslash_escapes),
    ensures
        segments(bytes, start, i, backslash_escapes) == segments(
            before,
            start,
            i,
            backslash_escapes,
        ) + segments(
            bytes,
            before.len() as int + 1,
            before.len() as int + 1,
            backslash_escapes,
        ),
    decreases before.len() - i,
{
    let n = before.len() as int;
    let closed = before.push(0x3b);
    let after = segments(bytes, n + 1, n + 1, backslash_escapes);
    assert(bytes[n] == closed[n]) by {
        assert(bytes.subrange(0, n + 1)[n] == bytes[n]);
    }
    if i == n {
        assert(segments(before, start, i, backslash_escapes) =~= seq![(start, n)]);
    } else {
        assert(bytes[i] == closed[i]) by {
            assert(bytes.subrange(0, n + 1)[i] == bytes[i]);
        }
        assert(closed.subrange(0, n) =~= before);
        token_in_part(bytes, 0, n + 1, i, backslash_escapes);
        token_in_part(closed, 0, n, i, backslash_escapes);
        let q = token_end(closed, i, backslash_escapes);
        token_end_advances(closed, i, backslash_escapes);
        the_scanner_goes_forward(closed, q, n, backslash_escapes);
        assert(token_end(bytes, i, backslash_escapes) == q);
        assert(token_end(before, i, backslash_escapes) == q);
        if bytes[i] == 0x3b {
            segments_before_the_semicolon(bytes, before, i + 1, i + 1, backslash_escapes);
            let rest = segments(before, i + 1, i + 1, backslash_escapes);
            assert(seq![(start, i)] + (rest + after) =~= (seq![(start, i)] + rest) + after);
        } else {
            segments_before_the_semicolon(bytes, before, start, q, backslash_escapes);
        }
    }
}

/// The stretches, moved on by `o`.
pub open spec fn moved(list: Seq<(int, int)>, o: int) -> Seq<(int, int)> {
    Seq::new(list.len(), |k: int| (list[k].0 + o, list[k].1 + o))
}

proof fn segments_after(bytes: Seq<u8>, o: int, start: int, i: int, backslash_escapes: bool)
    requires
        0 <= o <= bytes.len(),
        0 <= start <= i <= bytes.len() - o,
    ensures
        segments(bytes, start + o, i + o, backslash_escapes) == moved(
            segments(bytes.subrange(o, bytes.len() as int), start, i, backslash_escapes),
            o,
        ),
    decreases bytes.len() - o - i,
{
    let rest = bytes.subrange(o, bytes.len() as int);
    let there = segments(rest, start, i, backslash_escapes);
    if i < rest.len() {
        assert(rest[i] == bytes[i + o]);
        token_in_part(bytes, o, bytes.len() as int, i + o, backslash_escapes);
        token_end_advances(bytes, i + o, backslash_escapes);
        let q = token_end(rest, i, backslash_escapes);
        if rest[i] == 0x3b {
            segments_after(bytes, o, i + 1, i + 1, backslash_escapes);
            let later = segments(rest, i + 1, i + 1, backslash_escapes);
            assert(moved(seq![(start, i)] + later, o) =~= seq![(start + o, i + o)] + moved(
                later,
                o,
            ));
        } else {
            token_end_advances(rest, i, backslash_escapes);
            segments_after(bytes, o, start, q, backslash_escapes);
        }
    } else {
        assert(moved(there, o) =~= seq![(start + o, bytes.len() as int)]);
    }
}

proof fn statements_join(bytes: Seq<u8>, a: Seq<(int, int)>, b: Seq<(int, int)>)
    ensures
        statements_in(bytes, a + b) == statements_in(bytes, a) + statements_in(bytes, b),
    decreases b.len(),
{
    if b.len() == 0 {
        assert(a + b =~= a);
        assert(statements_in(bytes, a) + statements_in(bytes, b) =~= statements_in(bytes, a));
    } else {
        assert((a + b).drop_last() =~= a + b.drop_last());
        statements_join(bytes, a, b.drop_last());
        let last = statement_in(segment_text(bytes, b.last()));
        assert((statements_in(bytes, a) + statements_in(bytes, b.drop_last())) + last
            =~= statements_in(bytes, a) + (statements_in(bytes, b.drop_last()) + last));
    }
}

proof fn same_texts_same_statements(
    bytes: Seq<u8>,
    list: Seq<(int, int)>,
    other_bytes: Seq<u8>,
    other: Seq<(int, int)>,
)
    requires
        list.len() == other.len(),
        forall|k: int|
            0 <= k < list.len() ==> segment_text(bytes, #[trigger] list[k]) == segment_text(
                other_bytes,
                other[k],
            ),
    ensures
        statements_in(bytes, list) == statements_in(other_bytes, other),
    decreases list.len(),
{
    if list.len() > 0 {
        assert forall|k: int| 0 <= k < list.len() - 1 implies segment_text(
            bytes,
            #[trigger] list.drop_last()[k],
        ) == segment_text(other_bytes, other.drop_last()[k]) by {
            assert(list.drop_last()[k] == list[k]);
        }
        same_texts_same_statements(bytes, list.drop_last(), other_bytes, other.drop_last());
        assert(list.last() == list[list.len() - 1]);
    }
}

/// Two scripts with a semicolon between them have the statements of the first and then those of
/// the second, if the first leaves nothing open.
pub proof fn scripts_are_split_apart(a: Seq<char>, b: Seq<char>, backslash_escapes: bool)
    requires
        nothing_open(a, backslash_escapes),
    ensures
        script_statements(a + seq![';'] + b, backslash_escapes) == script_statements(
            a,
            backslash_escapes,
        ) + script_statements(b, backslash_escapes),
{
    let before = encode_utf8(a);
    let after = encode_utf8(b);
    let bytes = encode_utf8(a + seq![';'] + b);
    let n = before.len() as int;
    let o = n + 1;
    encoding_joins(a, seq![';']);
    encoding_joins(a + seq![';'], b);
    assert(encode_utf8(seq![';']) =~= seq![0x3bu8]) by {
        assert(seq![';'].drop_first() =~= Seq::empty());
        bytes_of_scalars(';' as u32);
        assert(encode_utf8(seq![';'].drop_first()) =~= Seq::empty());
    }
    assert(before + seq![0x3bu8] =~= before.push(0x3b));
    assert(bytes == before.push(0x3b) + after);
    assert(bytes.subrange(0, n + 1) =~= before.push(0x3b));
    assert(bytes.subrange(o, bytes.len() as int) =~= after);
    segments_before_the_semicolon(bytes, before, 0, 0, backslash_escapes);
    segments_after(bytes, o, 0, 0, backslash_escapes);
    let first = segments(before, 0, 0, backslash_escapes);
    let second = segments(after, 0, 0, backslash_escapes);
    segments_tile_the_script(before, backslash_escapes);
    segments_tile_the_script(after, backslash_escapes);
    statements_join(bytes, first, moved(second, o));
    assert forall|k: int| 0 <= k < first.len() implies segment_text(bytes, #[trigger] first[k])
        == segment_text(before, first[k]) by {
        let (start, end) = first[k];
        assert(bytes.subrange(start, end) =~= before.subrange(start, end));
    }
    same_texts_same_statements(bytes, first, before, first);
    let there = moved(second, o);
    assert forall|k: int| 0 <= k < there.len() implies segment_text(bytes, #[trigger] there[k])
        == segment_text(after, second[k]) by {
        let (start, end) = second[k];
        assert(bytes.subrange(start + o, end + o) =~= after.subrange(start, end));
    }
    same_texts_same_statements(bytes, there, after, second);
}

} // verus!
