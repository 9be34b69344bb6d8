//! What the scanner of SQL scripts takes for quoted text, for a comment and for a
//! dollar-quoted block, said of the bytes of the script.
use vstd::prelude::*;
use vstd::utf8::*;

use crate::model::Engine;
use crate::sql_script::{
    as_chars, block_end, block_end_advances, comes_to, dollar_end, line_end, line_end_advances,
    pair_at, quote_end, quotes_and_comments_stay_whole, script_statements, segments,
    segments_tile_the_script, split_statements, statement_in, statements_in, tag_at, tag_end,
    tag_len, the_scanner_goes_forward, token_end, token_end_advances, uncommented,
};
use crate::text::{is_white_space, texts, trimmed};
use crate::text_laws::trimming_takes_white_space_only;

verus! {

proof fn the_scanner_goes_on(bytes: Seq<u8>, i: int, p: int, backslash_escapes: bool)
    requires
        0 <= i <= bytes.len(),
        comes_to(bytes, i, p, backslash_escapes),
        p < bytes.len(),
    ensures
        comes_to(bytes, i, token_end(bytes, p, backslash_escapes), backslash_escapes),
    decreases bytes.len() - i,
{
    the_scanner_goes_forward(bytes, i, p, backslash_escapes);
    token_end_advances(bytes, i, backslash_escapes);
    if i == p {
        let next = token_end(bytes, i, backslash_escapes);
        assert(comes_to(bytes, next, next, backslash_escapes));
    } else {
        the_scanner_goes_on(
            bytes,
            token_end(bytes, i, backslash_escapes),
            p,
            backslash_escapes,
        );
    }
}

/// A semicolon that the scanner comes to with nothing open separates statements.
pub proof fn open_semicolons_separate(bytes: Seq<u8>, p: int, backslash_escapes: bool)
    requires
        comes_to(bytes, 0, p, backslash_escapes),
        p < bytes.len(),
        bytes[p] == 0x3b,
    ensures
        exists|k: int|
            0 <= k < segments(bytes, 0, 0, backslash_escapes).len() - 1 && (#[trigger] segments(
                bytes,
                0,
                0,
                backslash_escapes,
            )[k]).1 == p,
{
    separator_from(bytes, 0, 0, p, backslash_escapes);
}

proof fn separator_from(bytes: Seq<u8>, start: int, i: int, p: int, backslash_escapes: bool) -> (k:
    int)
    requires
        0 <= start <= i <= bytes.len(),
        comes_to(bytes, i, p, backslash_escapes),
        p < bytes.len(),
        bytes[p] == 0x3b,
    ensures
        0 <= k < segments(bytes, start, i, backslash_escapes).len() - 1,
        segments(bytes, start, i, backslash_escapes)[k].1 == p,
    decreases bytes.len() - i,
{
    the_scanner_goes_forward(bytes, i, p, backslash_escapes);
    token_end_advances(bytes, i, backslash_escapes);
    let list = segments(bytes, start, i, backslash_escapes);
    if bytes[i] == 0x3b {
        let rest = segments(bytes, i + 1, i + 1, backslash_escapes);
        assert(list == seq![(start, i)] + rest);
        if i == p {
            some_segment(bytes, i + 1, i + 1, backslash_escapes);
            assert(list[0] == (start, i));
            0
        } else {
            let k = separator_from(bytes, i + 1, i + 1, p, backslash_escapes);
            assert(list[k + 1] == rest[k]);
            k + 1
        }
    } else {
        separator_from(
            bytes,
            start,
            token_end(bytes, i, backslash_escapes),
            p,
            backslash_escapes,
        )
    }
}

proof fn some_segment(bytes: Seq<u8>, start: int, i: int, backslash_escapes: bool)
    requires
        0 <= i <= bytes.len(),
    ensures
        segments(bytes, start, i, backslash_escapes).len() > 0,
    decreases bytes.len() - i,
{
    if i < bytes.len() && bytes[i] != 0x3b {
        token_end_advances(bytes, i, backslash_escapes);
        some_segment(bytes, start, token_end(bytes, i, backslash_escapes), backslash_escapes);
    }
}

/// Bytes that are no quote, no hyphen, no slash and no dollar sign open nothing: the
/// scanner goes from each of them to the next.
pub proof fn plain_bytes_open_nothing(bytes: Seq<u8>, p: int, n: int, backslash_escapes: bool)
    requires
        comes_to(bytes, 0, p, backslash_escapes),
        0 <= p <= n <= bytes.len(),
        forall|k: int|
            p <= k < n ==> {
                let byte = #[trigger] bytes[k];
                byte != 0x27 && byte != 0x22 && byte != 0x2d && byte != 0x2f && byte != 0x24
            },
    ensures
        comes_to(bytes, 0, n, backslash_escapes),
    decreases n - p,
{
    if p < n {
        the_scanner_goes_on(bytes, 0, p, backslash_escapes);
        assert(bytes[p] != 0x27);
        plain_bytes_open_nothing(bytes, p + 1, n, backslash_escapes);
    }
}

proof fn plain_quoted_bytes(bytes: Seq<u8>, i: int, e: int, quote: u8, backslash_escapes: bool)
    requires
        0 <= i <= e <= bytes.len(),
        forall|k: int|
            i <= k < e ==> #[trigger] bytes[k] != quote && (backslash_escapes ==> bytes[k] != 0x5c),
    ensures
        quote_end(bytes, i, quote, backslash_escapes) == quote_end(
            bytes,
            e,
            quote,
            backslash_escapes,
        ),
    decreases e - i,
{
    if i < e {
        assert(bytes[i] != quote);
        plain_quoted_bytes(bytes, i + 1, e, quote, backslash_escapes);
    }
}

/// Quoted text runs from one quote to the next of the same kind, be it single or double,
/// and is passed over whole: whatever semicolons, comments, dollar signs and quotes of
/// the other kind it holds, and, where backslashes do not escape, whatever backslashes.
pub proof fn quoted_text_is_passed_whole(
    a: Seq<u8>,
    quote: u8,
    x: Seq<u8>,
    b: Seq<u8>,
    backslash_escapes: bool,
)
    requires
        quote == 0x27 || quote == 0x22,
        forall|k: int|
            0 <= k < x.len() ==> #[trigger] x[k] != quote && (backslash_escapes ==> x[k] != 0x5c),
        b.len() > 0 ==> b[0] != quote,
        comes_to(a + seq![quote] + x + seq![quote] + b, 0, a.len() as int, backslash_escapes),
    ensures
        ({
            let script = a + seq![quote] + x + seq![quote] + b;
            let end = a.len() + x.len() + 2;
            &&& comes_to(script, 0, end as int, backslash_escapes)
            &&& forall|k: int|
                0 <= k < segments(script, 0, 0, backslash_escapes).len() - 1 ==> {
                    let separator = (#[trigger] segments(script, 0, 0, backslash_escapes)[k]).1;
                    separator < a.len() || separator >= end
                }
        }),
{
    let script = a + seq![quote] + x + seq![quote] + b;
    let p = a.len() as int;
    let e = p + 1 + x.len();
    assert(script[p] == quote);
    assert(forall|k: int| p + 1 <= k < e ==> #[trigger] script[k] == x[k - p - 1]);
    plain_quoted_bytes(script, p + 1, e, quote, backslash_escapes);
    assert(script[e] == quote);
    assert(e + 1 < script.len() ==> script[e + 1] == b[0]);
    assert(token_end(script, p, backslash_escapes) == e + 1);
    the_scanner_goes_on(script, 0, p, backslash_escapes);
    assert forall|k: int| 0 <= k < segments(script, 0, 0, backslash_escapes).len() - 1 implies {
        let separator = (#[trigger] segments(script, 0, 0, backslash_escapes)[k]).1;
        separator < a.len() || separator >= e + 1
    } by {
        quotes_and_comments_stay_whole(script, backslash_escapes, p, k);
    }
}

/// Within quoted text a doubled quote does not end it, and neither does, where
/// backslashes escape, a quote behind a backslash: the text ends at the first quote that
/// stands alone.
pub proof fn quotes_within_quoted_text_do_not_end_it(
    a: Seq<u8>,
    quote: u8,
    x: Seq<u8>,
    first: u8,
    y: Seq<u8>,
    b: Seq<u8>,
    backslash_escapes: bool,
)
    requires
        quote == 0x27 || quote == 0x22,
        first == quote || (backslash_escapes && first == 0x5c),
        forall|k: int|
            0 <= k < x.len() ==> #[trigger] x[k] != quote && (backslash_escapes ==> x[k] != 0x5c),
        forall|k: int|
            0 <= k < y.len() ==> #[trigger] y[k] != quote && (backslash_escapes ==> y[k] != 0x5c),
        b.len() > 0 ==> b[0] != quote,
        comes_to(
            a + seq![quote] + x + seq![first, quote] + y + seq![quote] + b,
            0,
            a.len() as int,
            backslash_escapes,
        ),
    ensures
        ({
            let script = a + seq![quote] + x + seq![first, quote] + y + seq![quote] + b;
            let end = a.len() + x.len() + y.len() + 4;
            &&& comes_to(script, 0, end as int, backslash_escapes)
            &&& forall|k: int|
                0 <= k < segments(script, 0, 0, backslash_escapes).len() - 1 ==> {
                    let separator = (#[trigger] segments(script, 0, 0, backslash_escapes)[k]).1;
                    separator < a.len() || separator >= end
                }
        }),
{
    let script = a + seq![quote] + x + seq![first, quote] + y + seq![quote] + b;
    let p = a.len() as int;
    let m = p + 1 + x.len();
    let e = m + 2 + y.len();
    assert(script[p] == quote);
    assert(forall|k: int| p + 1 <= k < m ==> #[trigger] script[k] == x[k - p - 1]);
    plain_quoted_bytes(script, p + 1, m, quote, backslash_escapes);
    assert(script[m] == first && script[m + 1] == quote);
    assert(forall|k: int| m + 2 <= k < e ==> #[trigger] script[k] == y[k - m - 2]);
    plain_quoted_bytes(script, m + 2, e, quote, backslash_escapes);
    assert(script[e] == quote);
    assert(e + 1 < script.len() ==> script[e + 1] == b[0]);
    assert(quote_end(script, m, quote, backslash_escapes) == quote_end(
        script,
        m + 2,
        quote,
        backslash_escapes,
    ));
    assert(token_end(script, p, backslash_escapes) == e + 1);
    the_scanner_goes_on(script, 0, p, backslash_escapes);
    assert forall|k: int| 0 <= k < segments(script, 0, 0, backslash_escapes).len() - 1 implies {
        let separator = (#[trigger] segments(script, 0, 0, backslash_escapes)[k]).1;
        separator < a.len() || separator >= e + 1
    } by {
        quotes_and_comments_stay_whole(script, backslash_escapes, p, k);
    }
}

proof fn line_runs(bytes: Seq<u8>, i: int, e: int)
    requires
        0 <= i <= e < bytes.len(),
        forall|k: int| i <= k < e ==> #[trigger] bytes[k] != 0x0a,
        bytes[e] == 0x0a,
    ensures
        line_end(bytes, i) == e,
    decreases e - i,
{
    if i < e {
        line_runs(bytes, i + 1, e);
    }
}

/// Two hyphens begin a comment that runs to the end of the line, and is passed over
/// whole, whatever quotes and semicolons it holds; nothing of it counts as a statement.
pub proof fn line_comments_are_passed_whole(
    a: Seq<u8>,
    x: Seq<u8>,
    b: Seq<u8>,
    backslash_escapes: bool,
)
    requires
        forall|k: int| 0 <= k < x.len() ==> #[trigger] x[k] != 0x0a,
        comes_to(
            a + seq![0x2du8, 0x2du8] + x + seq![0x0au8] + b,
            0,
            a.len() as int,
            backslash_escapes,
        ),
    ensures
        ({
            let script = a + seq![0x2du8, 0x2du8] + x + seq![0x0au8] + b;
            let end = a.len() + 2 + x.len();
            &&& comes_to(script, 0, end as int, backslash_escapes)
            &&& forall|k: int|
                0 <= k < segments(script, 0, 0, backslash_escapes).len() - 1 ==> {
                    let separator = (#[trigger] segments(script, 0, 0, backslash_escapes)[k]).1;
                    separator < a.len() || separator >= end
                }
            &&& uncommented(script, a.len() as int) == uncommented(script, end as int)
        }),
{
    let script = a + seq![0x2du8, 0x2du8] + x + seq![0x0au8] + b;
    let p = a.len() as int;
    let e = p + 2 + x.len();
    assert(script[p] == 0x2d && script[p + 1] == 0x2d);
    assert(forall|k: int| p + 2 <= k < e ==> #[trigger] script[k] == x[k - p - 2]);
    assert(script[e] == 0x0a);
    line_runs(script, p, e);
    assert(pair_at(script, p, 0x2d, 0x2d));
    line_end_advances(script, p + 1);
    the_scanner_goes_on(script, 0, p, backslash_escapes);
    assert forall|k: int| 0 <= k < segments(script, 0, 0, backslash_escapes).len() - 1 implies {
        let separator = (#[trigger] segments(script, 0, 0, backslash_escapes)[k]).1;
        separator < a.len() || separator >= e
    } by {
        quotes_and_comments_stay_whole(script, backslash_escapes, p, k);
    }
}

proof fn block_runs(bytes: Seq<u8>, i: int, e: int)
    requires
        0 <= i <= e,
        e + 1 < bytes.len(),
        forall|k: int| i <= k < e ==> !(#[trigger] bytes[k] == 0x2a && bytes[k + 1] == 0x2f),
        bytes[e] == 0x2a && bytes[e + 1] == 0x2f,
    ensures
        block_end(bytes, i) == e + 2,
    decreases e - i,
{
    if i < e {
        assert(!(bytes[i] == 0x2a && bytes[i + 1] == 0x2f));
        block_runs(bytes, i + 1, e);
    }
}

/// A slash and a star begin a comment that runs to the next star and slash, and is
/// passed over whole, whatever quotes and semicolons it holds; nothing of it counts as a
/// statement.
pub proof fn block_comments_are_passed_whole(
    a: Seq<u8>,
    x: Seq<u8>,
    b: Seq<u8>,
    backslash_escapes: bool,
)
    requires
        forall|k: int| 0 <= k < x.len() - 1 ==> !(#[trigger] x[k] == 0x2a && x[k + 1] == 0x2f),
        comes_to(
            a + seq![0x2fu8, 0x2au8] + x + seq![0x2au8, 0x2fu8] + b,
            0,
            a.len() as int,
            backslash_escapes,
        ),
    ensures
        ({
            let script = a + seq![0x2fu8, 0x2au8] + x + seq![0x2au8, 0x2fu8] + b;
            let end = a.len() + 4 + x.len();
            &&& comes_to(script, 0, end as int, backslash_escapes)
            &&& forall|k: int|
                0 <= k < segments(script, 0, 0, backslash_escapes).len() - 1 ==> {
                    let separator = (#[trigger] segments(script, 0, 0, backslash_escapes)[k]).1;
                    separator < a.len() || separator >= end
                }
            &&& uncommented(script, a.len() as int) == uncommented(script, end as int)
        }),
{
    let script = a + seq![0x2fu8, 0x2au8] + x + seq![0x2au8, 0x2fu8] + b;
    let p = a.len() as int;
    let e = p + 2 + x.len();
    assert(script[p] == 0x2f && script[p + 1] == 0x2a);
    assert(forall|k: int| p + 2 <= k < e ==> #[trigger] script[k] == x[k - p - 2]);
    assert(script[e] == 0x2a && script[e + 1] == 0x2f);
    assert forall|k: int| p + 2 <= k < e implies !(#[trigger] script[k] == 0x2a && script[k + 1]
        == 0x2f) by {
        if k + 1 < e {
            assert(x[k - p - 2] == script[k]);
            assert(x[k - p - 1] == script[k + 1]);
        }
    }
    block_runs(script, p + 2, e);
    block_end_advances(script, p + 2);
    assert(pair_at(script, p, 0x2f, 0x2a));
    assert(!pair_at(script, p, 0x2d, 0x2d));
    the_scanner_goes_on(script, 0, p, backslash_escapes);
    assert forall|k: int| 0 <= k < segments(script, 0, 0, backslash_escapes).len() - 1 implies {
        let separator = (#[trigger] segments(script, 0, 0, backslash_escapes)[k]).1;
        separator < a.len() || separator >= e + 2
    } by {
        quotes_and_comments_stay_whole(script, backslash_escapes, p, k);
    }
}

/// Bytes outside of comments are kept: from a place where no comment begins to the next
/// such place every byte counts as part of a statement.
pub proof fn what_is_no_comment_is_kept(bytes: Seq<u8>, i: int, e: int)
    requires
        0 <= i <= e <= bytes.len(),
        forall|k: int|
            i <= k < e ==> {
                let byte = #[trigger] bytes[k];
                !(byte == 0x2d && k + 1 < bytes.len() && bytes[k + 1] == 0x2d) && !(byte == 0x2f && k
                    + 1 < bytes.len() && bytes[k + 1] == 0x2a)
            },
    ensures
        uncommented(bytes, i) == bytes.subrange(i, e) + uncommented(bytes, e),
    decreases e - i,
{
    if i < e {
        what_is_no_comment_is_kept(bytes, i + 1, e);
        assert(!(bytes[i] == 0x2d && i + 1 < bytes.len() && bytes[i + 1] == 0x2d));
        assert(uncommented(bytes, i) == seq![bytes[i]] + uncommented(bytes, i + 1));
        assert(bytes.subrange(i, e) =~= seq![bytes[i]] + bytes.subrange(i + 1, e));
        assert(uncommented(bytes, i) =~= bytes.subrange(i, e) + uncommented(bytes, e));
    } else {
        assert(bytes.subrange(i, e) + uncommented(bytes, e) =~= uncommented(bytes, e));
    }
}

proof fn tag_runs(bytes: Seq<u8>, i: int, e: int)
    requires
        0 <= i <= e <= bytes.len(),
        forall|k: int|
            i <= k < e ==> {
                let byte = #[trigger] bytes[k];
                0x30 <= byte <= 0x39 || 0x41 <= byte <= 0x5a || 0x61 <= byte <= 0x7a || byte == 0x5f
            },
        e < bytes.len() ==> {
            let byte = bytes[e];
            !(0x30 <= byte <= 0x39 || 0x41 <= byte <= 0x5a || 0x61 <= byte <= 0x7a || byte == 0x5f)
        },
    ensures
        tag_end(bytes, i) == e,
    decreases e - i,
{
    if i < e {
        assert(0x30 <= bytes[i]);
        tag_runs(bytes, i + 1, e);
    }
}

/// The first tag from `i` on stands no later than any tag that is known.
proof fn first_tag(bytes: Seq<u8>, i: int, m: int, tag: Seq<u8>) -> (j: int)
    requires
        0 <= i <= m,
        tag.len() > 0,
        tag_at(bytes, m, tag),
    ensures
        i <= j <= m,
        tag_at(bytes, j, tag),
        dollar_end(bytes, i, tag) == j + tag.len(),
        forall|k: int| i <= k < j ==> !#[trigger] tag_at(bytes, k, tag),
    decreases m - i,
{
    if tag_at(bytes, i, tag) {
        i
    } else {
        first_tag(bytes, i + 1, m, tag)
    }
}

/// Where a tag stands at `p` and again at `m`, what begins at `p` is a block that ends with
/// the first tag behind it.
proof fn block_between(
    script: Seq<u8>,
    p: int,
    name: Seq<u8>,
    m: int,
    backslash_escapes: bool,
) -> (j: int)
    requires
        forall|k: int|
            0 <= k < name.len() ==> {
                let byte = #[trigger] name[k];
                0x30 <= byte <= 0x39 || 0x41 <= byte <= 0x5a || 0x61 <= byte <= 0x7a || byte == 0x5f
            },
        0 <= p,
        p + name.len() + 2 <= m,
        tag_at(script, p, seq![0x24u8] + name + seq![0x24u8]),
        tag_at(script, m, seq![0x24u8] + name + seq![0x24u8]),
    ensures
        p + name.len() + 2 <= j <= m,
        script.subrange(j, j + name.len() + 2) == seq![0x24u8] + name + seq![0x24u8],
        token_end(script, p, backslash_escapes) == j + name.len() + 2,
        script[p] == 0x24,
        forall|k: int| m <= k < m + name.len() + 2 ==> #[trigger] script[k] != 0x3b,
{
    let tag = seq![0x24u8] + name + seq![0x24u8];
    let d = tag.len() as int;
    assert(forall|k: int| 0 <= k < name.len() ==> tag[k + 1] == #[trigger] name[k]);
    assert(script.subrange(p, p + d)[0] == script[p]);
    assert(script.subrange(p, p + d)[d - 1] == script[p + d - 1]);
    assert forall|k: int| p + 1 <= k < p + d - 1 implies {
        let byte = #[trigger] script[k];
        0x30 <= byte <= 0x39 || 0x41 <= byte <= 0x5a || 0x61 <= byte <= 0x7a || byte == 0x5f
    } by {
        assert(script.subrange(p, p + d)[k - p] == script[k]);
        assert(tag[k - p] == name[k - p - 1]);
    }
    assert forall|k: int| m <= k < m + d implies #[trigger] script[k] != 0x3b by {
        assert(script.subrange(m, m + d)[k - m] == script[k]);
        if 0 < k - m && k - m < d - 1 {
            assert(tag[k - m] == name[k - m - 1]);
        }
    }
    tag_runs(script, p + 1, p + d - 1);
    assert(tag_len(script, p) == Some(d));
    first_tag(script, p + d, m, tag)
}

proof fn pieces_of_a_block(a: Seq<u8>, tag: Seq<u8>, x: Seq<u8>, b: Seq<u8>)
    ensures
        ({
            let script = a + tag + x + tag + b;
            let from = (a.len() + tag.len()) as int;
            &&& tag_at(script, a.len() as int, tag)
            &&& tag_at(script, from + x.len(), tag)
            &&& forall|k: int| 0 <= k < x.len() ==> script[from + k] == #[trigger] x[k]
            &&& forall|k: int|
                0 <= k <= x.len() ==> script.subrange(from + k, from + k + tag.len())
                    == #[trigger] (x + tag).subrange(k, k + tag.len())
        }),
{
    let script = a + tag + x + tag + b;
    let from = (a.len() + tag.len()) as int;
    assert(script.subrange(a.len() as int, from) =~= tag);
    assert(script.subrange(from + x.len(), from + x.len() + tag.len()) =~= tag);
    assert forall|k: int| 0 <= k <= x.len() implies script.subrange(from + k, from + k + tag.len())
        == #[trigger] (x + tag).subrange(k, k + tag.len()) by {
        assert(script.subrange(from + k, from + k + tag.len()) =~= (x + tag).subrange(
            k,
            k + tag.len(),
        ));
    }
}

/// A block whose text does not hold its tag ends within the tag that follows the text, or
/// with it.
proof fn block_ends_late(
    script: Seq<u8>,
    p: int,
    name: Seq<u8>,
    x: Seq<u8>,
    backslash_escapes: bool,
) -> (j: int)
    requires
        forall|k: int|
            0 <= k < name.len() ==> {
                let byte = #[trigger] name[k];
                0x30 <= byte <= 0x39 || 0x41 <= byte <= 0x5a || 0x61 <= byte <= 0x7a || byte == 0x5f
            },
        ({
            let tag = seq![0x24u8] + name + seq![0x24u8];
            forall|j: int|
                0 <= j <= x.len() - tag.len() ==> #[trigger] x.subrange(j, j + tag.len()) != tag
        }),
        0 <= p,
        tag_at(script, p, seq![0x24u8] + name + seq![0x24u8]),
        tag_at(script, p + name.len() + 2 + x.len(), seq![0x24u8] + name + seq![0x24u8]),
        forall|k: int| 0 <= k < x.len() ==> script[p + name.len() + 2 + k] == #[trigger] x[k],
    ensures
        p + name.len() + 2 <= j <= p + name.len() + 2 + x.len() < j + name.len() + 2,
        script.subrange(j, j + name.len() + 2) == seq![0x24u8] + name + seq![0x24u8],
        token_end(script, p, backslash_escapes) == j + name.len() + 2,
        script[p] == 0x24,
        forall|k: int|
            p + name.len() + 2 + x.len() <= k < p + name.len() + 2 + x.len() + name.len() + 2
                ==> #[trigger] script[k] != 0x3b,
{
    let d = name.len() as int + 2;
    let j = block_between(script, p, name, p + d + x.len(), backslash_escapes);
    if j + d <= p + d + x.len() {
        let at = j - p - d;
        assert(x.subrange(at, at + d) =~= script.subrange(j, j + d));
        assert(false);
    }
    j
}

proof fn no_separator_in_a_block(
    script: Seq<u8>,
    p: int,
    name: Seq<u8>,
    x: Seq<u8>,
    j: int,
    k: int,
    backslash_escapes: bool,
)
    requires
        comes_to(script, 0, p, backslash_escapes),
        p < script.len(),
        script[p] == 0x24,
        token_end(script, p, backslash_escapes) == j + name.len() + 2,
        p + name.len() + 2 + x.len() < j + name.len() + 2,
        forall|k: int|
            p + name.len() + 2 + x.len() <= k < p + name.len() + 2 + x.len() + name.len() + 2
                ==> #[trigger] script[k] != 0x3b,
        0 <= k < segments(script, 0, 0, backslash_escapes).len() - 1,
    ensures
        ({
            let separator = segments(script, 0, 0, backslash_escapes)[k].1;
            separator < p || separator >= p + name.len() + 2 + x.len() + name.len() + 2
        }),
{
    quotes_and_comments_stay_whole(script, backslash_escapes, p, k);
    segments_tile_the_script(script, backslash_escapes);
    assert(script[segments(script, 0, 0, backslash_escapes)[k].1] == 0x3b);
}

proof fn block_stays_whole(
    script: Seq<u8>,
    p: int,
    name: Seq<u8>,
    x: Seq<u8>,
    tag: Seq<u8>,
    backslash_escapes: bool,
)
    requires
        forall|k: int|
            0 <= k < name.len() ==> {
                let byte = #[trigger] name[k];
                0x30 <= byte <= 0x39 || 0x41 <= byte <= 0x5a || 0x61 <= byte <= 0x7a || byte == 0x5f
            },
        tag == seq![0x24u8] + name + seq![0x24u8],
        forall|j: int|
            0 <= j <= x.len() - tag.len() ==> #[trigger] x.subrange(j, j + tag.len()) != tag,
        0 <= p < script.len(),
        comes_to(script, 0, p, backslash_escapes),
        tag_at(script, p, tag),
        tag_at(script, p + tag.len() + x.len(), tag),
        forall|k: int| 0 <= k < x.len() ==> script[p + tag.len() + k] == #[trigger] x[k],
        forall|k: int|
            0 <= k <= x.len() ==> script.subrange(p + tag.len() + k, p + tag.len() + k + tag.len())
                == #[trigger] (x + tag).subrange(k, k + tag.len()),
    ensures
        ({
            let end = p + tag.len() + x.len() + tag.len();
            &&& forall|k: int|
                0 <= k < segments(script, 0, 0, backslash_escapes).len() - 1 ==> {
                    let separator = (#[trigger] segments(script, 0, 0, backslash_escapes)[k]).1;
                    separator < p || separator >= end
                }
            &&& (forall|j: int|
                0 <= j < x.len() ==> #[trigger] (x + tag).subrange(j, j + tag.len()) != tag)
                ==> comes_to(script, 0, end, backslash_escapes)
        }),
{
    let d = tag.len() as int;
    assert(d == name.len() + 2);
    let j = block_ends_late(script, p, name, x, backslash_escapes);
    let end = p + d + x.len() + d;
    assert forall|k: int| 0 <= k < segments(script, 0, 0, backslash_escapes).len() - 1 implies {
        let separator = (#[trigger] segments(script, 0, 0, backslash_escapes)[k]).1;
        separator < p || separator >= end
    } by {
        no_separator_in_a_block(script, p, name, x, j, k, backslash_escapes);
    }
    the_scanner_goes_on(script, 0, p, backslash_escapes);
    let at = j - p - d;
    assert(script.subrange(p + d + at, p + d + at + d) == (x + tag).subrange(at, at + d));
}

/// A tag of digits, letters of either case and underscores between two dollar signs opens
/// a block that runs to the same tag: between the two, whatever the text holds as long as
/// the tag does not occur in it, no semicolon separates statements. Where the tag does not
/// begin in the text at all, the block ends just past the second one.
pub proof fn dollar_quotes_stay_whole(
    a: Seq<u8>,
    name: Seq<u8>,
    x: Seq<u8>,
    b: Seq<u8>,
    backslash_escapes: bool,
)
    requires
        forall|k: int|
            0 <= k < name.len() ==> {
                let byte = #[trigger] name[k];
                0x30 <= byte <= 0x39 || 0x41 <= byte <= 0x5a || 0x61 <= byte <= 0x7a || byte == 0x5f
            },
        ({
            let tag = seq![0x24u8] + name + seq![0x24u8];
            forall|j: int|
                0 <= j <= x.len() - tag.len() ==> #[trigger] x.subrange(j, j + tag.len()) != tag
        }),
        ({
            let tag = seq![0x24u8] + name + seq![0x24u8];
            comes_to(a + tag + x + tag + b, 0, a.len() as int, backslash_escapes)
        }),
    ensures
        ({
            let tag = seq![0x24u8] + name + seq![0x24u8];
            let script = a + tag + x + tag + b;
            let end = a.len() + tag.len() + x.len() + tag.len();
            &&& forall|k: int|
                0 <= k < segments(script, 0, 0, backslash_escapes).len() - 1 ==> {
                    let separator = (#[trigger] segments(script, 0, 0, backslash_escapes)[k]).1;
                    separator < a.len() || separator >= end
                }
            &&& (forall|j: int|
                0 <= j < x.len() ==> #[trigger] (x + tag).subrange(j, j + tag.len()) != tag)
                ==> comes_to(script, 0, end as int, backslash_escapes)
        }),
{
    let tag = seq![0x24u8] + name + seq![0x24u8];
    pieces_of_a_block(a, tag, x, b);
    block_stays_whole(a + tag + x + tag + b, a.len() as int, name, x, tag, backslash_escapes);
}

/// A dollar sign opens a block only together with a second one, and only where nothing
/// but digits, letters and underscores stands between the two: any other byte, or the end
/// of the script, leaves the dollar sign a byte like others.
pub proof fn other_dollar_signs_open_nothing(
    a: Seq<u8>,
    name: Seq<u8>,
    b: Seq<u8>,
    backslash_escapes: bool,
)
    requires
        forall|k: int|
            0 <= k < name.len() ==> {
                let byte = #[trigger] name[k];
                0x30 <= byte <= 0x39 || 0x41 <= byte <= 0x5a || 0x61 <= byte <= 0x7a || byte == 0x5f
            },
        b.len() > 0 ==> {
            let byte = b[0];
            byte != 0x24 && !(0x30 <= byte <= 0x39 || 0x41 <= byte <= 0x5a || 0x61 <= byte <= 0x7a
                || byte == 0x5f)
        },
        comes_to(a + seq![0x24u8] + name + b, 0, a.len() as int, backslash_escapes),
    ensures
        comes_to(a + seq![0x24u8] + name + b, 0, (a.len() + 1 + name.len()) as int, backslash_escapes),
{
    let script = a + seq![0x24u8] + name + b;
    let p = a.len() as int;
    let e = p + 1 + name.len();
    assert(script[p] == 0x24);
    assert(forall|k: int| p + 1 <= k < e ==> #[trigger] script[k] == name[k - p - 1]);
    assert(e < script.len() ==> script[e] == b[0]);
    tag_runs(script, p + 1, e);
    assert(tag_len(script, p) is None);
    the_scanner_goes_on(script, 0, p, backslash_escapes);
    plain_bytes_open_nothing(script, p + 1, e, backslash_escapes);
}

/// Backslashes escape in scripts for MySQL and in no others.
pub proof fn backslashes_escape_for_mysql_only(sql: &str, engine: Engine)
    ensures
        forall|r: Vec<String>| #[trigger]
            call_ensures(split_statements, (sql, engine), r) ==> match engine {
                Engine::Mysql => texts(r@) == script_statements(sql@, true),
                Engine::Postgres => texts(r@) == script_statements(sql@, false),
                Engine::Sqlite => texts(r@) == script_statements(sql@, false),
                Engine::Mongodb => texts(r@) == script_statements(sql@, false),
            },
{
}

/// A stretch of a script is a statement exactly where something besides white space is left
/// of it once its comments are taken away, and the statement is the stretch without the
/// white space around it.
pub proof fn only_comments_and_white_space_are_dropped(text: Seq<char>)
    ensures
        ({
            let left = as_chars(uncommented(encode_utf8(trimmed(text)), 0));
            let inked = exists|i: int| 0 <= i < left.len() && !is_white_space(#[trigger] left[i]);
            &&& inked ==> statement_in(text) == seq![trimmed(text)]
            &&& !inked ==> statement_in(text).len() == 0
        }),
{
    let left = as_chars(uncommented(encode_utf8(trimmed(text)), 0));
    trimming_takes_white_space_only(left);
    if trimmed(text).len() == 0 {
        assert(encode_utf8(trimmed(text)).len() == 0);
    }
}

/// The statements of a script are those of its stretches, in order.
pub proof fn statements_come_in_order(sql: Seq<char>, backslash_escapes: bool)
    ensures
        ({
            let bytes = encode_utf8(sql);
            let list = segments(bytes, 0, 0, backslash_escapes);
            script_statements(sql, backslash_escapes) == list.map_values(
                |segment: (int, int)|
                    statement_in(decode_utf8(bytes.subrange(segment.0, segment.1))),
            ).flatten()
        }),
{
    let bytes = encode_utf8(sql);
    in_order_so_far(bytes, segments(bytes, 0, 0, backslash_escapes));
}

proof fn in_order_so_far(bytes: Seq<u8>, list: Seq<(int, int)>)
    ensures
        statements_in(bytes, list) == list.map_values(
            |segment: (int, int)| statement_in(decode_utf8(bytes.subrange(segment.0, segment.1))),
        ).flatten(),
    decreases list.len(),
{
    let each = |segment: (int, int)|
        statement_in(decode_utf8(bytes.subrange(segment.0, segment.1)));
    let all = list.map_values(each);
    if list.len() > 0 {
        in_order_so_far(bytes, list.drop_last());
        assert(all =~= list.drop_last().map_values(each).push(each(list.last())));
        list.drop_last().map_values(each).lemma_flatten_push(each(list.last()));
    } else {
        assert(all.flatten() =~= Seq::empty());
    }
}

} // verus!
