//! What comparing and composing texts comes to.
use vstd::prelude::*;

use crate::ids::hyphenated;
use crate::model::{Workspace, WorkspaceKind};
use crate::store::order::{arranged, arranging_orders_the_rows, Ordered};
use crate::store::tables::ConnectionRow;
use crate::text::{
    ascii_lower, begins_with, comes_before, eq_ignore_ascii_case, is_white_space, precedes,
    same_ignoring_ascii_case, same_text, starts_with, trim_back, trim_back_is_a_prefix, trim_front,
    trimmed, trimming_is_idempotent, Text,
};

verus! {

/// Texts are ordered by the first character in which they differ, and where one ends before
/// they differ it comes first; no text comes before itself.
pub proof fn texts_are_ordered_by_their_first_difference(a: Seq<char>, b: Seq<char>, k: int)
    requires
        0 <= k <= a.len(),
        k <= b.len(),
        forall|i: int| 0 <= i < k ==> #[trigger] a[i] == b[i],
    ensures
        k < a.len() && k < b.len() && a[k] != b[k] ==> (precedes(a, b) <==> a[k] < b[k]),
        k == a.len() && k < b.len() ==> precedes(a, b) && !precedes(b, a),
        k == a.len() && k == b.len() ==> !precedes(a, b),
    decreases k,
{
    if k > 0 {
        assert(a[0] == b[0]);
        let x = a.drop_first();
        let y = b.drop_first();
        assert forall|i: int| 0 <= i < k - 1 implies #[trigger] x[i] == y[i] by {
            assert(a[i + 1] == b[i + 1]);
        }
        texts_are_ordered_by_their_first_difference(x, y, k - 1);
    }
}

/// Of two texts at most one comes before the other, and what does not come before what
/// does not come before a third does not come before it either.
pub proof fn the_order_of_texts_is_an_order(a: Seq<char>, b: Seq<char>, c: Seq<char>)
    ensures
        !(precedes(a, b) && precedes(b, a)),
        !precedes(b, a) && !precedes(c, b) ==> !precedes(c, a),
        !precedes(a, b) && !precedes(b, a) ==> a == b,
    decreases a.len(),
{
    if a.len() > 0 && b.len() > 0 {
        if c.len() > 0 {
            the_order_of_texts_is_an_order(a.drop_first(), b.drop_first(), c.drop_first());
        } else {
            the_order_of_texts_is_an_order(a.drop_first(), b.drop_first(), c);
        }
        if a[0] == b[0] && !precedes(a, b) && !precedes(b, a) {
            assert(a =~= seq![a[0]] + a.drop_first());
            assert(b =~= seq![b[0]] + b.drop_first());
        }
    } else if a.len() == 0 && b.len() == 0 {
        assert(a =~= b);
    }
}

/// What the comparisons of texts tell: whether two are the same, the same but for the case
/// of ASCII letters, one the beginning of the other, or one before the other.
pub proof fn comparisons_tell_what_they_say(a: &str, b: &str, c: char)
    ensures
        forall|r: bool| #[trigger] call_ensures(same_text, (a, b), r) ==> (r <==> a@ == b@),
        forall|r: bool| #[trigger]
            call_ensures(starts_with, (a, b), r) ==> (r <==> b@.is_prefix_of(a@)),
        forall|r: bool| #[trigger]
            call_ensures(comes_before, (a, b), r) ==> (r <==> precedes(a@, b@)),
        forall|r: bool| #[trigger]
            call_ensures(eq_ignore_ascii_case, (a, b), r) ==> (r <==> same_ignoring_ascii_case(
                a@,
                b@,
            )),
        same_ignoring_ascii_case(a@, b@) <==> a@.len() == b@.len() && forall|i: int|
            0 <= i < a@.len() ==> ascii_lower(#[trigger] a@[i]) == ascii_lower(b@[i]),
        'A' <= c && c <= 'Z' ==> ascii_lower(c) as int == c as int + 32,
        c < 'A' || c > 'Z' ==> ascii_lower(c) == c,
{
    assert(begins_with(a@, b@) <==> b@.is_prefix_of(a@)) by {
        if b@.len() <= a@.len() {
            assert(a@.subrange(0, b@.len() as int) =~= b@ <==> b@.is_prefix_of(a@));
        }
    }
}

/// How a message reads: its parts, one after the other.
pub proof fn messages_read_as_their_parts(
    a: &'static str,
    b: &'static str,
    c: &'static str,
    text: String,
    other: String,
    id: u128,
    message: Text,
)
    ensures
        Text::Plain(a)@ == a@,
        Text::Owned(text)@ == text@,
        Text::Around(a, b, c)@ == a@ + b@ + c@,
        Text::Then(a, b, text)@ == a@ + b@ + text@,
        Text::WithId(a, id, b)@ == a@ + hyphenated(id) + b@,
        Text::WithText(a, text, b)@ == a@ + text@ + b@,
        Text::IdThenText(a, id, b, text)@ == a@ + hyphenated(id) + b@ + text@,
        Text::TwoTexts(a, text, b, other)@ == a@ + text@ + b@ + other@,
        forall|r: String| #[trigger] call_ensures(Text::render, (&message,), r) ==> r@ == message@,
{
}

/// The order of listings by name: connections by their names, and workspaces by theirs, the
/// personal ones before the teams.
pub proof fn listings_go_by_name(connections: Seq<ConnectionRow>, workspaces: Seq<Workspace>)
    ensures
        forall|i: int, j: int|
            0 <= i < j < connections.len() ==> !precedes(
                (#[trigger] arranged(connections)[j]).name@,
                (#[trigger] arranged(connections)[i]).name@,
            ),
        forall|i: int, j: int|
            0 <= i < j < workspaces.len() ==> {
                let first = #[trigger] arranged(workspaces)[i];
                let second = #[trigger] arranged(workspaces)[j];
                &&& second.kind == WorkspaceKind::Personal ==> first.kind == WorkspaceKind::Personal
                &&& first.kind == second.kind ==> !precedes(second.name@, first.name@)
            },
{
    let by_name = |a: ConnectionRow, b: ConnectionRow| !precedes(b.name@, a.name@);
    let in_order = |a: Workspace, b: Workspace|
        {
            &&& b.kind == WorkspaceKind::Personal ==> a.kind == WorkspaceKind::Personal
            &&& a.kind == b.kind ==> !precedes(b.name@, a.name@)
        };
    assert forall|a: ConnectionRow, b: ConnectionRow, c: ConnectionRow| #[trigger]
        by_name(a, b) && #[trigger] by_name(b, c) implies by_name(a, c) by {
        the_order_of_texts_is_an_order(a.name@, b.name@, c.name@);
    }
    assert forall|row: ConnectionRow, earlier: ConnectionRow|
        if #[trigger] row.goes_before(earlier) {
            by_name(row, earlier)
        } else {
            by_name(earlier, row)
        } by {
        the_order_of_texts_is_an_order(row.name@, earlier.name@, earlier.name@);
    }
    arranging_orders_the_rows(connections, by_name);
    assert forall|i: int, j: int| 0 <= i < j < connections.len() implies !precedes(
        (#[trigger] arranged(connections)[j]).name@,
        (#[trigger] arranged(connections)[i]).name@,
    ) by {
        assert(by_name(arranged(connections)[i], arranged(connections)[j]));
    }
    assert forall|a: Workspace, b: Workspace, c: Workspace| #[trigger]
        in_order(a, b) && #[trigger] in_order(b, c) implies in_order(a, c) by {
        the_order_of_texts_is_an_order(a.name@, b.name@, c.name@);
    }
    assert forall|row: Workspace, earlier: Workspace|
        if #[trigger] row.goes_before(earlier) {
            in_order(row, earlier)
        } else {
            in_order(earlier, row)
        } by {
        the_order_of_texts_is_an_order(row.name@, earlier.name@, earlier.name@);
    }
    arranging_orders_the_rows(workspaces, in_order);
    assert forall|i: int, j: int| 0 <= i < j < workspaces.len() implies {
        let first = #[trigger] arranged(workspaces)[i];
        let second = #[trigger] arranged(workspaces)[j];
        &&& second.kind == WorkspaceKind::Personal ==> first.kind == WorkspaceKind::Personal
        &&& first.kind == second.kind ==> !precedes(second.name@, first.name@)
    } by {
        assert(in_order(arranged(workspaces)[i], arranged(workspaces)[j]));
    }
}

/// Trimming takes away white space at both ends and nothing else: what is left stands in the
/// text, and all before and behind it is white space. So nothing is left exactly where all
/// of the text is white space.
pub proof fn trimming_takes_white_space_only(text: Seq<char>) -> (at: int)
    ensures
        0 <= at,
        at + trimmed(text).len() <= text.len(),
        text.subrange(at, at + trimmed(text).len()) == trimmed(text),
        forall|i: int| 0 <= i < at ==> is_white_space(#[trigger] text[i]),
        forall|i: int|
            at + trimmed(text).len() <= i < text.len() ==> is_white_space(#[trigger] text[i]),
        trimmed(text).len() == 0 <==> forall|i: int|
            0 <= i < text.len() ==> is_white_space(#[trigger] text[i]),
{
    let at = front_is_white_space(text);
    let rest = trim_front(text);
    back_is_white_space(rest);
    trim_back_is_a_prefix(rest);
    let n = trimmed(text).len() as int;
    assert(text.subrange(at, at + n) =~= trimmed(text));
    assert forall|i: int| at + n <= i < text.len() implies is_white_space(#[trigger] text[i]) by {
        assert(rest[i - at] == text[i]);
    }
    if n > 0 {
        trimming_is_idempotent(text);
        assert(trimmed(text)[0] == text[at]);
    }
    at
}

proof fn front_is_white_space(text: Seq<char>) -> (at: int)
    ensures
        0 <= at <= text.len(),
        trim_front(text) == text.subrange(at, text.len() as int),
        forall|i: int| 0 <= i < at ==> is_white_space(#[trigger] text[i]),
    decreases text.len(),
{
    if text.len() > 0 && is_white_space(text[0]) {
        let rest = text.subrange(1, text.len() as int);
        let at = front_is_white_space(rest);
        assert(text.subrange(at + 1, text.len() as int) =~= rest.subrange(at, rest.len() as int));
        assert forall|i: int| 0 <= i < at + 1 implies is_white_space(#[trigger] text[i]) by {
            if i > 0 {
                assert(rest[i - 1] == text[i]);
            }
        }
        at + 1
    } else {
        assert(text =~= text.subrange(0, text.len() as int));
        0
    }
}

proof fn back_is_white_space(text: Seq<char>)
    ensures
        forall|i: int|
            trim_back(text).len() <= i < text.len() ==> is_white_space(#[trigger] text[i]),
    decreases text.len(),
{
    if text.len() > 0 && is_white_space(text.last()) {
        let rest = text.drop_last();
        back_is_white_space(rest);
        assert forall|i: int|
            trim_back(text).len() <= i < text.len() implies is_white_space(#[trigger] text[i]) by {
            if i < rest.len() {
                assert(rest[i] == text[i]);
            }
        }
    }
}

} // verus!
