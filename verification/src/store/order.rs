//! The order in which rows are listed.
use vstd::prelude::*;

verus! {

/// A row of which a listing has an order.
pub trait Ordered: Sized {
    /// Whether this row is listed before `earlier`, which came into the table before it.
    spec fn goes_before(self, earlier: Self) -> bool;

    /// Computes [`Ordered::goes_before`].
    fn is_before(&self, earlier: &Self) -> (r: bool)
        ensures
            r == self.goes_before(*earlier),
    ;
}

/// The place of a row among those that are listed: before the first that it goes before.
pub open spec fn place<T: Ordered>(listed: Seq<T>, row: T) -> nat
    decreases listed.len(),
{
    if listed.len() == 0 || row.goes_before(listed[0]) {
        0
    } else {
        1 + place(listed.drop_first(), row)
    }
}

/// The rows of a table in the order in which they are listed.
pub open spec fn arranged<T: Ordered>(rows: Seq<T>) -> Seq<T>
    decreases rows.len(),
{
    if rows.len() == 0 {
        Seq::empty()
    } else {
        let listed = arranged(rows.drop_last());
        listed.insert(place(listed, rows.last()) as int, rows.last())
    }
}

proof fn place_is_first<T: Ordered>(listed: Seq<T>, row: T)
    ensures
        place(listed, row) <= listed.len(),
        forall|i: int| 0 <= i < place(listed, row) ==> !row.goes_before(#[trigger] listed[i]),
        place(listed, row) < listed.len() ==> row.goes_before(listed[place(listed, row) as int]),
    decreases listed.len(),
{
    if listed.len() > 0 && !row.goes_before(listed[0]) {
        let rest = listed.drop_first();
        place_is_first(rest, row);
        assert forall|i: int| 0 <= i < place(listed, row) implies !row.goes_before(
            #[trigger] listed[i],
        ) by {
            if i > 0 {
                assert(listed[i] == rest[i - 1]);
            }
        }
        if place(listed, row) < listed.len() {
            assert(listed[place(listed, row) as int] == rest[place(rest, row) as int]);
        }
    }
}

proof fn place_is<T: Ordered>(listed: Seq<T>, row: T, at: int)
    requires
        0 <= at <= listed.len(),
        forall|i: int| 0 <= i < at ==> !row.goes_before(#[trigger] listed[i]),
        at < listed.len() ==> row.goes_before(listed[at]),
    ensures
        place(listed, row) == at,
    decreases listed.len(),
{
    if at > 0 {
        assert(!row.goes_before(listed[0]));
        let rest = listed.drop_first();
        assert forall|i: int| 0 <= i < at - 1 implies !row.goes_before(#[trigger] rest[i]) by {
            assert(rest[i] == listed[i + 1]);
        }
        place_is(rest, row, at - 1);
    }
}

/// Computes [`arranged`].
pub fn arrange<T: Ordered>(rows: Vec<T>) -> (r: Vec<T>)
    ensures
        r@ == arranged(rows@),
{
    let mut rest = rows;
    let mut listed: Vec<T> = Vec::new();
    let ghost mut done: int = 0;
    assert(rows@.subrange(0, rows@.len() as int) =~= rows@);
    while rest.len() > 0
        invariant
            0 <= done <= rows@.len(),
            rest@ == rows@.subrange(done, rows@.len() as int),
            listed@ == arranged(rows@.subrange(0, done)),
        decreases rest@.len(),
    {
        let row = rest.remove(0);
        proof {
            assert(row == rows@[done]);
            assert(rest@ =~= rows@.subrange(done + 1, rows@.len() as int));
            assert(rows@.subrange(0, done + 1).drop_last() =~= rows@.subrange(0, done));
        }
        let mut at: usize = 0;
        while at < listed.len() && !row.is_before(&listed[at])
            invariant
                at <= listed@.len(),
                forall|i: int| 0 <= i < at ==> !row.goes_before(#[trigger] listed@[i]),
            decreases listed@.len() - at,
        {
            at = at + 1;
        }
        proof {
            place_is(listed@, row, at as int);
            done = done + 1;
        }
        listed.insert(at, row);
    }
    assert(rows@.subrange(0, done) =~= rows@);
    listed
}

/// A listing has every row of the table, as often as the table has it.
pub proof fn arranging_keeps_the_rows<T: Ordered>(rows: Seq<T>)
    ensures
        arranged(rows).to_multiset() == rows.to_multiset(),
        arranged(rows).len() == rows.len(),
    decreases rows.len(),
{
    if rows.len() > 0 {
        let listed = arranged(rows.drop_last());
        arranging_keeps_the_rows(rows.drop_last());
        place_is_first(listed, rows.last());
        vstd::seq_lib::to_multiset_insert(listed, place(listed, rows.last()) as int, rows.last());
        assert(rows =~= rows.drop_last().push(rows.last()));
        vstd::seq_lib::to_multiset_build(rows.drop_last(), rows.last());
    } else {
        assert(rows =~= Seq::empty());
    }
}

/// A listing is in order, for every order that its rows are placed by.
pub proof fn arranging_orders_the_rows<T: Ordered>(rows: Seq<T>, up_to: spec_fn(T, T) -> bool)
    requires
        forall|a: T, b: T, c: T| #[trigger]
            up_to(a, b) && #[trigger] up_to(b, c) ==> up_to(a, c),
        forall|row: T, earlier: T|
            if #[trigger] row.goes_before(earlier) {
                up_to(row, earlier)
            } else {
                up_to(earlier, row)
            },
    ensures
        forall|i: int, j: int|
            0 <= i < j < rows.len() ==> #[trigger] up_to(arranged(rows)[i], arranged(rows)[j]),
    decreases rows.len(),
{
    arranging_keeps_the_rows(rows);
    if rows.len() > 0 {
        let listed = arranged(rows.drop_last());
        let row = rows.last();
        arranging_orders_the_rows(rows.drop_last(), up_to);
        arranging_keeps_the_rows(rows.drop_last());
        place_is_first(listed, row);
        let at = place(listed, row) as int;
        let all = listed.insert(at, row);
        assert forall|i: int, j: int| 0 <= i < j < rows.len() implies #[trigger] up_to(
            all[i],
            all[j],
        ) by {
            if i < at && j == at {
                assert(!row.goes_before(listed[i]));
            }
            if i == at {
                assert(row.goes_before(listed[at]));
                if j - 1 > at {
                    assert(up_to(listed[at], listed[j - 1]));
                }
            }
        }
    }
}

} // verus!
