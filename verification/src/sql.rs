//! The text of the statement: what it is, as spec functions over the model,
//! and the executable pieces that assemble it.
//!
//! Layout: `SELECT <list> FROM <table>`, then ` WHERE <a> AND <b>` if any
//! column has a predicate, then ` ORDER BY <a>, <b>` if any column is
//! ordered, then `;`. Columns always appear in the schema's order. The list
//! is `*` when every column is selected and also when none is.

use vstd::prelude::*;
use crate::flags::{OrderdFlag, SelectedFlag};
use crate::model::ColumnSpecification;

verus! {

/// The fragments that are there, in their order.
pub open spec fn present(frags: Seq<Option<Seq<char>>>) -> Seq<Seq<char>>
    decreases frags.len(),
{
    if frags.len() == 0 {
        Seq::empty()
    } else {
        let rest = present(frags.drop_last());
        match frags.last() {
            Some(f) => rest.push(f),
            None => rest,
        }
    }
}

/// The items in their order, with `sep` between each two neighbours.
pub open spec fn join(items: Seq<Seq<char>>, sep: Seq<char>) -> Seq<char>
    decreases items.len(),
{
    if items.len() == 0 {
        Seq::empty()
    } else if items.len() == 1 {
        items.last()
    } else {
        join(items.drop_last(), sep) + sep + items.last()
    }
}

/// Nothing if there are no items; else `head` and the joined items.
pub open spec fn clause(head: Seq<char>, items: Seq<Seq<char>>, sep: Seq<char>) -> Seq<char> {
    if items.len() == 0 {
        Seq::empty()
    } else {
        head + join(items, sep)
    }
}

/// Per column: its name if it is selected.
pub open spec fn select_fragments(
    columns: Seq<Seq<char>>,
    specs: Seq<ColumnSpecification>,
) -> Seq<Option<Seq<char>>> {
    Seq::new(
        columns.len(),
        |i: int|
            if specs[i].selected == SelectedFlag::Selected {
                Some(columns[i])
            } else {
                None
            },
    )
}

/// Per column: its name, a space and its predicate, if it has one. An empty
/// predicate is a predicate.
pub open spec fn where_fragments(
    columns: Seq<Seq<char>>,
    specs: Seq<ColumnSpecification>,
) -> Seq<Option<Seq<char>>> {
    Seq::new(
        columns.len(),
        |i: int|
            match specs[i].predicate {
                Some(p) => Some(columns[i] + " "@ + p),
                None => None,
            },
    )
}

/// Per column: its name and its direction, if it is ordered.
pub open spec fn order_fragments(
    columns: Seq<Seq<char>>,
    specs: Seq<ColumnSpecification>,
) -> Seq<Option<Seq<char>>> {
    Seq::new(
        columns.len(),
        |i: int|
            match specs[i].order {
                OrderdFlag::Asc => Some(columns[i] + " ASC"@),
                OrderdFlag::Desc => Some(columns[i] + " DESC"@),
                OrderdFlag::Off => None,
            },
    )
}

/// `*` if all columns or none are selected; else the selected names, joined
/// by a comma and a space.
pub open spec fn select_list(columns: Seq<Seq<char>>, specs: Seq<ColumnSpecification>) -> Seq<
    char,
> {
    let names = present(select_fragments(columns, specs));
    if names.len() == 0 || names.len() == columns.len() {
        "*"@
    } else {
        join(names, ", "@)
    }
}

/// The `WHERE` clause with its leading space, or nothing.
pub open spec fn where_clause(columns: Seq<Seq<char>>, specs: Seq<ColumnSpecification>) -> Seq<
    char,
> {
    clause(" WHERE "@, present(where_fragments(columns, specs)), " AND "@)
}

/// The `ORDER BY` clause with its leading space, or nothing.
pub open spec fn order_clause(columns: Seq<Seq<char>>, specs: Seq<ColumnSpecification>) -> Seq<
    char,
> {
    clause(" ORDER BY "@, present(order_fragments(columns, specs)), ", "@)
}

/// The whole statement.
pub open spec fn query_text(
    table: Seq<char>,
    columns: Seq<Seq<char>>,
    specs: Seq<ColumnSpecification>,
) -> Seq<char> {
    "SELECT "@ + select_list(columns, specs) + " FROM "@ + table + where_clause(columns, specs)
        + order_clause(columns, specs) + ";"@
}

/// The fragments of a vector of optional strings, as plain values.
pub open spec fn fragment_views(frags: Seq<Option<String>>) -> Seq<Option<Seq<char>>> {
    Seq::new(
        frags.len(),
        |i: int|
            match frags[i] {
                Some(s) => Some(s@),
                None => None,
            },
    )
}

/// One more fragment adds one item to those present, or none.
pub proof fn lemma_present_take(frags: Seq<Option<Seq<char>>>, i: int)
    requires
        0 <= i < frags.len(),
    ensures
        present(frags.take(i + 1)) == match frags[i] {
            Some(f) => present(frags.take(i)).push(f),
            None => present(frags.take(i)),
        },
{
    assert(frags.take(i + 1).drop_last() =~= frags.take(i));
    assert(frags.take(i + 1).last() == frags[i]);
}

/// If every fragment is there, as many items are present as there are
/// fragments.
pub proof fn lemma_present_all(frags: Seq<Option<Seq<char>>>)
    requires
        forall|i: int| 0 <= i < frags.len() ==> frags[i].is_some(),
    ensures
        present(frags).len() == frags.len(),
    decreases frags.len(),
{
    if frags.len() > 0 {
        lemma_present_all(frags.drop_last());
    }
}

/// If no fragment is there, no item is present.
pub proof fn lemma_present_none(frags: Seq<Option<Seq<char>>>)
    requires
        forall|i: int| 0 <= i < frags.len() ==> frags[i].is_none(),
    ensures
        present(frags).len() == 0,
    decreases frags.len(),
{
    if frags.len() > 0 {
        lemma_present_none(frags.drop_last());
    }
}

/// A fragment that is there is among the items present.
pub proof fn lemma_present_contains(frags: Seq<Option<Seq<char>>>, i: int)
    requires
        0 <= i < frags.len(),
        frags[i].is_some(),
    ensures
        present(frags).contains(frags[i].unwrap()),
    decreases frags.len(),
{
    let rest = present(frags.drop_last());
    if i == frags.len() - 1 {
        assert(rest.push(frags[i].unwrap()).last() == frags[i].unwrap());
    } else {
        lemma_present_contains(frags.drop_last(), i);
        let k = choose|k: int| 0 <= k < rest.len() && rest[k] == frags[i].unwrap();
        match frags.last() {
            Some(f) => {
                assert(rest.push(f)[k] == frags[i].unwrap());
            },
            None => {},
        }
    }
}

/// Joining one more item appends the separator and the item, or the item
/// alone if it is the first.
pub proof fn lemma_join_push(items: Seq<Seq<char>>, sep: Seq<char>, item: Seq<char>)
    ensures
        join(items.push(item), sep) == if items.len() == 0 {
            item
        } else {
            join(items, sep) + sep + item
        },
{
    assert(items.push(item).drop_last() =~= items);
    assert(items.push(item).last() == item);
}

/// The number of fragments that are there.
pub fn count_present(frags: &Vec<Option<String>>) -> (n: usize)
    ensures
        n == present(fragment_views(frags@)).len(),
{
    let ghost views = fragment_views(frags@);
    let mut n: usize = 0;
    let mut i: usize = 0;
    while i < frags.len()
        invariant
            i <= frags.len(),
            views == fragment_views(frags@),
            n == present(views.take(i as int)).len(),
            n <= i,
        decreases frags.len() - i,
    {
        proof {
            lemma_present_take(views, i as int);
        }
        if frags[i].is_some() {
            n = n + 1;
        }
        i = i + 1;
    }
    proof {
        assert(views.take(i as int) =~= views);
    }
    n
}

/// Appends to `out` the fragments that are there, with `sep` between them.
pub fn push_joined(out: &mut String, sep: &str, frags: &Vec<Option<String>>)
    ensures
        final(out)@ == old(out)@ + join(present(fragment_views(frags@)), sep@),
{
    let ghost start = out@;
    let ghost views = fragment_views(frags@);
    let mut first = true;
    let mut i: usize = 0;
    proof {
        assert(out@ =~= start + join(present(views.take(0)), sep@));
    }
    while i < frags.len()
        invariant
            i <= frags.len(),
            views == fragment_views(frags@),
            first == (present(views.take(i as int)).len() == 0),
            out@ == start + join(present(views.take(i as int)), sep@),
        decreases frags.len() - i,
    {
        let ghost before = present(views.take(i as int));
        proof {
            lemma_present_take(views, i as int);
        }
        match &frags[i] {
            Some(f) => {
                proof {
                    lemma_join_push(before, sep@, f@);
                }
                if first {
                    first = false;
                } else {
                    out.push_str(sep);
                }
                out.push_str(f.as_str());
                proof {
                    assert(out@ =~= start + join(before.push(f@), sep@));
                }
            },
            None => {},
        }
        i = i + 1;
    }
    proof {
        assert(views.take(i as int) =~= views);
    }
}

/// Appends to `out` nothing if no fragment is there; else `head` and the
/// fragments that are there, with `sep` between them.
pub fn push_clause(out: &mut String, head: &str, sep: &str, frags: &Vec<Option<String>>)
    ensures
        final(out)@ == old(out)@ + clause(head@, present(fragment_views(frags@)), sep@),
{
    if count_present(frags) > 0 {
        out.push_str(head);
        push_joined(out, sep, frags);
        proof {
            let items = present(fragment_views(frags@));
            assert(out@ =~= old(out)@ + (head@ + join(items, sep@)));
        }
    } else {
        proof {
            assert(out@ =~= old(out)@ + Seq::<char>::empty());
        }
    }
}

} // verus!
