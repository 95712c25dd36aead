//! Reading a staged relation back: its column names from the catalog and its
//! rows as text.
use vstd::prelude::*;

verus! {

/// One message of a simple-protocol query response, each value in its text
/// form (`None` for SQL null).
#[derive(Clone, Debug, PartialEq, Eq)]
pub enum QueryMessage {
    RowDescription(Vec<String>),
    Row(Vec<Option<String>>),
    CommandComplete(u64),
}

/// The cells of one row as optional texts.
pub open spec fn cells_view(cells: Seq<Option<String>>) -> Seq<Option<Seq<char>>> {
    cells.map_values(|c: Option<String>| match c {
        Some(s) => Some(s@),
        None => None,
    })
}

pub open spec fn strings_view(v: Seq<String>) -> Seq<Seq<char>> {
    v.map_values(|s: String| s@)
}

pub open spec fn table_view(v: Seq<Vec<String>>) -> Seq<Seq<Seq<char>>> {
    v.map_values(|r: Vec<String>| strings_view(r@))
}

/// The text that a cell renders as: its value, or the empty string for null.
pub open spec fn cell_text(c: Option<Seq<char>>) -> Seq<char> {
    match c {
        Some(s) => s,
        None => Seq::empty(),
    }
}

/// A row rendered as texts, one per cell.
pub open spec fn row_text(cells: Seq<Option<Seq<char>>>) -> Seq<Seq<char>> {
    cells.map_values(|c: Option<Seq<char>>| cell_text(c))
}

/// The rows carried by a response, in the order they arrived.
pub open spec fn cells_of(msgs: Seq<QueryMessage>) -> Seq<Seq<Option<Seq<char>>>>
    decreases msgs.len(),
{
    if msgs.len() == 0 {
        Seq::empty()
    } else {
        let rest = cells_of(msgs.drop_last());
        match msgs.last() {
            QueryMessage::Row(cells) => rest.push(cells_view(cells@)),
            _ => rest,
        }
    }
}

/// The rows of a response rendered as text.
pub open spec fn rows_of(msgs: Seq<QueryMessage>) -> Seq<Seq<Seq<char>>> {
    cells_of(msgs).map_values(|r: Seq<Option<Seq<char>>>| row_text(r))
}

/// Whether every catalog row names its attribute in its first cell.
pub open spec fn names_present(msgs: Seq<QueryMessage>) -> bool {
    forall|r: int|
        0 <= r < cells_of(msgs).len() ==> #[trigger] cells_of(msgs)[r].len() > 0
            && cells_of(msgs)[r][0] is Some
}

/// The attribute names listed by a catalog response, one per row.
pub open spec fn names_of(msgs: Seq<QueryMessage>) -> Seq<Seq<char>> {
    cells_of(msgs).map_values(|r: Seq<Option<Seq<char>>>| cell_text(r[0]))
}

/// Whether every row has exactly one cell per column.
pub open spec fn rectangular(width: int, rows: Seq<Seq<Seq<char>>>) -> bool {
    forall|i: int| 0 <= i < rows.len() ==> #[trigger] rows[i].len() == width
}

/// Renders one row as texts; a null cell becomes the empty string.
pub fn row_to_strings(row: &Vec<Option<String>>) -> (r: Vec<String>)
    ensures
        strings_view(r@) == row_text(cells_view(row@)),
{
    let mut out: Vec<String> = Vec::with_capacity(row.len());
    let mut i: usize = 0;
    while i < row.len()
        invariant
            i <= row.len(),
            strings_view(out@) == row_text(cells_view(row@)).take(i as int),
        decreases row.len() - i,
    {
        let text = match &row[i] {
            Some(s) => s.clone(),
            None => String::new(),
        };
        assert(text@ == cell_text(cells_view(row@)[i as int]));
        let ghost before = out@;
        out.push(text);
        assert(strings_view(out@) =~= strings_view(before).push(text@));
        assert(row_text(cells_view(row@)).take(i + 1) =~= row_text(cells_view(row@)).take(
            i as int,
        ).push(text@));
        i = i + 1;
    }
    assert(row_text(cells_view(row@)).take(i as int) =~= row_text(cells_view(row@)));
    out
}

/// The data rows of a response, each rendered as texts, in arrival order;
/// other messages are skipped.
pub fn read_rows(msgs: &Vec<QueryMessage>) -> (r: Vec<Vec<String>>)
    ensures
        table_view(r@) == rows_of(msgs@),
{
    let mut out: Vec<Vec<String>> = Vec::new();
    let mut i: usize = 0;
    while i < msgs.len()
        invariant
            i <= msgs.len(),
            table_view(out@) == rows_of(msgs@.take(i as int)),
        decreases msgs.len() - i,
    {
        assert(msgs@.take(i + 1).drop_last() =~= msgs@.take(i as int));
        if let QueryMessage::Row(cells) = &msgs[i] {
            let row = row_to_strings(cells);
            let ghost before = out@;
            out.push(row);
            assert(table_view(out@) =~= table_view(before).push(strings_view(row@)));
            assert(cells_of(msgs@.take(i + 1)) == cells_of(msgs@.take(i as int)).push(
                cells_view(cells@),
            ));
        } else {
            assert(cells_of(msgs@.take(i + 1)) == cells_of(msgs@.take(i as int)));
        }
        i = i + 1;
        assert(table_view(out@) =~= rows_of(msgs@.take(i as int)));
    }
    assert(msgs@.take(i as int) =~= msgs@);
    out
}

/// The attribute names of a catalog response, one per row, or `None` where a
/// row lacks a name.
pub fn column_names(msgs: &Vec<QueryMessage>) -> (r: Option<Vec<String>>)
    ensures
        match r {
            Some(names) => names_present(msgs@) && strings_view(names@) == names_of(msgs@),
            None => !names_present(msgs@),
        },
{
    let mut out: Vec<String> = Vec::new();
    let mut i: usize = 0;
    while i < msgs.len()
        invariant
            i <= msgs.len(),
            names_present(msgs@.take(i as int)),
            strings_view(out@) == names_of(msgs@.take(i as int)),
        decreases msgs.len() - i,
    {
        assert(msgs@.take(i + 1).drop_last() =~= msgs@.take(i as int));
        if let QueryMessage::Row(cells) = &msgs[i] {
            let ghost prefix = cells_of(msgs@.take(i + 1));
            assert(prefix == cells_of(msgs@.take(i as int)).push(cells_view(cells@)));
            proof {
                lemma_cells_prefix(msgs@, i as int + 1);
            }
            let ghost last = prefix.len() - 1;
            assert(prefix[last] == cells_of(msgs@)[last]);
            if cells.len() == 0 {
                assert(cells_of(msgs@)[last].len() == 0);
                return None;
            }
            match &cells[0] {
                Some(name) => {
                    let ghost before = out@;
                    out.push(name.clone());
                    assert(strings_view(out@) =~= strings_view(before).push(name@));
                    assert(names_present(msgs@.take(i + 1)));
                },
                None => {
                    assert(cells_of(msgs@)[last][0] is None);
                    return None;
                },
            }
        } else {
            assert(cells_of(msgs@.take(i + 1)) == cells_of(msgs@.take(i as int)));
            assert(names_present(msgs@.take(i + 1)));
        }
        i = i + 1;
        assert(strings_view(out@) =~= names_of(msgs@.take(i as int)));
    }
    assert(msgs@.take(i as int) =~= msgs@);
    Some(out)
}

/// The rows of a prefix of a response are a prefix of its rows.
proof fn lemma_cells_prefix(msgs: Seq<QueryMessage>, n: int)
    requires
        0 <= n <= msgs.len(),
    ensures
        cells_of(msgs.take(n)).len() <= cells_of(msgs).len(),
        forall|k: int|
            0 <= k < cells_of(msgs.take(n)).len() ==> #[trigger] cells_of(msgs.take(n))[k]
                == cells_of(msgs)[k],
    decreases msgs.len() - n,
{
    if n < msgs.len() {
        lemma_cells_prefix(msgs, n + 1);
        assert(msgs.take(n + 1).drop_last() =~= msgs.take(n));
        let small = cells_of(msgs.take(n));
        let big = cells_of(msgs.take(n + 1));
        assert(small.len() <= big.len());
        assert forall|k: int| 0 <= k < small.len() implies #[trigger] small[k] == cells_of(
            msgs,
        )[k] by {
            assert(small[k] == big[k]);
        }
    } else {
        assert(msgs.take(n) =~= msgs);
    }
}

/// Reading the same rows twice, in whatever order the engine hands them out,
/// gives the same multiset of rendered rows.
pub proof fn lemma_rows_order_free(first: Seq<QueryMessage>, second: Seq<QueryMessage>)
    requires
        cells_of(first).to_multiset() == cells_of(second).to_multiset(),
    ensures
        rows_of(first).to_multiset() == rows_of(second).to_multiset(),
{
    lemma_map_keeps_multiset(
        cells_of(first),
        cells_of(second),
        |r: Seq<Option<Seq<char>>>| row_text(r),
    );
}

/// Mapping two sequences with equal multisets gives equal multisets.
proof fn lemma_map_keeps_multiset<A, B>(s: Seq<A>, t: Seq<A>, f: spec_fn(A) -> B)
    requires
        s.to_multiset() == t.to_multiset(),
    ensures
        s.map_values(f).to_multiset() == t.map_values(f).to_multiset(),
    decreases s.len(),
{
    broadcast use vstd::seq_lib::group_to_multiset_ensures;

    if s.len() == 0 {
        assert(t.len() == 0) by {
            assert(s.to_multiset().len() == s.len());
            assert(t.to_multiset().len() == t.len());
        }
        assert(s.map_values(f) =~= t.map_values(f));
    } else {
        let x = s.last();
        assert(s.to_multiset().count(x) > 0) by {
            assert(s.contains(x)) by {
                assert(s[s.len() - 1] == x);
            }
        }
        assert(t.contains(x));
        let i = choose|i: int| 0 <= i < t.len() && t[i] == x;
        let s0 = s.drop_last();
        let t0 = t.remove(i);
        assert(s.remove(s.len() - 1) =~= s0);
        assert(s0.to_multiset() == t0.to_multiset());
        lemma_map_keeps_multiset(s0, t0, f);
        let fs = s.map_values(f);
        let ft = t.map_values(f);
        assert(fs =~= s0.map_values(f).push(f(x)));
        assert(ft.remove(i) =~= t0.map_values(f));
        assert(ft[i] == f(x));
        assert(ft.to_multiset().count(f(x)) > 0) by {
            assert(ft.contains(f(x)));
        }
        assert(ft.to_multiset() =~= ft.remove(i).to_multiset().insert(f(x)));
    }
}

/// Whether every row has exactly `width` cells.
pub fn is_rectangular(width: usize, rows: &Vec<Vec<String>>) -> (r: bool)
    ensures
        r == rectangular(width as int, table_view(rows@)),
{
    let mut i: usize = 0;
    while i < rows.len()
        invariant
            i <= rows.len(),
            forall|k: int| 0 <= k < i ==> #[trigger] rows@[k]@.len() == width,
        decreases rows.len() - i,
    {
        if rows[i].len() != width {
            assert(table_view(rows@)[i as int].len() != width);
            return false;
        }
        i = i + 1;
    }
    assert(rectangular(width as int, table_view(rows@)));
    true
}

} // verus!
