//! `tt films`: what it prints of a films list. Fetching the page belongs
//! to the program.

use vstd::prelude::*;

use crate::maoyan::pair_views;
use crate::text::{append_str, owned, pad_right, padded, views_of};

verus! {

/// The name of films list `show_type`.
pub open spec fn films_label_s(show_type: u8) -> Seq<char> {
    if show_type == 1 {
        "热映"@
    } else if show_type == 2 {
        "即将上映"@
    } else if show_type == 3 {
        "经典"@
    } else {
        "未知"@
    }
}

fn films_label(show_type: u8) -> (r: &'static str)
    ensures
        r@ == films_label_s(show_type),
{
    match show_type {
        1 => "热映",
        2 => "即将上映",
        3 => "经典",
        _ => "未知",
    }
}

/// The line printed before the list is fetched.
pub fn films_heading(show_type: u8) -> (r: String)
    ensures
        r@ == "→ 拉取「"@ + films_label_s(show_type) + "」列表…"@,
{
    let mut t = owned("→ 拉取「");
    append_str(&mut t, films_label(show_type));
    append_str(&mut t, "」列表…");
    t
}

/// A row of the table: the id in a column of ten, then the name.
pub open spec fn film_row(id: Seq<char>, name: Seq<char>) -> Seq<char> {
    padded(id, 10) + " "@ + name
}

/// The table of films: a heading row, then one row per film in order.
pub open spec fn films_table_s(pairs: Seq<(Seq<char>, Seq<char>)>) -> Seq<Seq<char>> {
    seq![film_row("ID"@, "NAME"@)] + pairs.map_values(|p: (Seq<char>, Seq<char>)| film_row(p.0, p.1))
}

fn row(id: &str, name: &str) -> (r: String)
    ensures
        r@ == film_row(id@, name@),
{
    let mut t = pad_right(id, 10);
    append_str(&mut t, " ");
    append_str(&mut t, name);
    t
}

/// The table printed for the films `pairs` (id, name).
pub fn films_table(pairs: &[(String, String)]) -> (r: Vec<String>)
    ensures
        views_of(r@) == films_table_s(pair_views(pairs@)),
{
    let mut out: Vec<String> = Vec::new();
    out.push(row("ID", "NAME"));
    let ghost rows = pair_views(pairs@).map_values(|p: (Seq<char>, Seq<char>)| film_row(p.0, p.1));
    let mut i: usize = 0;
    while i < pairs.len()
        invariant
            i <= pairs@.len(),
            rows == pair_views(pairs@).map_values(|p: (Seq<char>, Seq<char>)| film_row(p.0, p.1)),
            views_of(out@) == seq![film_row("ID"@, "NAME"@)] + rows.take(i as int),
        decreases pairs.len() - i,
    {
        let ghost before = out@;
        let line = row(pairs[i].0.as_str(), pairs[i].1.as_str());
        out.push(line);
        proof {
            let a = views_of(out@);
            let b = seq![film_row("ID"@, "NAME"@)] + rows.take(i + 1);
            assert(views_of(before).len() == before.len());
            assert(a.len() == b.len());
            assert forall|j: int| 0 <= j < a.len() implies a[j] == b[j] by {
                if j < before.len() {
                    assert(a[j] == views_of(before)[j]);
                } else {
                    assert(pair_views(pairs@)[i as int] == (pairs@[i as int].0@, pairs@[i as int].1@));
                }
            }
            assert(a =~= b);
        }
        i = i + 1;
    }
    assert(rows.take(pairs@.len() as int) =~= rows);
    out
}

} // verus!
