//! Statement text for the row-persistence helpers.
//!
//! These build the insert, update-by-key and delete-by-keys texts from plain
//! column lists; collecting the columns of a record (and dropping its empty
//! ones) is the caller's part. One positional placeholder is rendered per
//! column named.

use vstd::prelude::*;
use vstd::string::StringExecFns;

use crate::chain::join_seqs;
use crate::wrapper::placeholders;

verus! {

/// `n` placeholders separated by `,` alone: empty, `?`, `?,?`, ...
pub open spec fn marks(n: nat) -> Seq<char>
    decreases n,
{
    if n == 0 {
        Seq::empty()
    } else if n == 1 {
        "?"@
    } else {
        marks((n - 1) as nat) + ",?"@
    }
}

/// The text an insert renders:
/// `INSERT INTO <table> (<k,...>) VALUES (<?,...>)`, one placeholder per
/// column.
pub open spec fn insert_sql_spec(table: Seq<char>, keys: Seq<Seq<char>>) -> Seq<char> {
    "INSERT INTO "@ + table + " ("@ + join_seqs(keys, ","@) + ") VALUES ("@ + marks(keys.len())
        + ")"@
}

/// The text one column contributes to an update-by-key set list: the value
/// is applied only when non-null, else the column keeps its stored value.
pub open spec fn coalesce_item(key: Seq<char>) -> Seq<char> {
    " `"@ + key + "` = COALESCE(?, `"@ + key + "`)"@
}

/// The text an update-by-key renders:
/// `UPDATE <table> SET <coalesce assignments> WHERE `<pk>` = ? LIMIT 1`.
pub open spec fn update_by_key_sql_spec(
    table: Seq<char>,
    primary_key: Seq<char>,
    keys: Seq<Seq<char>>,
) -> Seq<char> {
    "UPDATE "@ + table + " SET"@ + join_seqs(
        keys.map_values(|k: Seq<char>| coalesce_item(k)),
        ","@,
    ) + " WHERE `"@ + primary_key + "` = ? LIMIT 1"@
}

/// The text a delete-by-keys renders:
/// ``DELETE FROM <table> WHERE `<key>` IN (?, ...)``, one placeholder per
/// key value.
pub open spec fn delete_in_sql_spec(table: Seq<char>, key: Seq<char>, n: nat) -> Seq<char> {
    "DELETE FROM "@ + table + " WHERE `"@ + key + "` IN ("@ + placeholders(n) + ")"@
}

/// Builds the insert text for the given table and column list.
pub fn insert_sql(table: &str, keys: &Vec<String>) -> (r: String)
    ensures
        r@ == insert_sql_spec(table@, keys.deep_view()),
{
    let mut sql = String::from_str("INSERT INTO ");
    sql.append(table);
    sql.append(" (");
    let t = join_with_comma(keys);
    sql.append(t.as_str());
    sql.append(") VALUES (");
    let n = keys.len();
    let mut i: usize = 0;
    let ghost mid = sql@;
    while i < n
        invariant
            i <= n,
            sql@ == mid + marks(i as nat),
        decreases n - i,
    {
        if i == 0 {
            sql.append("?");
        } else {
            sql.append(",?");
        }
        proof {
            assert(sql@ =~= mid + marks((i + 1) as nat));
        }
        i += 1;
    }
    sql.append(")");
    proof {
        assert(sql@ =~= insert_sql_spec(table@, keys.deep_view()));
    }
    sql
}

/// Builds the update-by-key text for the given table, primary key and
/// column list; the caller leaves the primary key out of the column list.
pub fn update_by_key_sql(table: &str, primary_key: &str, keys: &Vec<String>) -> (r: String)
    ensures
        r@ == update_by_key_sql_spec(table@, primary_key@, keys.deep_view()),
{
    let mut sql = String::from_str("UPDATE ");
    sql.append(table);
    sql.append(" SET");
    let items = coalesce_items(keys);
    let t = join_with_comma(&items);
    sql.append(t.as_str());
    sql.append(" WHERE `");
    sql.append(primary_key);
    sql.append("` = ? LIMIT 1");
    proof {
        assert(sql@ =~= update_by_key_sql_spec(table@, primary_key@, keys.deep_view()));
    }
    sql
}

/// Builds the delete-by-keys text for the given table and key, with `n`
/// placeholders.
pub fn delete_in_sql(table: &str, key: &str, n: usize) -> (r: String)
    ensures
        r@ == delete_in_sql_spec(table@, key@, n as nat),
{
    let mut sql = String::from_str("DELETE FROM ");
    sql.append(table);
    sql.append(" WHERE `");
    sql.append(key);
    sql.append("` IN (");
    let mut i: usize = 0;
    let ghost mid = sql@;
    while i < n
        invariant
            i <= n,
            sql@ == mid + placeholders(i as nat),
        decreases n - i,
    {
        if i == 0 {
            sql.append("?");
        } else {
            sql.append(", ?");
        }
        proof {
            assert(sql@ =~= mid + placeholders((i + 1) as nat));
        }
        i += 1;
    }
    sql.append(")");
    proof {
        assert(sql@ =~= delete_in_sql_spec(table@, key@, n as nat));
    }
    sql
}

/// Joins the items with `,` alone between each two.
fn join_with_comma(items: &Vec<String>) -> (r: String)
    ensures
        r@ == join_seqs(items.deep_view(), ","@),
{
    let mut out = String::new();
    let mut i: usize = 0;
    while i < items.len()
        invariant
            i <= items@.len(),
            out@ == join_seqs(items.deep_view().take(i as int), ","@),
        decreases items@.len() - i,
    {
        if i > 0 {
            out.append(",");
        }
        out.append(items[i].as_str());
        proof {
            let dv = items.deep_view();
            assert(dv.take(i + 1).drop_last() =~= dv.take(i as int));
            assert(dv.take(i + 1).last() == dv[i as int]);
            if i == 0 {
                assert(out@ =~= join_seqs(dv.take(1), ","@));
            } else {
                assert(out@ =~= join_seqs(dv.take(i + 1), ","@));
            }
        }
        i += 1;
    }
    proof {
        assert(items.deep_view().take(items@.len() as int) =~= items.deep_view());
    }
    out
}

/// Renders the update set list as texts, one assignment per column.
fn coalesce_items(keys: &Vec<String>) -> (r: Vec<String>)
    ensures
        r.deep_view() == keys.deep_view().map_values(|k: Seq<char>| coalesce_item(k)),
{
    let mut out: Vec<String> = Vec::new();
    let mut i: usize = 0;
    while i < keys.len()
        invariant
            i <= keys@.len(),
            out.deep_view().len() == i,
            forall|j: int|
                0 <= j < i ==> out.deep_view()[j] == coalesce_item(keys.deep_view()[j]),
        decreases keys@.len() - i,
    {
        let mut t = String::from_str(" `");
        t.append(keys[i].as_str());
        t.append("` = COALESCE(?, `");
        t.append(keys[i].as_str());
        t.append("`)");
        let ghost prev = out@;
        let ghost prev_dv = out.deep_view();
        out.push(t);
        proof {
            assert forall|j: int| 0 <= j < i + 1 implies out.deep_view()[j] == coalesce_item(
                keys.deep_view()[j],
            ) by {
                if j < i {
                    assert(out@[j] == prev[j]);
                    assert(prev_dv[j] == prev[j].deep_view());
                } else {
                    assert(out.deep_view()[j] =~= coalesce_item(keys.deep_view()[j]));
                }
            }
        }
        i += 1;
    }
    proof {
        assert(out.deep_view() =~= keys.deep_view().map_values(|k: Seq<char>| coalesce_item(k)));
    }
    out
}

} // verus!
