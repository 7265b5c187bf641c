//! The stated laws of the rendering engine.
//!
//! These proof functions state, over the same specification functions the
//! executable contracts use, the properties the engine promises of every
//! builder: rendered group markers balance; placeholders match bound values
//! one for one; a sub-build that appends nothing leaves no trace; a pending
//! disjunction marker renders nothing; and rendering is a pure function of
//! the builder.

use vstd::prelude::*;

use crate::bracket::{count_at, sum_counts};
use crate::chain::{
    DeleteWrapperV, OrderV, QueryWrapperV, UpdateWrapperV, delete_sql_spec, fields_text,
    join_seqs, opt_comment, opt_first, opt_last, order_item, order_text, query_sql_spec,
    set_item, update_sql_spec,
};
use crate::value::SqlValueV;
use crate::wrapper::{
    Relationship, WhereV, WrapperV, arity_ok, clause_item, clause_prefix, connective,
    flat_values, group_fixup, op_suffix, placeholders, rel_str, repeat_char, sum_from,
    where_clause_spec, where_text,
};

verus! {

/// How many times `c` occurs in `s`.
pub open spec fn count_char(s: Seq<char>, c: char) -> nat
    decreases s.len(),
{
    if s.len() == 0 {
        0
    } else {
        count_char(s.drop_last(), c) + if s.last() == c {
            1nat
        } else {
            0nat
        }
    }
}

/// Whether the operator renders a parenthesized placeholder list.
pub open spec fn is_membership(rel: Relationship) -> bool {
    rel == Relationship::In || rel == Relationship::NotIn
}

/// The group-open markers recorded before position `i`, positions 1 on.
pub open spec fn counts_before(s: Seq<usize>, i: int) -> nat
    decreases i,
{
    if i <= 1 {
        0
    } else {
        counts_before(s, i - 1) + count_at(s, i - 1) as nat
    }
}

/// How many of the first `i` predicates render a parenthesized list.
pub open spec fn ins_upto(ws: Seq<WhereV>, i: int) -> nat
    decreases i,
{
    if i <= 0 {
        0
    } else {
        ins_upto(ws, i - 1) + if is_membership(ws[i - 1].relationship) {
            1nat
        } else {
            0nat
        }
    }
}

/// How many values the first `i` predicates carry in all.
pub open spec fn vals_upto(ws: Seq<WhereV>, i: int) -> nat
    decreases i,
{
    if i <= 0 {
        0
    } else {
        vals_upto(ws, i - 1) + ws[i - 1].values.len()
    }
}

/// Occurrence counts add over concatenation.
pub proof fn lemma_count_concat(a: Seq<char>, b: Seq<char>, c: char)
    ensures
        count_char(a + b, c) == count_char(a, c) + count_char(b, c),
    decreases b.len(),
{
    if b.len() == 0 {
        assert(a + b =~= a);
    } else {
        lemma_count_concat(a, b.drop_last(), c);
        assert((a + b).drop_last() =~= a + b.drop_last());
        assert((a + b).last() == b.last());
    }
}

/// Occurrence counts add over a concatenation of four parts.
proof fn lemma_count_concat4(a: Seq<char>, b: Seq<char>, d: Seq<char>, e: Seq<char>, c: char)
    ensures
        count_char(a + b + d + e, c) == count_char(a, c) + count_char(b, c) + count_char(d, c)
            + count_char(e, c),
{
    lemma_count_concat(a, b, c);
    lemma_count_concat(a + b, d, c);
    lemma_count_concat(a + b + d, e, c);
}

/// A sequence without `c` counts zero occurrences of it.
pub proof fn lemma_count_zero(s: Seq<char>, c: char)
    requires
        forall|i: int| 0 <= i < s.len() ==> s[i] != c,
    ensures
        count_char(s, c) == 0,
    decreases s.len(),
{
    if s.len() > 0 {
        lemma_count_zero(s.drop_last(), c);
    }
}

/// A sequence with `c` at exactly one position counts one occurrence.
pub proof fn lemma_count_single(s: Seq<char>, c: char, k: int)
    requires
        0 <= k < s.len(),
        s[k] == c,
        forall|i: int| 0 <= i < s.len() && i != k ==> s[i] != c,
    ensures
        count_char(s, c) == 1,
    decreases s.len(),
{
    if k == s.len() - 1 {
        lemma_count_zero(s.drop_last(), c);
    } else {
        lemma_count_single(s.drop_last(), c, k);
    }
}

/// A sequence with `c` at exactly two positions counts two occurrences.
pub proof fn lemma_count_double(s: Seq<char>, c: char, k1: int, k2: int)
    requires
        0 <= k1 < k2 < s.len(),
        s[k1] == c,
        s[k2] == c,
        forall|i: int| 0 <= i < s.len() && i != k1 && i != k2 ==> s[i] != c,
    ensures
        count_char(s, c) == 2,
    decreases s.len(),
{
    if k2 == s.len() - 1 {
        lemma_count_single(s.drop_last(), c, k1);
    } else {
        lemma_count_double(s.drop_last(), c, k1, k2);
    }
}

/// A repetition of `c` counts its length for `c` and nothing for any other
/// character.
pub proof fn lemma_count_repeat(c: char, n: nat, d: char)
    ensures
        count_char(repeat_char(c, n), d) == if c == d {
            n
        } else {
            0nat
        },
    decreases n,
{
    if n > 0 {
        lemma_count_repeat(c, (n - 1) as nat, d);
        assert(repeat_char(c, n).drop_last() =~= repeat_char(c, (n - 1) as nat));
        assert(repeat_char(c, n).last() == c);
    }
}

/// A sequence free of group markers and placeholders counts zero of each.
proof fn lemma_count_plain(s: Seq<char>)
    requires
        forall|i: int| 0 <= i < s.len() ==> s[i] != '(' && s[i] != ')' && s[i] != '?',
    ensures
        count_char(s, '(') == 0,
        count_char(s, ')') == 0,
        count_char(s, '?') == 0,
{
    lemma_count_zero(s, '(');
    lemma_count_zero(s, ')');
    lemma_count_zero(s, '?');
}

/// The operator text holds no group marker and no placeholder.
proof fn lemma_rel_str_plain(rel: Relationship)
    ensures
        count_char(rel_str(rel), '(') == 0,
        count_char(rel_str(rel), ')') == 0,
        count_char(rel_str(rel), '?') == 0,
{
    match rel {
        Relationship::Eq => {
            reveal_strlit("=");
            assert forall|i: int| 0 <= i < "="@.len() implies "="@[i] != '(' && "="@[i] != ')'
                && "="@[i] != '?' by {}
            lemma_count_plain("="@);
        },
        Relationship::Ne => {
            reveal_strlit("<>");
            assert forall|i: int| 0 <= i < "<>"@.len() implies "<>"@[i] != '(' && "<>"@[i] != ')'
                && "<>"@[i] != '?' by {}
            lemma_count_plain("<>"@);
        },
        Relationship::Gt => {
            reveal_strlit(">");
            assert forall|i: int| 0 <= i < ">"@.len() implies ">"@[i] != '(' && ">"@[i] != ')'
                && ">"@[i] != '?' by {}
            lemma_count_plain(">"@);
        },
        Relationship::Ge => {
            reveal_strlit(">=");
            assert forall|i: int| 0 <= i < ">="@.len() implies ">="@[i] != '(' && ">="@[i] != ')'
                && ">="@[i] != '?' by {}
            lemma_count_plain(">="@);
        },
        Relationship::Lt => {
            reveal_strlit("<");
            assert forall|i: int| 0 <= i < "<"@.len() implies "<"@[i] != '(' && "<"@[i] != ')'
                && "<"@[i] != '?' by {}
            lemma_count_plain("<"@);
        },
        Relationship::Le => {
            reveal_strlit("<=");
            assert forall|i: int| 0 <= i < "<="@.len() implies "<="@[i] != '(' && "<="@[i] != ')'
                && "<="@[i] != '?' by {}
            lemma_count_plain("<="@);
        },
        Relationship::Between => {
            reveal_strlit("BETWEEN");
            assert forall|i: int| 0 <= i < "BETWEEN"@.len() implies "BETWEEN"@[i] != '('
                && "BETWEEN"@[i] != ')' && "BETWEEN"@[i] != '?' by {}
            lemma_count_plain("BETWEEN"@);
        },
        Relationship::NotBetween => {
            reveal_strlit("NOT BETWEEN");
            assert forall|i: int| 0 <= i < "NOT BETWEEN"@.len() implies "NOT BETWEEN"@[i] != '('
                && "NOT BETWEEN"@[i] != ')' && "NOT BETWEEN"@[i] != '?' by {}
            lemma_count_plain("NOT BETWEEN"@);
        },
        Relationship::Like | Relationship::LikeLeft | Relationship::LikeRight => {
            reveal_strlit("LIKE");
            assert forall|i: int| 0 <= i < "LIKE"@.len() implies "LIKE"@[i] != '(' && "LIKE"@[i]
                != ')' && "LIKE"@[i] != '?' by {}
            lemma_count_plain("LIKE"@);
        },
        Relationship::NotLike => {
            reveal_strlit("NOT LIKE");
            assert forall|i: int| 0 <= i < "NOT LIKE"@.len() implies "NOT LIKE"@[i] != '('
                && "NOT LIKE"@[i] != ')' && "NOT LIKE"@[i] != '?' by {}
            lemma_count_plain("NOT LIKE"@);
        },
        Relationship::In => {
            reveal_strlit("IN");
            assert forall|i: int| 0 <= i < "IN"@.len() implies "IN"@[i] != '(' && "IN"@[i] != ')'
                && "IN"@[i] != '?' by {}
            lemma_count_plain("IN"@);
        },
        Relationship::NotIn => {
            reveal_strlit("NOT IN");
            assert forall|i: int| 0 <= i < "NOT IN"@.len() implies "NOT IN"@[i] != '('
                && "NOT IN"@[i] != ')' && "NOT IN"@[i] != '?' by {}
            lemma_count_plain("NOT IN"@);
        },
        Relationship::IsNull => {
            reveal_strlit("IS NULL");
            assert forall|i: int| 0 <= i < "IS NULL"@.len() implies "IS NULL"@[i] != '('
                && "IS NULL"@[i] != ')' && "IS NULL"@[i] != '?' by {}
            lemma_count_plain("IS NULL"@);
        },
        Relationship::IsNotNull => {
            reveal_strlit("IS NOT NULL");
            assert forall|i: int| 0 <= i < "IS NOT NULL"@.len() implies "IS NOT NULL"@[i] != '('
                && "IS NOT NULL"@[i] != ')' && "IS NOT NULL"@[i] != '?' by {}
            lemma_count_plain("IS NOT NULL"@);
        },
    }
}

/// The connective holds no group marker and no placeholder.
proof fn lemma_connective_plain(is_or: bool)
    ensures
        count_char(connective(is_or), '(') == 0,
        count_char(connective(is_or), ')') == 0,
        count_char(connective(is_or), '?') == 0,
{
    if is_or {
        reveal_strlit(" OR ");
        assert forall|i: int| 0 <= i < " OR "@.len() implies " OR "@[i] != '(' && " OR "@[i] != ')'
            && " OR "@[i] != '?' by {}
        lemma_count_plain(" OR "@);
    } else {
        reveal_strlit(" AND ");
        assert forall|i: int| 0 <= i < " AND "@.len() implies " AND "@[i] != '(' && " AND "@[i]
            != ')' && " AND "@[i] != '?' by {}
        lemma_count_plain(" AND "@);
    }
}

/// A placeholder list counts one `?` per placeholder and no group markers.
proof fn lemma_placeholders_counts(n: nat)
    ensures
        count_char(placeholders(n), '?') == n,
        count_char(placeholders(n), '(') == 0,
        count_char(placeholders(n), ')') == 0,
    decreases n,
{
    if n == 0 {
    } else if n == 1 {
        reveal_strlit("?");
        assert("?"@[0] == '?');
        lemma_count_single("?"@, '?', 0);
        assert forall|i: int| 0 <= i < "?"@.len() implies "?"@[i] != '(' && "?"@[i] != ')' by {}
        lemma_count_zero("?"@, '(');
        lemma_count_zero("?"@, ')');
    } else {
        lemma_placeholders_counts((n - 1) as nat);
        reveal_strlit(", ?");
        assert(", ?"@[2] == '?');
        lemma_count_single(", ?"@, '?', 2);
        assert forall|i: int| 0 <= i < ", ?"@.len() implies ", ?"@[i] != '(' && ", ?"@[i] != ')'
            by {}
        lemma_count_zero(", ?"@, '(');
        lemma_count_zero(", ?"@, ')');
        lemma_count_concat(placeholders((n - 1) as nat), ", ?"@, '?');
        lemma_count_concat(placeholders((n - 1) as nat), ", ?"@, '(');
        lemma_count_concat(placeholders((n - 1) as nat), ", ?"@, ')');
    }
}

/// The placeholder suffix opens and closes one group exactly for the
/// membership operators, and counts one `?` per placeholder it renders.
proof fn lemma_op_suffix_counts(rel: Relationship, n: nat)
    ensures
        count_char(op_suffix(rel, n), '(') == if is_membership(rel) {
            1nat
        } else {
            0nat
        },
        count_char(op_suffix(rel, n), ')') == if is_membership(rel) {
            1nat
        } else {
            0nat
        },
        count_char(op_suffix(rel, n), '?') == suffix_qmarks(rel, n),
{
    match rel {
        Relationship::Between | Relationship::NotBetween => {
            reveal_strlit(" ? AND ?");
            assert(" ? AND ?"@[1] == '?');
            assert(" ? AND ?"@[7] == '?');
            lemma_count_double(" ? AND ?"@, '?', 1, 7);
            assert forall|i: int| 0 <= i < " ? AND ?"@.len() implies " ? AND ?"@[i] != '('
                && " ? AND ?"@[i] != ')' by {}
            lemma_count_zero(" ? AND ?"@, '(');
            lemma_count_zero(" ? AND ?"@, ')');
        },
        Relationship::In | Relationship::NotIn => {
            reveal_strlit(" (");
            reveal_strlit(")");
            assert(" ("@[1] == '(');
            lemma_count_single(" ("@, '(', 1);
            assert forall|i: int| 0 <= i < " ("@.len() implies " ("@[i] != ')' && " ("@[i] != '?'
                by {}
            lemma_count_zero(" ("@, ')');
            lemma_count_zero(" ("@, '?');
            assert(")"@[0] == ')');
            lemma_count_single(")"@, ')', 0);
            assert forall|i: int| 0 <= i < ")"@.len() implies ")"@[i] != '(' && ")"@[i] != '?'
                by {}
            lemma_count_zero(")"@, '(');
            lemma_count_zero(")"@, '?');
            lemma_placeholders_counts(n);
            lemma_count_concat(" ("@, placeholders(n), '(');
            lemma_count_concat(" ("@ + placeholders(n), ")"@, '(');
            lemma_count_concat(" ("@, placeholders(n), ')');
            lemma_count_concat(" ("@ + placeholders(n), ")"@, ')');
            lemma_count_concat(" ("@, placeholders(n), '?');
            lemma_count_concat(" ("@ + placeholders(n), ")"@, '?');
        },
        Relationship::IsNull | Relationship::IsNotNull => {},
        _ => {
            reveal_strlit(" ?");
            assert(" ?"@[1] == '?');
            lemma_count_single(" ?"@, '?', 1);
            assert forall|i: int| 0 <= i < " ?"@.len() implies " ?"@[i] != '(' && " ?"@[i] != ')'
                by {}
            lemma_count_zero(" ?"@, '(');
            lemma_count_zero(" ?"@, ')');
        },
    }
}

/// How many placeholders the suffix of an operator renders.
pub open spec fn suffix_qmarks(rel: Relationship, n: nat) -> nat {
    match rel {
        Relationship::Between | Relationship::NotBetween => 2,
        Relationship::In | Relationship::NotIn => n,
        Relationship::IsNull | Relationship::IsNotNull => 0,
        _ => 1,
    }
}

/// One predicate's text opens and closes one group exactly for the
/// membership operators, provided the field itself holds no group marker.
proof fn lemma_where_text_parens(w: WhereV)
    requires
        count_char(w.field, '(') == 0,
        count_char(w.field, ')') == 0,
    ensures
        count_char(where_text(w), '(') == if is_membership(w.relationship) {
            1nat
        } else {
            0nat
        },
        count_char(where_text(w), ')') == if is_membership(w.relationship) {
            1nat
        } else {
            0nat
        },
{
    reveal_strlit(" ");
    assert forall|i: int| 0 <= i < " "@.len() implies " "@[i] != '(' && " "@[i] != ')' && " "@[i]
        != '?' by {}
    lemma_count_plain(" "@);
    lemma_rel_str_plain(w.relationship);
    lemma_op_suffix_counts(w.relationship, w.values.len());
    lemma_count_concat4(
        w.field,
        " "@,
        rel_str(w.relationship),
        op_suffix(w.relationship, w.values.len()),
        '(',
    );
    lemma_count_concat4(
        w.field,
        " "@,
        rel_str(w.relationship),
        op_suffix(w.relationship, w.values.len()),
        ')',
    );
}

/// One predicate's text counts one placeholder per placeholder its operator
/// renders, provided the field itself holds none.
proof fn lemma_where_text_qmarks(w: WhereV)
    requires
        count_char(w.field, '?') == 0,
    ensures
        count_char(where_text(w), '?') == suffix_qmarks(w.relationship, w.values.len()),
{
    reveal_strlit(" ");
    assert forall|i: int| 0 <= i < " "@.len() implies " "@[i] != '(' && " "@[i] != ')' && " "@[i]
        != '?' by {}
    lemma_count_plain(" "@);
    lemma_rel_str_plain(w.relationship);
    lemma_op_suffix_counts(w.relationship, w.values.len());
    lemma_count_concat4(
        w.field,
        " "@,
        rel_str(w.relationship),
        op_suffix(w.relationship, w.values.len()),
        '?',
    );
}

/// One clause item's group markers: those recorded at its position, plus
/// the group its own operator renders.
proof fn lemma_clause_item_parens(v: WrapperV, i: int)
    requires
        0 <= i < v.wheres.len(),
        count_char(v.wheres[i].field, '(') == 0,
        count_char(v.wheres[i].field, ')') == 0,
    ensures
        count_char(clause_item(v, i), '(') == count_at(v.left, i) + if is_membership(
            v.wheres[i].relationship,
        ) {
            1nat
        } else {
            0nat
        },
        count_char(clause_item(v, i), ')') == count_at(v.right, i) + if is_membership(
            v.wheres[i].relationship,
        ) {
            1nat
        } else {
            0nat
        },
{
    let closes = repeat_char(')', count_at(v.right, i) as nat);
    let conn = connective(v.or_index[i]);
    let opens = repeat_char('(', count_at(v.left, i) as nat);
    let text = where_text(v.wheres[i]);
    lemma_count_repeat(')', count_at(v.right, i) as nat, '(');
    lemma_count_repeat(')', count_at(v.right, i) as nat, ')');
    lemma_count_repeat('(', count_at(v.left, i) as nat, '(');
    lemma_count_repeat('(', count_at(v.left, i) as nat, ')');
    lemma_connective_plain(v.or_index[i]);
    lemma_where_text_parens(v.wheres[i]);
    lemma_count_concat4(closes, conn, opens, text, '(');
    lemma_count_concat4(closes, conn, opens, text, ')');
}

/// One clause item's placeholders: when the item's value count fits its
/// operator, one per value.
proof fn lemma_clause_item_qmarks(v: WrapperV, i: int)
    requires
        0 <= i < v.wheres.len(),
        count_char(v.wheres[i].field, '?') == 0,
        arity_ok(v.wheres[i].relationship, v.wheres[i].values.len()),
    ensures
        count_char(clause_item(v, i), '?') == v.wheres[i].values.len(),
{
    let closes = repeat_char(')', count_at(v.right, i) as nat);
    let conn = connective(v.or_index[i]);
    let opens = repeat_char('(', count_at(v.left, i) as nat);
    let text = where_text(v.wheres[i]);
    lemma_count_repeat(')', count_at(v.right, i) as nat, '?');
    lemma_count_repeat('(', count_at(v.left, i) as nat, '?');
    lemma_connective_plain(v.or_index[i]);
    lemma_where_text_qmarks(v.wheres[i]);
    lemma_count_concat4(closes, conn, opens, text, '?');
}

/// The clause through predicate `i - 1` opens and closes: every group marker
/// recorded at positions 1 through `i - 1`, plus one of each per membership
/// predicate.
proof fn lemma_clause_prefix_parens(v: WrapperV, i: int)
    requires
        1 <= i <= v.wheres.len(),
        forall|j: int|
            0 <= j < v.wheres.len() ==> count_char((#[trigger] v.wheres[j]).field, '(') == 0
                && count_char(v.wheres[j].field, ')') == 0,
    ensures
        count_char(clause_prefix(v, i), '(') == counts_before(v.left, i) + ins_upto(v.wheres, i),
        count_char(clause_prefix(v, i), ')') == counts_before(v.right, i) + ins_upto(v.wheres, i),
    decreases i,
{
    if i == 1 {
        reveal_strlit(" WHERE ");
        assert forall|k: int| 0 <= k < " WHERE "@.len() implies " WHERE "@[k] != '('
            && " WHERE "@[k] != ')' && " WHERE "@[k] != '?' by {}
        lemma_count_plain(" WHERE "@);
        lemma_where_text_parens(v.wheres[0]);
        lemma_count_concat(" WHERE "@, where_text(v.wheres[0]), '(');
        lemma_count_concat(" WHERE "@, where_text(v.wheres[0]), ')');
        assert(counts_before(v.left, 1) == 0);
        assert(counts_before(v.right, 1) == 0);
        assert(ins_upto(v.wheres, 0) == 0);
        assert(ins_upto(v.wheres, 1) == if is_membership(v.wheres[0].relationship) {
            1nat
        } else {
            0nat
        });
    } else {
        lemma_clause_prefix_parens(v, i - 1);
        lemma_clause_item_parens(v, i - 1);
        lemma_count_concat(clause_prefix(v, i - 1), clause_item(v, i - 1), '(');
        lemma_count_concat(clause_prefix(v, i - 1), clause_item(v, i - 1), ')');
    }
}

/// The clause through predicate `i - 1` holds one placeholder per value its
/// predicates carry, when each predicate's value count fits its operator.
proof fn lemma_clause_prefix_qmarks(v: WrapperV, i: int)
    requires
        1 <= i <= v.wheres.len(),
        forall|j: int|
            0 <= j < v.wheres.len() ==> count_char((#[trigger] v.wheres[j]).field, '?') == 0,
        forall|j: int|
            0 <= j < v.wheres.len() ==> arity_ok(
                (#[trigger] v.wheres[j]).relationship,
                v.wheres[j].values.len(),
            ),
    ensures
        count_char(clause_prefix(v, i), '?') == vals_upto(v.wheres, i),
    decreases i,
{
    if i == 1 {
        reveal_strlit(" WHERE ");
        assert forall|k: int| 0 <= k < " WHERE "@.len() implies " WHERE "@[k] != '('
            && " WHERE "@[k] != ')' && " WHERE "@[k] != '?' by {}
        lemma_count_plain(" WHERE "@);
        lemma_where_text_qmarks(v.wheres[0]);
        lemma_count_concat(" WHERE "@, where_text(v.wheres[0]), '?');
        assert(vals_upto(v.wheres, 0) == 0);
        assert(vals_upto(v.wheres, 1) == v.wheres[0].values.len());
    } else {
        lemma_clause_prefix_qmarks(v, i - 1);
        lemma_clause_item_qmarks(v, i - 1);
        lemma_count_concat(clause_prefix(v, i - 1), clause_item(v, i - 1), '?');
    }
}

/// Dropping the last count leaves the suffix total short by exactly it.
proof fn lemma_sum_from_drop(s: Seq<usize>, i: int)
    requires
        0 <= i < s.len(),
    ensures
        sum_from(s, i) == sum_from(s.drop_last(), i) + s.last(),
    decreases s.len() - i,
{
    if i == s.len() - 1 {
        assert(sum_from(s, i + 1) == 0);
        assert(sum_from(s.drop_last(), i) == 0);
    } else {
        lemma_sum_from_drop(s, i + 1);
        assert(s.drop_last()[i] == s[i]);
    }
}

/// The suffix total from position zero is the whole total.
proof fn lemma_sum_from_zero(s: Seq<usize>)
    ensures
        sum_from(s, 0) == sum_counts(s),
    decreases s.len(),
{
    if s.len() > 0 {
        lemma_sum_from_zero(s.drop_last());
        lemma_sum_from_drop(s, 0);
    }
}

/// The whole total splits into the count at position zero and the suffix
/// total from position one.
proof fn lemma_sum_tail(s: Seq<usize>)
    ensures
        sum_counts(s) == count_at(s, 0) + sum_from(s, 1),
{
    lemma_sum_from_zero(s);
    if s.len() > 0 {
        assert(sum_from(s, 0) == s[0] + sum_from(s, 1));
    } else {
        assert(sum_from(s, 1) == 0);
    }
}

/// The counts before position `i` and the counts from position `i` on make
/// up all the counts from position one on.
proof fn lemma_counts_split(s: Seq<usize>, i: int)
    requires
        1 <= i,
    ensures
        counts_before(s, i) + sum_from(s, i) == sum_from(s, 1),
    decreases i,
{
    if i > 1 {
        lemma_counts_split(s, i - 1);
        if 0 <= i - 1 < s.len() {
            assert(sum_from(s, i - 1) == s[i - 1] + sum_from(s, i));
        } else {
            assert(sum_from(s, i - 1) == 0);
            assert(sum_from(s, i) == 0);
            assert(count_at(s, i - 1) == 0);
        }
    }
}

/// Earlier prefixes of the predicate list count values the same way.
proof fn lemma_vals_upto_drop(ws: Seq<WhereV>, i: int)
    requires
        0 <= i <= ws.len() - 1,
    ensures
        vals_upto(ws.drop_last(), i) == vals_upto(ws, i),
    decreases i,
{
    if i > 0 {
        lemma_vals_upto_drop(ws, i - 1);
        assert(ws.drop_last()[i - 1] == ws[i - 1]);
    }
}

/// The flattened value list carries one value per value carried by the
/// predicates.
pub proof fn lemma_flat_values_len(ws: Seq<WhereV>)
    ensures
        flat_values(ws).len() == vals_upto(ws, ws.len() as int),
    decreases ws.len(),
{
    if ws.len() > 0 {
        lemma_flat_values_len(ws.drop_last());
        lemma_vals_upto_drop(ws, ws.len() - 1);
    }
}

/// LAW — bracket balance: for every well-formed builder whose field names
/// hold no group-marker characters of their own, the rendered clause opens
/// exactly as many groups as it closes.
pub proof fn lemma_where_clause_brackets_balanced(v: WrapperV)
    requires
        v.wf(),
        forall|j: int|
            0 <= j < v.wheres.len() ==> count_char((#[trigger] v.wheres[j]).field, '(') == 0
                && count_char(v.wheres[j].field, ')') == 0,
    ensures
        count_char(where_clause_spec(v), '(') == count_char(where_clause_spec(v), ')'),
{
    if v.wheres.len() == 0 {
    } else {
        let len = v.wheres.len() as int;
        let trailing = sum_from(v.right, len);
        lemma_clause_prefix_parens(v, len);
        lemma_count_repeat(')', trailing, '(');
        lemma_count_repeat(')', trailing, ')');
        lemma_count_concat(clause_prefix(v, len), repeat_char(')', trailing), '(');
        lemma_count_concat(clause_prefix(v, len), repeat_char(')', trailing), ')');
        lemma_counts_split(v.left, len);
        lemma_counts_split(v.right, len);
        assert(sum_from(v.left, len) == 0);
        lemma_sum_tail(v.left);
        lemma_sum_tail(v.right);
    }
}

/// LAW — binding order: for every well-formed builder whose field names hold
/// no placeholder character of their own, the rendered clause holds exactly
/// one `?` per bound value; since both the text and the value list walk the
/// predicates in the same order, value `k` of [`flat_values`] belongs to
/// placeholder `k` of the text.
pub proof fn lemma_placeholders_match_values(v: WrapperV)
    requires
        v.wf(),
        forall|j: int|
            0 <= j < v.wheres.len() ==> count_char((#[trigger] v.wheres[j]).field, '?') == 0,
    ensures
        count_char(where_clause_spec(v), '?') == flat_values(v.wheres).len(),
{
    lemma_flat_values_len(v.wheres);
    if v.wheres.len() == 0 {
    } else {
        let len = v.wheres.len() as int;
        let trailing = sum_from(v.right, len);
        lemma_clause_prefix_qmarks(v, len);
        lemma_count_repeat(')', trailing, '?');
        lemma_count_concat(clause_prefix(v, len), repeat_char(')', trailing), '?');
    }
}

/// A joined list whose items and separator are all free of `c` counts zero
/// occurrences of it.
proof fn lemma_join_count_zero(items: Seq<Seq<char>>, sep: Seq<char>, c: char)
    requires
        count_char(sep, c) == 0,
        forall|j: int| 0 <= j < items.len() ==> count_char(#[trigger] items[j], c) == 0,
    ensures
        count_char(join_seqs(items, sep), c) == 0,
    decreases items.len(),
{
    if items.len() <= 1 {
    } else {
        assert forall|j: int| 0 <= j < items.drop_last().len() implies count_char(
            #[trigger] items.drop_last()[j],
            c,
        ) == 0 by {
            assert(items.drop_last()[j] == items[j]);
        }
        lemma_join_count_zero(items.drop_last(), sep, c);
        lemma_count_concat(join_seqs(items.drop_last(), sep), sep, c);
        lemma_count_concat(join_seqs(items.drop_last(), sep) + sep, items.last(), c);
    }
}

/// A joined list whose items each hold `c` once, with a separator free of
/// it, counts one occurrence per item.
proof fn lemma_join_count_one(items: Seq<Seq<char>>, sep: Seq<char>, c: char)
    requires
        count_char(sep, c) == 0,
        forall|j: int| 0 <= j < items.len() ==> count_char(#[trigger] items[j], c) == 1,
    ensures
        count_char(join_seqs(items, sep), c) == items.len(),
    decreases items.len(),
{
    if items.len() <= 1 {
    } else {
        assert forall|j: int| 0 <= j < items.drop_last().len() implies count_char(
            #[trigger] items.drop_last()[j],
            c,
        ) == 1 by {
            assert(items.drop_last()[j] == items[j]);
        }
        lemma_join_count_one(items.drop_last(), sep, c);
        lemma_count_concat(join_seqs(items.drop_last(), sep), sep, c);
        lemma_count_concat(join_seqs(items.drop_last(), sep) + sep, items.last(), c);
    }
}

/// The rendered field list holds no placeholder when no selected field does.
proof fn lemma_fields_text_qmarks(fs: Seq<Seq<char>>)
    requires
        forall|j: int| 0 <= j < fs.len() ==> count_char(#[trigger] fs[j], '?') == 0,
    ensures
        count_char(fields_text(fs), '?') == 0,
{
    if fs.len() == 0 {
        reveal_strlit("*");
        assert forall|i: int| 0 <= i < "*"@.len() implies "*"@[i] != '?' by {}
        lemma_count_zero("*"@, '?');
    } else {
        reveal_strlit(", ");
        assert forall|i: int| 0 <= i < ", "@.len() implies ", "@[i] != '?' by {}
        lemma_count_zero(", "@, '?');
        lemma_join_count_zero(fs, ", "@, '?');
    }
}

/// The ordering clause holds no placeholder when no ordered field does.
proof fn lemma_order_text_qmarks(os: Seq<OrderV>)
    requires
        forall|j: int| 0 <= j < os.len() ==> count_char((#[trigger] os[j]).field, '?') == 0,
    ensures
        count_char(order_text(os), '?') == 0,
{
    if os.len() == 0 {
    } else {
        reveal_strlit(" ORDER BY ");
        assert forall|i: int| 0 <= i < " ORDER BY "@.len() implies " ORDER BY "@[i] != '?' by {}
        lemma_count_zero(" ORDER BY "@, '?');
        reveal_strlit(", ");
        assert forall|i: int| 0 <= i < ", "@.len() implies ", "@[i] != '?' by {}
        lemma_count_zero(", "@, '?');
        reveal_strlit(" ASC");
        assert forall|i: int| 0 <= i < " ASC"@.len() implies " ASC"@[i] != '?' by {}
        lemma_count_zero(" ASC"@, '?');
        reveal_strlit(" DESC");
        assert forall|i: int| 0 <= i < " DESC"@.len() implies " DESC"@[i] != '?' by {}
        lemma_count_zero(" DESC"@, '?');
        let items = os.map_values(|o: OrderV| order_item(o));
        assert forall|j: int| 0 <= j < items.len() implies count_char(#[trigger] items[j], '?')
            == 0 by {
            assert(items[j] == order_item(os[j]));
            if os[j].asc_desc {
                lemma_count_concat(os[j].field, " ASC"@, '?');
            } else {
                lemma_count_concat(os[j].field, " DESC"@, '?');
            }
        }
        lemma_join_count_zero(items, ", "@, '?');
        lemma_count_concat(" ORDER BY "@, join_seqs(items, ", "@), '?');
    }
}

/// An absent raw fragment contributes nothing; a present one contributes
/// only its own characters.
proof fn lemma_opt_part_qmarks(part: Option<Seq<char>>)
    requires
        part is Some ==> count_char(part->Some_0, '?') == 0,
    ensures
        count_char(opt_first(part), '?') == 0,
        count_char(opt_last(part), '?') == 0,
        count_char(opt_comment(part), '?') == 0,
{
    reveal_strlit(" ");
    assert forall|i: int| 0 <= i < " "@.len() implies " "@[i] != '?' by {}
    lemma_count_zero(" "@, '?');
    reveal_strlit(" -- ");
    assert forall|i: int| 0 <= i < " -- "@.len() implies " -- "@[i] != '?' by {}
    lemma_count_zero(" -- "@, '?');
    match part {
        Option::Some(f) => {
            lemma_count_concat(f, " "@, '?');
            lemma_count_concat(" "@, f, '?');
            lemma_count_concat(" -- "@, f, '?');
        },
        Option::None => {},
    }
}

/// Occurrence counts add over a concatenation of eight parts.
proof fn lemma_count_concat8(
    p1: Seq<char>,
    p2: Seq<char>,
    p3: Seq<char>,
    p4: Seq<char>,
    p5: Seq<char>,
    p6: Seq<char>,
    p7: Seq<char>,
    p8: Seq<char>,
    c: char,
)
    ensures
        count_char(p1 + p2 + p3 + p4 + p5 + p6 + p7 + p8, c) == count_char(p1, c) + count_char(
            p2,
            c,
        ) + count_char(p3, c) + count_char(p4, c) + count_char(p5, c) + count_char(p6, c)
            + count_char(p7, c) + count_char(p8, c),
{
    lemma_count_concat(p1, p2, c);
    lemma_count_concat(p1 + p2, p3, c);
    lemma_count_concat(p1 + p2 + p3, p4, c);
    lemma_count_concat(p1 + p2 + p3 + p4, p5, c);
    lemma_count_concat(p1 + p2 + p3 + p4 + p5, p6, c);
    lemma_count_concat(p1 + p2 + p3 + p4 + p5 + p6, p7, c);
    lemma_count_concat(p1 + p2 + p3 + p4 + p5 + p6 + p7, p8, c);
}

/// LAW — query binding order: the full query text holds exactly one
/// placeholder per value the query binds, whenever none of its raw texts —
/// field names, table, fragments, comment — carries a placeholder character
/// of its own.
pub proof fn lemma_query_placeholders_match_values(q: QueryWrapperV)
    requires
        q.wrapper.wf(),
        forall|j: int|
            0 <= j < q.wrapper.wheres.len() ==> count_char(
                (#[trigger] q.wrapper.wheres[j]).field,
                '?',
            ) == 0,
        forall|j: int| 0 <= j < q.field.len() ==> count_char(#[trigger] q.field[j], '?') == 0,
        forall|j: int| 0 <= j < q.order.len() ==> count_char((#[trigger] q.order[j]).field, '?')
            == 0,
        count_char(q.table, '?') == 0,
        q.first is Some ==> count_char(q.first->Some_0, '?') == 0,
        q.last is Some ==> count_char(q.last->Some_0, '?') == 0,
        q.comment is Some ==> count_char(q.comment->Some_0, '?') == 0,
    ensures
        count_char(query_sql_spec(q), '?') == flat_values(q.wrapper.wheres).len(),
{
    reveal_strlit("SELECT ");
    assert forall|i: int| 0 <= i < "SELECT "@.len() implies "SELECT "@[i] != '?' by {}
    lemma_count_zero("SELECT "@, '?');
    reveal_strlit(" FROM ");
    assert forall|i: int| 0 <= i < " FROM "@.len() implies " FROM "@[i] != '?' by {}
    lemma_count_zero(" FROM "@, '?');
    lemma_opt_part_qmarks(q.first);
    lemma_opt_part_qmarks(q.last);
    lemma_opt_part_qmarks(q.comment);
    lemma_fields_text_qmarks(q.field);
    lemma_order_text_qmarks(q.order);
    lemma_placeholders_match_values(q.wrapper);
    lemma_count_concat8(
        opt_first(q.first),
        "SELECT "@,
        fields_text(q.field),
        " FROM "@,
        q.table,
        where_clause_spec(q.wrapper),
        order_text(q.order),
        opt_last(q.last) + opt_comment(q.comment),
        '?',
    );
    lemma_count_concat(opt_last(q.last), opt_comment(q.comment), '?');
    assert(query_sql_spec(q) =~= opt_first(q.first) + "SELECT "@ + fields_text(q.field)
        + " FROM "@ + q.table + where_clause_spec(q.wrapper) + order_text(q.order) + (opt_last(
        q.last,
    ) + opt_comment(q.comment)));
}

/// LAW — update binding order: the full update text holds exactly one
/// placeholder per set-list assignment followed by one per predicate value
/// — the very order [`crate::chain::UpdateWrapper::bind_values`] hands the
/// values out in — whenever none of its raw texts carries a placeholder
/// character of its own.
pub proof fn lemma_update_placeholders_match_values(u: UpdateWrapperV)
    requires
        u.wrapper.wf(),
        forall|j: int|
            0 <= j < u.wrapper.wheres.len() ==> count_char(
                (#[trigger] u.wrapper.wheres[j]).field,
                '?',
            ) == 0,
        forall|j: int| 0 <= j < u.set_key.len() ==> count_char(#[trigger] u.set_key[j], '?') == 0,
        count_char(u.table, '?') == 0,
        u.first is Some ==> count_char(u.first->Some_0, '?') == 0,
        u.last is Some ==> count_char(u.last->Some_0, '?') == 0,
        u.comment is Some ==> count_char(u.comment->Some_0, '?') == 0,
    ensures
        count_char(update_sql_spec(u), '?') == u.set_key.len() + flat_values(
            u.wrapper.wheres,
        ).len(),
{
    reveal_strlit("UPDATE ");
    assert forall|i: int| 0 <= i < "UPDATE "@.len() implies "UPDATE "@[i] != '?' by {}
    lemma_count_zero("UPDATE "@, '?');
    reveal_strlit(" SET ");
    assert forall|i: int| 0 <= i < " SET "@.len() implies " SET "@[i] != '?' by {}
    lemma_count_zero(" SET "@, '?');
    reveal_strlit(", ");
    assert forall|i: int| 0 <= i < ", "@.len() implies ", "@[i] != '?' by {}
    lemma_count_zero(", "@, '?');
    reveal_strlit(" = ?");
    assert(" = ?"@[3] == '?');
    lemma_count_single(" = ?"@, '?', 3);
    let items = u.set_key.map_values(|k: Seq<char>| set_item(k));
    assert forall|j: int| 0 <= j < items.len() implies count_char(#[trigger] items[j], '?') == 1
        by {
        assert(items[j] == set_item(u.set_key[j]));
        lemma_count_concat(u.set_key[j], " = ?"@, '?');
    }
    lemma_join_count_one(items, ", "@, '?');
    lemma_opt_part_qmarks(u.first);
    lemma_opt_part_qmarks(u.last);
    lemma_opt_part_qmarks(u.comment);
    lemma_placeholders_match_values(u.wrapper);
    lemma_count_concat8(
        opt_first(u.first),
        "UPDATE "@,
        u.table,
        " SET "@,
        join_seqs(items, ", "@),
        where_clause_spec(u.wrapper),
        opt_last(u.last),
        opt_comment(u.comment),
        '?',
    );
    assert(update_sql_spec(u) =~= opt_first(u.first) + "UPDATE "@ + u.table + " SET "@
        + join_seqs(items, ", "@) + where_clause_spec(u.wrapper) + opt_last(u.last) + opt_comment(
        u.comment,
    ));
}

/// LAW — delete binding order: the full delete text holds exactly one
/// placeholder per predicate value, whenever none of its raw texts carries a
/// placeholder character of its own.
pub proof fn lemma_delete_placeholders_match_values(d: DeleteWrapperV)
    requires
        d.wrapper.wf(),
        forall|j: int|
            0 <= j < d.wrapper.wheres.len() ==> count_char(
                (#[trigger] d.wrapper.wheres[j]).field,
                '?',
            ) == 0,
        count_char(d.table, '?') == 0,
        d.first is Some ==> count_char(d.first->Some_0, '?') == 0,
        d.last is Some ==> count_char(d.last->Some_0, '?') == 0,
        d.comment is Some ==> count_char(d.comment->Some_0, '?') == 0,
    ensures
        count_char(delete_sql_spec(d), '?') == flat_values(d.wrapper.wheres).len(),
{
    reveal_strlit("DELETE FROM ");
    assert forall|i: int| 0 <= i < "DELETE FROM "@.len() implies "DELETE FROM "@[i] != '?' by {}
    lemma_count_zero("DELETE FROM "@, '?');
    lemma_opt_part_qmarks(d.first);
    lemma_opt_part_qmarks(d.last);
    lemma_opt_part_qmarks(d.comment);
    lemma_placeholders_match_values(d.wrapper);
    lemma_count_concat(opt_first(d.first), "DELETE FROM "@, '?');
    lemma_count_concat(opt_first(d.first) + "DELETE FROM "@, d.table, '?');
    lemma_count_concat(opt_first(d.first) + "DELETE FROM "@ + d.table, where_clause_spec(
        d.wrapper,
    ), '?');
    lemma_count_concat(
        opt_first(d.first) + "DELETE FROM "@ + d.table + where_clause_spec(d.wrapper),
        opt_last(d.last),
        '?',
    );
    lemma_count_concat(
        opt_first(d.first) + "DELETE FROM "@ + d.table + where_clause_spec(d.wrapper) + opt_last(
            d.last,
        ),
        opt_comment(d.comment),
        '?',
    );
}

/// LAW — binding follows call order: appending a predicate appends its
/// values, in their stored order, at the end of the bound-value sequence,
/// so the sequence as a whole lists the values exactly in the order the
/// builder calls supplied them.
pub proof fn lemma_bind_values_follow_call_order(
    v: WrapperV,
    field: Seq<char>,
    rel: Relationship,
    values: Seq<SqlValueV>,
)
    ensures
        flat_values(crate::wrapper::pushed(v, field, rel, values).wheres) == flat_values(v.wheres)
            + values,
{
    let p = crate::wrapper::pushed(v, field, rel, values);
    assert(p.wheres.drop_last() =~= v.wheres);
    assert(p.wheres.last().values == values);
}

/// LAW — empty sub-build: a group whose sub-build appended no predicate
/// records no bracket and leaves the builder exactly as the sub-build
/// returned it.
pub proof fn lemma_group_without_predicates(start: int, mid: WrapperV)
    requires
        mid.wheres.len() <= start,
    ensures
        group_fixup(start, mid) == mid,
{
}

/// LAW — a pending disjunction marker renders nothing: until a predicate is
/// appended to take it up, the rendered clause is that of the unmarked
/// builder. With no predicate at all the marker is never even recorded, so
/// a lone disjunction call has no rendering effect.
pub proof fn lemma_pending_marker_not_rendered(v: WrapperV)
    ensures
        where_clause_spec(WrapperV { pending_or: true, ..v }) == where_clause_spec(v),
{
    let m = WrapperV { pending_or: true, ..v };
    assert forall|i: int| 1 <= i <= v.wheres.len() implies clause_prefix(m, i) == clause_prefix(
        v,
        i,
    ) by {
        lemma_prefix_ignores_pending(v, i);
    }
    if v.wheres.len() > 0 {
        assert(clause_prefix(m, v.wheres.len() as int) == clause_prefix(
            v,
            v.wheres.len() as int,
        ));
    }
}

/// The clause prefix reads only the predicates, the markers and the bracket
/// counts, never the pending marker.
proof fn lemma_prefix_ignores_pending(v: WrapperV, i: int)
    requires
        1 <= i,
    ensures
        clause_prefix(WrapperV { pending_or: true, ..v }, i) == clause_prefix(v, i),
    decreases i,
{
    if i > 1 {
        lemma_prefix_ignores_pending(v, i - 1);
    }
}

/// LAW — rendering is pure: the query text is a function of the builder
/// alone, so rendering twice without a mutation in between gives the same
/// text both times.
pub proof fn lemma_render_idempotent(q: QueryWrapperV, r1: Seq<char>, r2: Seq<char>)
    requires
        r1 == query_sql_spec(q),
        r2 == query_sql_spec(q),
    ensures
        r1 == r2,
{
}

} // verus!
