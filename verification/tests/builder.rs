use batis4sqlx::bracket::Bracket;
use batis4sqlx::value::SqlValue;
use batis4sqlx::wrapper::{Relationship, Where, Wrapper};

fn i(v: i32) -> SqlValue {
    SqlValue::I32(v)
}

fn s(v: &str) -> SqlValue {
    SqlValue::Str(v.to_string())
}

#[test]
fn empty_builder_renders_nothing() {
    let w = Wrapper::new();
    assert_eq!(w.where_clause(), "");
    assert_eq!(w.bind_values(), vec![]);
}

#[test]
fn single_eq_renders_where() {
    let w = Wrapper::new().eq_field("status", i(1));
    assert_eq!(w.where_clause(), " WHERE status = ?");
    assert_eq!(w.bind_values(), vec![i(1)]);
}

#[test]
fn comparison_operators_render() {
    let w = Wrapper::new()
        .ne_field("a", i(1))
        .gt_field("b", i(2))
        .ge_field("c", i(3))
        .lt_field("d", i(4))
        .le_field("e", i(5));
    assert_eq!(
        w.where_clause(),
        " WHERE a <> ? AND b > ? AND c >= ? AND d < ? AND e <= ?"
    );
    assert_eq!(w.bind_values(), vec![i(1), i(2), i(3), i(4), i(5)]);
}

#[test]
fn between_and_not_between_render() {
    let w = Wrapper::new()
        .between_field("a", i(1), i(2))
        .not_between_field("b", i(3), i(4));
    assert_eq!(
        w.where_clause(),
        " WHERE a BETWEEN ? AND ? AND b NOT BETWEEN ? AND ?"
    );
    assert_eq!(w.bind_values(), vec![i(1), i(2), i(3), i(4)]);
}

#[test]
fn in_and_not_in_render_one_placeholder_per_value() {
    let w = Wrapper::new()
        .in_vec_field("a", vec![i(1), i(2), i(3)])
        .not_in_vec_field("b", vec![i(4)]);
    assert_eq!(w.where_clause(), " WHERE a IN (?, ?, ?) AND b NOT IN (?)");
    assert_eq!(w.bind_values(), vec![i(1), i(2), i(3), i(4)]);
}

#[test]
fn deduplicating_in_keeps_first_occurrences() {
    let w = Wrapper::new().in_field("a", vec![i(1), i(2), i(1), i(3), i(2)]);
    assert_eq!(w.where_clause(), " WHERE a IN (?, ?, ?)");
    assert_eq!(w.bind_values(), vec![i(1), i(2), i(3)]);

    let w = Wrapper::new().not_in_field("a", vec![i(4), i(4)]);
    assert_eq!(w.where_clause(), " WHERE a NOT IN (?)");
    assert_eq!(w.bind_values(), vec![i(4)]);
}

#[test]
fn empty_in_list_renders_empty_parens() {
    let w = Wrapper::new().in_vec_field("a", vec![]);
    assert_eq!(w.where_clause(), " WHERE a IN ()");
    assert_eq!(w.bind_values(), vec![]);
}

#[test]
fn null_tests_render_without_placeholder() {
    let w = Wrapper::new().null_field("a").not_null_field("b");
    assert_eq!(w.where_clause(), " WHERE a IS NULL AND b IS NOT NULL");
    assert_eq!(w.bind_values(), vec![]);
}

#[test]
fn like_family_wraps_bound_values() {
    let w = Wrapper::new().like_field("name", s("bob"));
    assert_eq!(w.where_clause(), " WHERE name LIKE ?");
    assert_eq!(w.bind_values(), vec![s("%bob%")]);

    let w = Wrapper::new().like_left_field("name", s("bob"));
    assert_eq!(w.where_clause(), " WHERE name LIKE ?");
    assert_eq!(w.bind_values(), vec![s("%bob")]);

    let w = Wrapper::new().like_right_field("name", s("bob"));
    assert_eq!(w.where_clause(), " WHERE name LIKE ?");
    assert_eq!(w.bind_values(), vec![s("bob%")]);

    let w = Wrapper::new().not_like_field("name", s("bob"));
    assert_eq!(w.where_clause(), " WHERE name NOT LIKE ?");
    assert_eq!(w.bind_values(), vec![s("%bob%")]);
}

#[test]
fn like_on_non_text_value_binds_it_unchanged() {
    let w = Wrapper::new().like_field("n", i(7));
    assert_eq!(w.bind_values(), vec![i(7)]);
}

#[test]
fn or_marks_the_next_predicate() {
    let w = Wrapper::new()
        .eq_field("status", i(1))
        .or()
        .eq_field("status", i(2));
    assert_eq!(w.where_clause(), " WHERE status = ? OR status = ?");
    assert_eq!(w.bind_values(), vec![i(1), i(2)]);
}

#[test]
fn or_on_empty_builder_has_no_effect() {
    let w = Wrapper::new().or();
    assert_eq!(w.where_clause(), "");
    let w = w.eq_field("a", i(1)).eq_field("b", i(2));
    assert_eq!(w.where_clause(), " WHERE a = ? AND b = ?");
}

#[test]
fn repeated_or_marks_once() {
    let w = Wrapper::new().eq_field("a", i(1)).or().or().eq_field("b", i(2));
    assert_eq!(w.where_clause(), " WHERE a = ? OR b = ?");
}

#[test]
fn binding_order_matches_placeholder_order() {
    let w = Wrapper::new()
        .eq_field("a", i(1))
        .in_vec_field("b", vec![i(2), i(3)])
        .between_field("c", i(4), i(5));
    assert_eq!(
        w.where_clause(),
        " WHERE a = ? AND b IN (?, ?) AND c BETWEEN ? AND ?"
    );
    assert_eq!(w.bind_values(), vec![i(1), i(2), i(3), i(4), i(5)]);
}

#[test]
fn or_fn_renders_a_parenthesized_group() {
    let w = Wrapper::new()
        .eq_field("a", i(1))
        .or_fn(|w| w.eq_field("b", i(2)).eq_field("c", i(3)));
    assert_eq!(w.where_clause(), " WHERE a = ? OR (b = ? AND c = ?)");
    assert_eq!(w.bind_values(), vec![i(1), i(2), i(3)]);
}

#[test]
fn and_fn_renders_a_parenthesized_group() {
    let w = Wrapper::new()
        .eq_field("a", i(1))
        .and_fn(|w| w.eq_field("b", i(2)).or().eq_field("c", i(3)));
    assert_eq!(w.where_clause(), " WHERE a = ? AND (b = ? OR c = ?)");
    assert_eq!(w.bind_values(), vec![i(1), i(2), i(3)]);
}

#[test]
fn group_on_empty_builder_adds_no_brackets() {
    let w = Wrapper::new().and_fn(|w| w.eq_field("a", i(1)).eq_field("b", i(2)));
    assert_eq!(w.where_clause(), " WHERE a = ? AND b = ?");
    let w = Wrapper::new().or_fn(|w| w.eq_field("a", i(1)).eq_field("b", i(2)));
    assert_eq!(w.where_clause(), " WHERE a = ? AND b = ?");
}

#[test]
fn empty_sub_build_adds_no_brackets_and_no_connective() {
    let w = Wrapper::new().eq_field("a", i(1)).and_fn(|w| w);
    assert_eq!(w.where_clause(), " WHERE a = ?");
    let w = w.eq_field("b", i(2));
    assert_eq!(w.where_clause(), " WHERE a = ? AND b = ?");
}

#[test]
fn or_fn_with_empty_sub_build_leaves_marker_for_next_predicate() {
    let w = Wrapper::new()
        .eq_field("a", i(1))
        .or_fn(|w| w)
        .eq_field("b", i(2));
    assert_eq!(w.where_clause(), " WHERE a = ? OR b = ?");
}

#[test]
fn nested_groups_render_nested_brackets() {
    let w = Wrapper::new().eq_field("a", i(1)).and_fn(|w| {
        w.eq_field("b", i(2))
            .or_fn(|w2| w2.eq_field("c", i(3)).eq_field("d", i(4)))
    });
    assert_eq!(
        w.where_clause(),
        " WHERE a = ? AND (b = ? OR (c = ? AND d = ?))"
    );
    assert_eq!(w.bind_values(), vec![i(1), i(2), i(3), i(4)]);
}

#[test]
fn adjacent_groups_share_boundaries() {
    let w = Wrapper::new()
        .eq_field("a", i(1))
        .and_fn(|w| w.eq_field("b", i(2)))
        .or_fn(|w| w.eq_field("c", i(3)));
    assert_eq!(w.where_clause(), " WHERE a = ? AND (b = ?) OR (c = ?)");
}

#[test]
fn brackets_always_balance() {
    let cases: Vec<Wrapper> = vec![
        Wrapper::new().eq_field("a", i(1)).and_fn(|w| {
            w.eq_field("b", i(2))
                .or_fn(|w2| w2.eq_field("c", i(3)).and_fn(|w3| w3.eq_field("d", i(4))))
        }),
        Wrapper::new()
            .in_vec_field("a", vec![i(1), i(2)])
            .or_fn(|w| w.in_vec_field("b", vec![i(3)])),
        Wrapper::new().and_fn(|w| w.eq_field("a", i(1))).or_fn(|w| w.eq_field("b", i(2))),
    ];
    for w in cases {
        let text = w.where_clause();
        let opens = text.chars().filter(|&c| c == '(').count();
        let closes = text.chars().filter(|&c| c == ')').count();
        assert_eq!(opens, closes);
    }
}

#[test]
fn placeholder_count_matches_value_count() {
    let w = Wrapper::new()
        .eq_field("a", i(1))
        .in_vec_field("b", vec![i(2), i(3), i(4)])
        .null_field("c")
        .between_field("d", i(5), i(6))
        .or_fn(|w| w.like_field("e", s("x")));
    let text = w.where_clause();
    let marks = text.chars().filter(|&c| c == '?').count();
    assert_eq!(marks, w.bind_values().len());
}

#[test]
fn render_twice_gives_identical_text() {
    let w = Wrapper::new()
        .eq_field("a", i(1))
        .or_fn(|w| w.eq_field("b", i(2)).eq_field("c", i(3)));
    let first = w.where_clause();
    let second = w.where_clause();
    assert_eq!(first, second);
    assert_eq!(w.bind_values(), w.bind_values());
}

#[test]
fn guarded_shapes_append_only_when_allowed() {
    let w = Wrapper::new()
        .eq_field("a", i(1))
        .pred_field_opt_flag("b", Relationship::Eq, Some(vec![i(2)]), false)
        .pred_field_opt_flag("c", Relationship::Eq, None, true)
        .pred_field_opt_flag("d", Relationship::Eq, Some(vec![i(3)]), true);
    assert_eq!(w.where_clause(), " WHERE a = ? AND d = ?");
    assert_eq!(w.bind_values(), vec![i(1), i(3)]);
}

#[test]
fn guarded_shape_wraps_match_values() {
    let w = Wrapper::new().pred_field_opt_flag(
        "name",
        Relationship::Like,
        Some(vec![s("bob")]),
        true,
    );
    assert_eq!(w.bind_values(), vec![s("%bob%")]);
}

#[test]
fn or_flag_and_group_flags() {
    let w = Wrapper::new()
        .eq_field("a", i(1))
        .or_flag(false)
        .eq_field("b", i(2))
        .or_flag(true)
        .eq_field("c", i(3));
    assert_eq!(w.where_clause(), " WHERE a = ? AND b = ? OR c = ?");

    let w = Wrapper::new()
        .eq_field("a", i(1))
        .and_fn_flag(|w| w.eq_field("b", i(2)), false)
        .or_fn_flag(false, |w| w.eq_field("c", i(3)));
    assert_eq!(w.where_clause(), " WHERE a = ?");

    let w = Wrapper::new()
        .eq_field("a", i(1))
        .and_fn_flag(|w| w.eq_field("b", i(2)), true);
    assert_eq!(w.where_clause(), " WHERE a = ? AND (b = ?)");
}

#[test]
fn to_bind_sql_renders_each_operator() {
    let cases = vec![
        (Relationship::Eq, vec![i(1)], "f = ?"),
        (Relationship::Ne, vec![i(1)], "f <> ?"),
        (Relationship::Gt, vec![i(1)], "f > ?"),
        (Relationship::Ge, vec![i(1)], "f >= ?"),
        (Relationship::Lt, vec![i(1)], "f < ?"),
        (Relationship::Le, vec![i(1)], "f <= ?"),
        (Relationship::Between, vec![i(1), i(2)], "f BETWEEN ? AND ?"),
        (Relationship::NotBetween, vec![i(1), i(2)], "f NOT BETWEEN ? AND ?"),
        (Relationship::Like, vec![i(1)], "f LIKE ?"),
        (Relationship::NotLike, vec![i(1)], "f NOT LIKE ?"),
        (Relationship::LikeLeft, vec![i(1)], "f LIKE ?"),
        (Relationship::LikeRight, vec![i(1)], "f LIKE ?"),
        (Relationship::In, vec![i(1), i(2)], "f IN (?, ?)"),
        (Relationship::NotIn, vec![i(1)], "f NOT IN (?)"),
        (Relationship::IsNull, vec![], "f IS NULL"),
        (Relationship::IsNotNull, vec![], "f IS NOT NULL"),
    ];
    for (rel, values, expected) in cases {
        let w = Where::new("f".to_string(), rel, values);
        assert_eq!(w.to_bind_sql(), expected);
    }
}

#[test]
fn relationship_to_str() {
    assert_eq!(Relationship::Eq.to_str(), "=");
    assert_eq!(Relationship::NotBetween.to_str(), "NOT BETWEEN");
    assert_eq!(Relationship::LikeLeft.to_str(), "LIKE");
    assert_eq!(Relationship::IsNotNull.to_str(), "IS NOT NULL");
}

#[test]
fn bracket_counters_record_and_clear() {
    let mut b = Bracket::new();
    assert_eq!(b.get_left(0), 0);
    b.inc_left(3);
    b.inc_left(3);
    b.inc_left_count(1, 4);
    b.inc_right(2);
    b.inc_right_count(2, 2);
    assert_eq!(b.get_left(3), 2);
    assert_eq!(b.get_left(1), 4);
    assert_eq!(b.get_right(2), 3);
    assert_eq!(b.dec_all_left(3), 2);
    assert_eq!(b.get_left(3), 0);
    assert_eq!(b.dec_all_left(3), 0);
    assert_eq!(b.dec_all_right(2), 3);
    assert_eq!(b.dec_all_right(7), 0);
}
